//! The binary form of chain segments, as `rkyv` writes and reads it.

use bytes::Bytes;
use vstd::prelude::*;

use crate::buffer::bytes_content;

verus! {

/// `rkyv::rancor::Error`: why a value could not be archived or read back.
#[verifier::external_type_specification]
#[verifier::external_body]
pub struct ExArchiveError(rkyv::rancor::Error);

/// The archive that `rkyv::to_bytes` makes of a block range and a payload;
/// `None` where it fails.
pub uninterp spec fn archived(first: u64, last: u64, payload: Seq<u8>) -> Option<Seq<u8>>;

/// What `rkyv::from_bytes` reads from an archive of a block range and a payload;
/// `None` where it rejects the bytes.
pub uninterp spec fn unarchived(archive: Seq<u8>) -> Option<(u64, u64, Seq<u8>)>;

/// The longest payload that an archive holds.
///
/// Inside an archive the payload is found by a signed 32-bit offset. The archive
/// takes 24 bytes more than the payload, and where addresses have 32 bits it is
/// built in a buffer of at most 16 bytes less than half of all addresses.
pub const MAX_PAYLOAD: usize = 0x7fff_ffd8;

/// `rkyv::to_bytes` on a block range and a payload.
///
/// The result depends on the three values alone, and `rkyv::from_bytes` reads
/// the same values back from what it wrote. It panics where the payload is out
/// of reach of the offset that points to it, so longer payloads are left out.
#[verifier::external_body]
pub(crate) fn to_archive(first: u64, last: u64, payload: &Vec<u8>) -> (archive: Result<Vec<u8>, rkyv::rancor::Error>)
    requires
        payload@.len() <= MAX_PAYLOAD,
    ensures
        archive matches Ok(bytes) ==> archived(first, last, payload@) == Some(bytes@),
        archive is Err ==> archived(first, last, payload@) is None,
        archive matches Ok(bytes) ==> unarchived(bytes@) == Some((first, last, payload@)),
{
    rkyv::to_bytes::<rkyv::rancor::Error>(&(first, last, payload.clone())).map(|bytes| bytes.into_vec())
}

/// `rkyv::from_bytes` on the archive of a block range and a payload.
///
/// It checks the archive before it reads it, and its result depends on the bytes
/// alone: archived numbers are unaligned, so where the bytes lie in memory does
/// not matter.
#[verifier::external_body]
pub(crate) fn from_archive(archive: &Bytes) -> (value: Result<(u64, u64, Vec<u8>), rkyv::rancor::Error>)
    ensures
        value matches Ok(v) ==> unarchived(bytes_content(*archive)) == Some((v.0, v.1, v.2@)),
        value is Err ==> unarchived(bytes_content(*archive)) is None,
{
    rkyv::from_bytes::<(u64, u64, Vec<u8>), rkyv::rancor::Error>(archive)
}

} // verus!
