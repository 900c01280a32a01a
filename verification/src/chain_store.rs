//! Chain segments in an object store, with a cache in front of it.
//!
//! A store holds the handles of the object store and of the cache, but talks to
//! neither. Each operation says what to ask for next; whoever drives it asks,
//! and hands the reply back.

use std::time::SystemTime;

use bytes::Bytes;
use vstd::prelude::*;

use crate::archive::{archived, from_archive, to_archive, unarchived, MAX_PAYLOAD};
use crate::buffer::bytes_content;
use crate::clock::{timestamp_at, unix_time_ns};
use crate::decimal::push_padded;
use crate::names::{
    key_of, next_count, recent_key_prefix, recent_prefix, recent_snapshot_name, segment_name, starts_with,
    SNAPSHOT_COUNTER_LIMIT,
};
use crate::object_store::{
    version_text, GetOptions, ObjectStoreError, ObjectVersion, PutMode, PutOptions,
};

verus! {

/// A block of the chain.
#[derive(Clone, Copy, Debug, PartialEq, Eq, Structural)]
pub struct BlockRef {
    pub number: u64,
}

/// Which blocks a segment covers.
#[derive(Clone, Copy, Debug, PartialEq, Eq, Structural)]
pub struct SegmentInfo {
    pub first_block: BlockRef,
    pub last_block: BlockRef,
}

/// A run of blocks of the canonical chain.
#[derive(Clone, Debug, PartialEq, Eq)]
pub struct CanonicalChainSegment {
    pub info: SegmentInfo,
    /// The blocks, in a form that the store carries without looking into it.
    pub payload: Vec<u8>,
}

/// What a segment stands for: its first block, its last block, its payload.
pub type SegmentModel = (u64, u64, Seq<u8>);

impl View for CanonicalChainSegment {
    type V = SegmentModel;

    open spec fn view(&self) -> SegmentModel {
        (self.info.first_block.number, self.info.last_block.number, self.payload@)
    }
}

/// Where to find a snapshot of a recent segment, and which blocks it covers.
#[derive(Clone, Debug, PartialEq, Eq)]
pub struct RecentSegmentPointer {
    pub key: String,
    pub version: String,
    pub first_block: u64,
    pub last_block: u64,
}

/// A chain store operation failed.
#[derive(Clone, Copy, Debug, PartialEq, Eq, Structural)]
pub struct ChainStoreError;

/// The cache failed.
#[derive(Clone, Copy, Debug, PartialEq, Eq, Structural)]
pub enum FileCacheError {
    Foyer,
}

/// What is wrong with a pointer to a recent snapshot.
#[derive(Clone, Copy, Debug, PartialEq, Eq, Structural)]
pub enum RecentPointerFault {
    /// The key is not that of a recent snapshot.
    OutsideRecentPrefix,
    /// The pointer names no version.
    EmptyVersion,
    /// The first block comes behind the last.
    InvalidBlockRange,
}

/// What happens to an object once it has been fetched.
#[derive(Clone, Copy, Debug, PartialEq, Eq, Structural)]
pub enum AfterFetch {
    /// Its segment is the answer.
    Return,
    /// It goes into the cache, then its segment is the answer.
    Cache,
    /// Its segment is the answer if it covers exactly these blocks.
    CheckRange { first_block: u64, last_block: u64 },
}

/// A look-up in the cache.
#[derive(Debug)]
pub struct CacheLookup {
    /// What to look up.
    pub key: String,
    /// The version to fetch if the cache does not have it.
    pub version: Option<ObjectVersion>,
}

/// A request to read an object.
#[derive(Debug)]
pub struct ObjectFetch {
    pub key: String,
    pub options: GetOptions,
    pub purpose: AfterFetch,
}

/// An object that goes into the cache.
#[derive(Debug)]
pub struct CacheInsert {
    pub key: String,
    pub body: Bytes,
}

/// How far a read has come: what to ask for next, or the answer.
#[derive(Debug)]
pub enum ReadStep {
    LookUp(CacheLookup),
    Fetch(ObjectFetch),
    Insert(CacheInsert),
    Done(Result<Option<CanonicalChainSegment>, ChainStoreError>),
}

/// What a step of a read stands for.
pub enum ReadModel {
    LookUp { key: Seq<char>, version: Option<Seq<char>> },
    Fetch { key: Seq<char>, version: Option<Seq<char>>, purpose: AfterFetch },
    Insert { key: Seq<char>, body: Seq<u8> },
    Done(Result<Option<SegmentModel>, ChainStoreError>),
}

/// What the outcome of a read stands for.
pub open spec fn outcome_model(
    outcome: Result<Option<CanonicalChainSegment>, ChainStoreError>,
) -> Result<Option<SegmentModel>, ChainStoreError> {
    match outcome {
        Ok(Some(segment)) => Ok(Some(segment@)),
        Ok(None) => Ok(None),
        Err(e) => Err(e),
    }
}

impl View for ReadStep {
    type V = ReadModel;

    open spec fn view(&self) -> ReadModel {
        match *self {
            ReadStep::LookUp(lookup) => ReadModel::LookUp {
                key: lookup.key@,
                version: version_text(lookup.version),
            },
            ReadStep::Fetch(fetch) => ReadModel::Fetch {
                key: fetch.key@,
                version: version_text(fetch.options.version),
                purpose: fetch.purpose,
            },
            ReadStep::Insert(insert) => ReadModel::Insert {
                key: insert.key@,
                body: bytes_content(insert.body),
            },
            ReadStep::Done(outcome) => ReadModel::Done(outcome_model(outcome)),
        }
    }
}

/// The answer to a read that got as far as reading an archive: what the archive
/// holds, where that is a segment and the segment is the one that was wanted.
pub open spec fn answer_of(
    found: Option<SegmentModel>,
    purpose: AfterFetch,
) -> Result<Option<SegmentModel>, ChainStoreError> {
    match found {
        None => Err(ChainStoreError),
        Some(segment) => match purpose {
            AfterFetch::CheckRange { first_block, last_block } => if segment.0 == first_block
                && segment.1 == last_block {
                Ok(Some(segment))
            } else {
                Err(ChainStoreError)
            },
            _ => Ok(Some(segment)),
        },
    }
}

/// What follows a cache look-up.
pub open spec fn after_lookup(
    key: Seq<char>,
    version: Option<Seq<char>>,
    reply: Result<Option<Seq<u8>>, FileCacheError>,
) -> ReadModel {
    match reply {
        Err(_) => ReadModel::Done(Err(ChainStoreError)),
        Ok(Some(body)) => ReadModel::Done(answer_of(unarchived(body), AfterFetch::Return)),
        Ok(None) => ReadModel::Fetch { key, version, purpose: AfterFetch::Cache },
    }
}

/// What follows a fetch.
pub open spec fn after_fetch(
    key: Seq<char>,
    purpose: AfterFetch,
    reply: Result<Seq<u8>, ObjectStoreError>,
) -> ReadModel {
    match reply {
        Err(ObjectStoreError::NotFound) => ReadModel::Done(Ok(None)),
        Err(_) => ReadModel::Done(Err(ChainStoreError)),
        Ok(body) => match purpose {
            AfterFetch::Cache => ReadModel::Insert { key, body },
            _ => ReadModel::Done(answer_of(unarchived(body), purpose)),
        },
    }
}

/// What follows the insertion of an object into the cache, which hands the
/// entry's value back.
pub open spec fn after_insert(entry: Seq<u8>) -> ReadModel {
    ReadModel::Done(answer_of(unarchived(entry), AfterFetch::Return))
}

/// What is wrong with a pointer, if anything: its key is looked at first, then
/// its version, then its block range.
pub open spec fn pointer_fault(
    key: Seq<char>,
    version: Seq<char>,
    first_block: u64,
    last_block: u64,
) -> Option<RecentPointerFault> {
    if !recent_key_prefix().is_prefix_of(key) {
        Some(RecentPointerFault::OutsideRecentPrefix)
    } else if version.len() == 0 {
        Some(RecentPointerFault::EmptyVersion)
    } else if first_block > last_block {
        Some(RecentPointerFault::InvalidBlockRange)
    } else {
        None
    }
}

/// Whether a pointer to a recent snapshot makes sense: its key is that of a
/// recent snapshot, it names a version, and its first block is not behind its
/// last.
pub open spec fn valid_pointer(
    key: Seq<char>,
    version: Seq<char>,
    first_block: u64,
    last_block: u64,
) -> bool {
    &&& recent_key_prefix().is_prefix_of(key)
    &&& version.len() > 0
    &&& first_block <= last_block
}

/// The first step of reading the object with the given key past the cache: it is
/// fetched.
pub open spec fn direct_read(key: Seq<char>, version: Option<Seq<char>>) -> ReadModel {
    ReadModel::Fetch { key, version, purpose: AfterFetch::Return }
}

/// The first step of reading the object with the given name: its key is looked up
/// in the cache, unless the read passes the cache.
pub open spec fn named_read(
    name: Seq<char>,
    version: Option<Seq<char>>,
    skip_cache: bool,
) -> ReadModel {
    if skip_cache {
        direct_read(key_of(name), version)
    } else {
        ReadModel::LookUp { key: key_of(name), version }
    }
}

/// The first step of reading a canonical segment: its key is looked up in the
/// cache.
pub open spec fn canonical_read(first_block: u64) -> ReadModel {
    named_read(segment_name(first_block), None, false)
}

/// The first step of reading a recent snapshot: a pointer that makes sense is
/// followed past the cache, any other is refused.
pub open spec fn recent_read(
    key: Seq<char>,
    version: Seq<char>,
    first_block: u64,
    last_block: u64,
) -> ReadModel {
    if valid_pointer(key, version, first_block, last_block) {
        ReadModel::Fetch {
            key,
            version: Some(version),
            purpose: AfterFetch::CheckRange { first_block, last_block },
        }
    } else {
        ReadModel::Done(Err(ChainStoreError))
    }
}

/// The first step of reading the recent segment from where it used to be kept:
/// it is fetched past the cache.
pub open spec fn legacy_read() -> ReadModel {
    direct_read(key_of(recent_prefix()), None)
}

/// A reply of the cache, by the bytes in it.
pub open spec fn cached_bytes(
    reply: Result<Option<Bytes>, FileCacheError>,
) -> Result<Option<Seq<u8>>, FileCacheError> {
    match reply {
        Ok(Some(body)) => Ok(Some(bytes_content(body))),
        Ok(None) => Ok(None),
        Err(e) => Err(e),
    }
}

/// A reply of the object store, by the bytes in it.
pub open spec fn fetched_bytes(
    reply: Result<Bytes, ObjectStoreError>,
) -> Result<Seq<u8>, ObjectStoreError> {
    match reply {
        Ok(body) => Ok(bytes_content(body)),
        Err(e) => Err(e),
    }
}

/// Reads a segment from its archive.
pub fn read_archive(archive: &Bytes) -> (found: Option<CanonicalChainSegment>)
    ensures
        (match found {
            Some(segment) => Some(segment@),
            None => None,
        }) == unarchived(bytes_content(*archive)),
{
    match from_archive(archive) {
        Ok(parts) => {
            let (first, last, payload) = parts;
            Some(
                CanonicalChainSegment {
                    info: SegmentInfo {
                        first_block: BlockRef { number: first },
                        last_block: BlockRef { number: last },
                    },
                    payload,
                },
            )
        },
        Err(_) => None,
    }
}

/// The answer to a read, given what its archive holds.
pub fn settle(found: Option<CanonicalChainSegment>, purpose: AfterFetch) -> (outcome: Result<
    Option<CanonicalChainSegment>,
    ChainStoreError,
>)
    ensures
        outcome_model(outcome) == answer_of(
            match found {
                Some(segment) => Some(segment@),
                None => None,
            },
            purpose,
        ),
{
    match found {
        None => Err(ChainStoreError),
        Some(segment) => match purpose {
            AfterFetch::CheckRange { first_block, last_block } => {
                if segment.info.first_block.number != first_block
                    || segment.info.last_block.number != last_block {
                    Err(ChainStoreError)
                } else {
                    Ok(Some(segment))
                }
            },
            _ => Ok(Some(segment)),
        },
    }
}

/// Takes the body out of a reply of the object store: an object that does not
/// exist is no failure, it just has no body.
pub fn get_as_bytes(reply: Result<Bytes, ObjectStoreError>) -> (body: Result<
    Option<Bytes>,
    ChainStoreError,
>)
    ensures
        body == (match reply {
            Ok(bytes) => Ok(Some(bytes)),
            Err(ObjectStoreError::NotFound) => Ok(None),
            Err(_) => Err(ChainStoreError),
        }),
{
    match reply {
        Ok(body) => Ok(Some(body)),
        Err(error) => {
            if error.is_not_found() {
                Ok(None)
            } else {
                Err(ChainStoreError)
            }
        },
    }
}

impl CacheLookup {
    /// Goes on with the reply of the cache.
    pub fn resume(self, reply: Result<Option<Bytes>, FileCacheError>) -> (step: ReadStep)
        ensures
            step@ == after_lookup(self.key@, version_text(self.version), cached_bytes(reply)),
    {
        match reply {
            Err(_) => ReadStep::Done(Err(ChainStoreError)),
            Ok(Some(body)) => ReadStep::Done(settle(read_archive(&body), AfterFetch::Return)),
            Ok(None) => ReadStep::Fetch(
                ObjectFetch {
                    key: self.key,
                    options: GetOptions { version: self.version },
                    purpose: AfterFetch::Cache,
                },
            ),
        }
    }
}

impl ObjectFetch {
    /// Goes on with the reply of the object store.
    pub fn resume(self, reply: Result<Bytes, ObjectStoreError>) -> (step: ReadStep)
        ensures
            step@ == after_fetch(self.key@, self.purpose, fetched_bytes(reply)),
    {
        match get_as_bytes(reply) {
            Ok(Some(body)) => match self.purpose {
                AfterFetch::Cache => ReadStep::Insert(CacheInsert { key: self.key, body }),
                purpose => ReadStep::Done(settle(read_archive(&body), purpose)),
            },
            Ok(None) => ReadStep::Done(Ok(None)),
            Err(error) => ReadStep::Done(Err(error)),
        }
    }
}

impl CacheInsert {
    /// Goes on with the value of the new cache entry.
    pub fn resume(self, entry: &Bytes) -> (step: ReadStep)
        ensures
            step@ == after_insert(bytes_content(*entry)),
    {
        ReadStep::Done(settle(read_archive(entry), AfterFetch::Return))
    }
}

/// A request to write an object.
#[derive(Debug)]
pub struct PutRequest {
    pub key: String,
    pub body: Bytes,
    pub options: PutOptions,
}

impl PutRequest {
    /// Whether this writes the archive of `segment` under `name`: an archive
    /// from which that segment can be read back.
    pub open spec fn stores(
        self,
        name: Seq<char>,
        segment: SegmentModel,
        options: PutOptions,
    ) -> bool {
        &&& self.key@ == key_of(name)
        &&& archived(segment.0, segment.1, segment.2) == Some(bytes_content(self.body))
        &&& unarchived(bytes_content(self.body)) == Some(segment)
        &&& self.options == options
    }

    /// What the put gives for a reply of the object store: the version of the new
    /// object, or a failure.
    pub open spec fn outcome(self, reply: Result<ObjectVersion, ObjectStoreError>) -> Result<
        ObjectVersion,
        ChainStoreError,
    > {
        match reply {
            Ok(version) => Ok(version),
            Err(_) => Err(ChainStoreError),
        }
    }

    /// Goes on with the reply of the object store: the version of the new object.
    pub fn resume(self, reply: Result<ObjectVersion, ObjectStoreError>) -> (outcome: Result<
        ObjectVersion,
        ChainStoreError,
    >)
        ensures
            outcome == self.outcome(reply),
    {
        match reply {
            Ok(version) => Ok(version),
            Err(_) => Err(ChainStoreError),
        }
    }
}

/// A request to write a snapshot of a recent segment.
#[derive(Debug)]
pub struct RecentPut {
    pub request: PutRequest,
    pub first_block: u64,
    pub last_block: u64,
}

impl RecentPut {
    /// Whether this writes `segment` as the snapshot of the given name, which
    /// must not exist yet.
    pub open spec fn stores(self, name: Seq<char>, segment: SegmentModel) -> bool {
        &&& self.request.stores(name, segment, PutOptions { mode: PutMode::Create })
        &&& self.first_block == segment.0
        &&& self.last_block == segment.1
    }

    /// What the put gives for a reply of the object store: a pointer to the
    /// snapshot, or a failure.
    pub open spec fn outcome(self, reply: Result<ObjectVersion, ObjectStoreError>) -> Result<
        RecentSegmentPointer,
        ChainStoreError,
    > {
        match reply {
            Ok(version) => Ok(
                RecentSegmentPointer {
                    key: self.request.key,
                    version: version.0,
                    first_block: self.first_block,
                    last_block: self.last_block,
                },
            ),
            Err(_) => Err(ChainStoreError),
        }
    }

    /// Goes on with the reply of the object store: a pointer to the snapshot.
    pub fn resume(self, reply: Result<ObjectVersion, ObjectStoreError>) -> (outcome: Result<
        RecentSegmentPointer,
        ChainStoreError,
    >)
        ensures
            outcome == self.outcome(reply),
    {
        match reply {
            Ok(version) => Ok(
                RecentSegmentPointer {
                    key: self.request.key,
                    version: version.0,
                    first_block: self.first_block,
                    last_block: self.last_block,
                },
            ),
            Err(_) => Err(ChainStoreError),
        }
    }
}

/// What the request to put a canonical segment is: the archive of the segment goes
/// under its name, over whatever is there; there is none where the segment cannot
/// be archived.
pub open spec fn is_canonical_put(
    request: Result<PutRequest, ChainStoreError>,
    segment: SegmentModel,
) -> bool {
    match request {
        Ok(put) => put.stores(
            segment_name(segment.0),
            segment,
            PutOptions { mode: PutMode::Overwrite },
        ),
        Err(_) => archived(segment.0, segment.1, segment.2) is None,
    }
}

/// What the request to put a snapshot is that is taken at a time and at a count:
/// the archive of the segment goes under the snapshot's name, which must not exist
/// yet; there is none where the segment cannot be archived.
pub open spec fn is_snapshot_put(
    request: Result<RecentPut, ChainStoreError>,
    segment: SegmentModel,
    timestamp_ns: u128,
    count: u64,
) -> bool {
    match request {
        Ok(put) => put.stores(
            recent_snapshot_name(segment.0, segment.1, timestamp_ns, count),
            segment,
        ),
        Err(_) => archived(segment.0, segment.1, segment.2) is None,
    }
}

/// What is wrong with a pointer to a recent snapshot, if anything.
pub fn recent_pointer_fault(pointer: &RecentSegmentPointer) -> (fault: Option<RecentPointerFault>)
    ensures
        fault == pointer_fault(
            pointer.key@,
            pointer.version@,
            pointer.first_block,
            pointer.last_block,
        ),
{
    let mut expected_prefix: String = String::new();
    expected_prefix.append("canon");
    expected_prefix.append("/");
    expected_prefix.append("recent");
    expected_prefix.append("/");
    assert(expected_prefix@ =~= recent_key_prefix());
    if !starts_with(pointer.key.as_str(), expected_prefix.as_str()) {
        Some(RecentPointerFault::OutsideRecentPrefix)
    } else if pointer.version.as_str().is_empty() {
        Some(RecentPointerFault::EmptyVersion)
    } else if pointer.first_block > pointer.last_block {
        Some(RecentPointerFault::InvalidBlockRange)
    } else {
        None
    }
}

/// Accepts a pointer whose key is that of a recent snapshot, which names a
/// version, and whose first block is not behind its last.
pub fn validate_recent_pointer(pointer: &RecentSegmentPointer) -> (valid: Result<
    (),
    ChainStoreError,
>)
    ensures
        valid == (if valid_pointer(
            pointer.key@,
            pointer.version@,
            pointer.first_block,
            pointer.last_block,
        ) {
            Ok::<(), ChainStoreError>(())
        } else {
            Err::<(), ChainStoreError>(ChainStoreError)
        }),
{
    match recent_pointer_fault(pointer) {
        Some(_) => Err(ChainStoreError),
        None => Ok(()),
    }
}

/// A store of chain segments: the handle of an object store, and that of the
/// cache in front of it.
#[derive(Clone)]
pub struct ChainStore<S, C> {
    cache: C,
    client: S,
}

impl<S, C> ChainStore<S, C> {
    /// The handle of the cache.
    pub closed spec fn spec_cache(self) -> C {
        self.cache
    }

    /// The handle of the object store.
    pub closed spec fn spec_client(self) -> S {
        self.client
    }

    /// A store on the given handles.
    pub fn new(client: S, cache: C) -> (store: Self)
        ensures
            store.spec_client() == client,
            store.spec_cache() == cache,
    {
        ChainStore { client, cache }
    }

    /// The handle of the object store.
    pub fn client(&self) -> (client: &S)
        ensures
            *client == self.spec_client(),
    {
        &self.client
    }

    /// The handle of the cache.
    pub fn cache(&self) -> (cache: &C)
        ensures
            *cache == self.spec_cache(),
    {
        &self.cache
    }

    /// Reads the canonical segment that starts at a block: from the cache, or
    /// else from the object store.
    pub fn get(&self, first_block_number: u64) -> (step: ReadStep)
        ensures
            step@ == canonical_read(first_block_number),
    {
        let filename: String = self.segment_filename(first_block_number);
        self.get_impl(filename.as_str(), None, false)
    }

    /// Writes a canonical segment, over whatever is stored under its name.
    pub fn put(&self, segment: &CanonicalChainSegment) -> (request: Result<
        PutRequest,
        ChainStoreError,
    >)
        requires
            segment.payload@.len() <= MAX_PAYLOAD,
        ensures
            is_canonical_put(request, segment@),
    {
        let filename: String = self.segment_filename(segment.info.first_block.number);
        self.put_impl(filename.as_str(), segment, PutOptions::default())
    }

    /// Writes a snapshot of a recent segment, under a name made from a reading of
    /// the clock and from the counter, which goes up by one whether or not there is
    /// anything to write. The contract leaves open which reading it is.
    pub fn put_recent_snapshot(
        &self,
        segment: &CanonicalChainSegment,
        counter: &mut u64,
    ) -> (request: Result<RecentPut, ChainStoreError>)
        requires
            segment.payload@.len() <= MAX_PAYLOAD,
        ensures
            exists|reading: SystemTime|
                is_snapshot_put(
                    request,
                    segment@,
                    #[trigger] timestamp_at(reading),
                    *old(counter),
                ),
            *final(counter) == next_count(*old(counter)),
    {
        let name: String = self.recent_snapshot_filename(segment, counter);
        self.put_recent_snapshot_as(name.as_str(), segment)
    }

    /// Writes a snapshot of a recent segment under the given name.
    pub fn put_recent_snapshot_as(&self, name: &str, segment: &CanonicalChainSegment) -> (request:
        Result<RecentPut, ChainStoreError>)
        requires
            segment.payload@.len() <= MAX_PAYLOAD,
        ensures
            match request {
                Ok(put) => put.stores(name@, segment@),
                Err(_) => archived(segment@.0, segment@.1, segment@.2) is None,
            },
    {
        match self.put_impl(name, segment, PutOptions { mode: PutMode::Create }) {
            Ok(request) => Ok(
                RecentPut {
                    request,
                    first_block: segment.info.first_block.number,
                    last_block: segment.info.last_block.number,
                },
            ),
            Err(error) => Err(error),
        }
    }

    /// Reads the snapshot that a pointer points to, past the cache. A pointer
    /// that makes no sense is refused without asking.
    pub fn get_recent_snapshot(&self, pointer: &RecentSegmentPointer) -> (step: ReadStep)
        ensures
            step@ == recent_read(
                pointer.key@,
                pointer.version@,
                pointer.first_block,
                pointer.last_block,
            ),
    {
        match validate_recent_pointer(pointer) {
            Err(error) => ReadStep::Done(Err(error)),
            Ok(_) => {
                let fetch: ObjectFetch = self.get_by_key(
                    pointer.key.as_str(),
                    Some(ObjectVersion(pointer.version.clone())),
                );
                ReadStep::Fetch(
                    ObjectFetch {
                        key: fetch.key,
                        options: fetch.options,
                        purpose: AfterFetch::CheckRange {
                            first_block: pointer.first_block,
                            last_block: pointer.last_block,
                        },
                    },
                )
            },
        }
    }

    /// Reads the recent segment from where it used to be kept, past the cache.
    pub fn get_legacy_recent(&self) -> (step: ReadStep)
        ensures
            step@ == legacy_read(),
    {
        self.get_impl("recent", None, true)
    }

    /// Asks for the archive of `segment` to be written under `name`.
    fn put_impl(&self, name: &str, segment: &CanonicalChainSegment, options: PutOptions) -> (request:
        Result<PutRequest, ChainStoreError>)
        requires
            segment.payload@.len() <= MAX_PAYLOAD,
        ensures
            match request {
                Ok(put) => put.stores(name@, segment@, options),
                Err(_) => archived(segment@.0, segment@.1, segment@.2) is None,
            },
    {
        match to_archive(
            segment.info.first_block.number,
            segment.info.last_block.number,
            &segment.payload,
        ) {
            Ok(serialized) => self.put_archive(name, Some(serialized), options),
            Err(_) => self.put_archive(name, None, options),
        }
    }

    /// Asks for an archive to be written under `name`; without an archive there
    /// is nothing to ask for.
    pub fn put_archive(&self, name: &str, archive: Option<Vec<u8>>, options: PutOptions) -> (request:
        Result<PutRequest, ChainStoreError>)
        ensures
            match archive {
                Some(serialized) => request matches Ok(put) && put.key@ == key_of(name@)
                    && bytes_content(put.body) == serialized@ && put.options == options,
                None => request is Err,
            },
    {
        match archive {
            Some(serialized) => Ok(
                PutRequest {
                    key: self.format_key(name),
                    body: Bytes::copy_from_slice(serialized.as_slice()),
                    options,
                },
            ),
            None => Err(ChainStoreError),
        }
    }

    /// Starts to read the object with the given name.
    pub fn get_impl(&self, name: &str, version: Option<ObjectVersion>, skip_cache: bool) -> (step:
        ReadStep)
        ensures
            step@ == named_read(name@, version_text(version), skip_cache),
    {
        let key: String = self.format_key(name);
        if skip_cache {
            ReadStep::Fetch(
                ObjectFetch { key, options: GetOptions { version }, purpose: AfterFetch::Return },
            )
        } else {
            ReadStep::LookUp(CacheLookup { key, version })
        }
    }

    /// Starts to read the object with the given key, past the cache.
    pub fn get_by_key(&self, key: &str, version: Option<ObjectVersion>) -> (fetch: ObjectFetch)
        ensures
            ReadStep::Fetch(fetch)@ == direct_read(key@, version_text(version)),
    {
        ObjectFetch {
            key: key.to_owned(),
            options: GetOptions { version },
            purpose: AfterFetch::Return,
        }
    }

    /// The key of the object with the given name.
    pub fn format_key(&self, key: &str) -> (full: String)
        ensures
            full@ == key_of(key@),
    {
        let mut full: String = String::new();
        full.append("canon");
        full.append("/");
        full.append(key);
        assert(full@ =~= key_of(key@));
        full
    }

    /// The name of the canonical segment that starts at `first_block`.
    pub fn segment_filename(&self, first_block: u64) -> (name: String)
        ensures
            name@ == segment_name(first_block),
    {
        let mut name: String = String::new();
        name.append("z-");
        push_padded(&mut name, first_block as u128, 10);
        assert(name@ =~= segment_name(first_block));
        name
    }

    /// The name of a snapshot of `segment` that is taken now: the time is that of
    /// a reading of the clock, the count is where the counter stands, which goes up
    /// by one. The contract leaves open which reading of the clock it is.
    pub fn recent_snapshot_filename(
        &self,
        segment: &CanonicalChainSegment,
        counter: &mut u64,
    ) -> (name: String)
        ensures
            exists|reading: SystemTime|
                name@ == recent_snapshot_name(
                    segment@.0,
                    segment@.1,
                    #[trigger] timestamp_at(reading),
                    *old(counter),
                ),
            *final(counter) == next_count(*old(counter)),
    {
        let timestamp_ns: u128 = unix_time_ns();
        let count: u64 = *counter;
        *counter = count.wrapping_add(1);
        self.recent_snapshot_filename_at(segment, timestamp_ns, count)
    }

    /// The name of a snapshot of `segment` taken `timestamp_ns` nanoseconds after
    /// the epoch. The counter tells apart snapshots of one moment; only its last
    /// six digits go into the name.
    pub fn recent_snapshot_filename_at(
        &self,
        segment: &CanonicalChainSegment,
        timestamp_ns: u128,
        count: u64,
    ) -> (name: String)
        ensures
            name@ == recent_snapshot_name(segment@.0, segment@.1, timestamp_ns, count),
    {
        let mut name: String = String::new();
        name.append("recent");
        name.append("/z-");
        push_padded(&mut name, segment.info.first_block.number as u128, 10);
        name.append("-");
        push_padded(&mut name, segment.info.last_block.number as u128, 10);
        name.append("-");
        push_padded(&mut name, timestamp_ns, 20);
        name.append("-");
        push_padded(&mut name, (count % SNAPSHOT_COUNTER_LIMIT) as u128, 6);
        assert(name@ =~= recent_snapshot_name(segment@.0, segment@.1, timestamp_ns, count));
        name
    }
}

} // verus!
