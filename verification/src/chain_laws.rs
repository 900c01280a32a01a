//! What holds of a chain store as a whole: what a read gives back of a write,
//! which names are distinct, and what the cache has a part in.

use std::time::{Duration, SystemTime};

use bytes::Bytes;
use vstd::prelude::*;

use crate::archive::{archived, unarchived};
use crate::buffer::bytes_content;
use crate::chain_store::{
    after_fetch, after_insert, after_lookup, cached_bytes, canonical_read, direct_read,
    fetched_bytes, is_canonical_put, is_snapshot_put, legacy_read, named_read, pointer_fault, recent_read, valid_pointer, AfterFetch,
    CacheInsert, CacheLookup, CanonicalChainSegment, ChainStoreError, FileCacheError, ObjectFetch,
    PutRequest, ReadModel, ReadStep, RecentPointerFault, RecentPut, SegmentModel,
};
use crate::clock::{
    after_epoch, law_time_is_nanoseconds_since_the_epoch, nanos_in, timestamp_at,
};
use crate::names::{
    key_of, law_key_is_prefix_and_name, law_legacy_key_is_its_own, law_other_keys_are_not_recent,
    law_recent_keys_are_these, law_segment_keys_distinct, law_snapshot_keys_are_recent,
    law_snapshot_keys_distinct, recent_snapshot_name, segment_name,
};
use crate::object_store::{GetOptions, ObjectStoreError, ObjectVersion, PutMode, PutOptions};

verus! {

/// The objects of a store: under each key a version and a body.
pub type Objects = Map<Seq<char>, (Seq<char>, Seq<u8>)>;

/// The entries of a cache.
pub type CacheEntries = Map<Seq<char>, Seq<u8>>;

/// What an object store replies that works and holds `objects`.
pub open spec fn store_reply(
    objects: Objects,
    key: Seq<char>,
    version: Option<Seq<char>>,
) -> Result<Seq<u8>, ObjectStoreError> {
    if !objects.contains_key(key) {
        Err(ObjectStoreError::NotFound)
    } else {
        match version {
            Some(v) if v != objects[key].0 => Err(ObjectStoreError::Precondition),
            _ => Ok(objects[key].1),
        }
    }
}

/// What an object store replies to a write that works and holds `objects`, and
/// what it holds then. `version` is the version that a new object gets.
pub open spec fn store_write(objects: Objects, put: PutRequest, version: Seq<char>) -> (
    Result<Seq<char>, ObjectStoreError>,
    Objects,
) {
    let exists = objects.contains_key(put.key@);
    let allowed = match put.options.mode {
        PutMode::Overwrite => true,
        PutMode::Create => !exists,
        PutMode::Update(wanted) => exists && objects[put.key@].0 == wanted@,
    };
    if allowed {
        (Ok(version), objects.insert(put.key@, (version, bytes_content(put.body))))
    } else {
        (Err(ObjectStoreError::Precondition), objects)
    }
}

/// What a cache replies that works and holds `entries`.
pub open spec fn cache_reply(entries: CacheEntries, key: Seq<char>) -> Option<Seq<u8>> {
    if entries.contains_key(key) {
        Some(entries[key])
    } else {
        None
    }
}

/// How many more steps a read can take.
pub open spec fn steps_left(step: ReadModel) -> nat {
    match step {
        ReadModel::LookUp { .. } => 3,
        ReadModel::Fetch { .. } => 2,
        ReadModel::Insert { .. } => 1,
        ReadModel::Done(_) => 0,
    }
}

/// The answer to a read that is driven to its end against a cache and an object
/// store that both work, and what the cache holds then.
pub open spec fn run(step: ReadModel, entries: CacheEntries, objects: Objects) -> (
    Result<Option<SegmentModel>, ChainStoreError>,
    CacheEntries,
)
    decreases steps_left(step),
{
    match step {
        ReadModel::LookUp { key, version } => run(
            after_lookup(key, version, Ok(cache_reply(entries, key))),
            entries,
            objects,
        ),
        ReadModel::Fetch { key, version, purpose } => run(
            after_fetch(key, purpose, store_reply(objects, key, version)),
            entries,
            objects,
        ),
        ReadModel::Insert { key, body } => run(
            after_insert(body),
            entries.insert(key, body),
            objects,
        ),
        ReadModel::Done(outcome) => (outcome, entries),
    }
}

/// Reading a canonical segment gives back the segment that was put, unless the
/// cache still holds something else under its key: a write leaves the cache as
/// it is.
pub proof fn law_get_gives_back_put(
    segment: SegmentModel,
    put: PutRequest,
    version: Seq<char>,
    entries: CacheEntries,
    objects: Objects,
)
    requires
        put.stores(segment_name(segment.0), segment, PutOptions { mode: PutMode::Overwrite }),
        entries.contains_key(put.key@) ==> entries[put.key@] == bytes_content(put.body),
    ensures
        ({
            let (reply, written) = store_write(objects, put, version);
            let (answer, after) = run(canonical_read(segment.0), entries, written);
            &&& reply == Ok::<Seq<char>, ObjectStoreError>(version)
            &&& answer == Ok::<Option<SegmentModel>, ChainStoreError>(Some(segment))
            &&& after == entries.insert(put.key@, bytes_content(put.body))
        }),
{
    reveal_with_fuel(run, 4);
    assert(entries.contains_key(put.key@) ==> entries.insert(put.key@, bytes_content(put.body))
        =~= entries);
}

/// Writing a canonical segment changes no other read: not that of a canonical
/// segment that starts elsewhere, not that of a snapshot, not that of the recent
/// segment where it used to be kept.
pub proof fn law_put_leaves_other_reads(
    segment: SegmentModel,
    put: PutRequest,
    version: Seq<char>,
    entries: CacheEntries,
    objects: Objects,
    other_block: u64,
    pointer_key: Seq<char>,
    pointer_version: Seq<char>,
    first_block: u64,
    last_block: u64,
)
    requires
        put.stores(segment_name(segment.0), segment, PutOptions { mode: PutMode::Overwrite }),
        other_block != segment.0,
    ensures
        ({
            let written = store_write(objects, put, version).1;
            let recent = recent_read(pointer_key, pointer_version, first_block, last_block);
            &&& run(canonical_read(other_block), entries, written) == run(
                canonical_read(other_block),
                entries,
                objects,
            )
            &&& run(recent, entries, written) == run(recent, entries, objects)
            &&& run(legacy_read(), entries, written) == run(legacy_read(), entries, objects)
        }),
{
    law_segment_keys_distinct(segment.0, other_block);
    law_other_keys_are_not_recent(segment.0);
    law_legacy_key_is_its_own(segment.0);
    reveal_with_fuel(run, 4);
}

/// Writing a snapshot never replaces an object: what was stored stays as it was.
/// Where the key is taken, the write fails.
pub proof fn law_snapshot_replaces_nothing(
    segment: SegmentModel,
    name: Seq<char>,
    put: RecentPut,
    version: Seq<char>,
    objects: Objects,
    key: Seq<char>,
)
    requires
        put.stores(name, segment),
        objects.contains_key(key),
    ensures
        ({
            let (reply, written) = store_write(objects, put.request, version);
            &&& written.contains_key(key)
            &&& written[key] == objects[key]
            &&& key == put.request.key@ ==> reply is Err
        }),
{
}

/// Writing a snapshot changes no other read: not that of a canonical segment, not
/// that of a snapshot with another key, not that of the recent segment where it
/// used to be kept.
pub proof fn law_snapshot_leaves_other_reads(
    segment: SegmentModel,
    timestamp_ns: u128,
    count: u64,
    put: RecentPut,
    version: Seq<char>,
    entries: CacheEntries,
    objects: Objects,
    block: u64,
    pointer_key: Seq<char>,
    pointer_version: Seq<char>,
    first_block: u64,
    last_block: u64,
)
    requires
        put.stores(recent_snapshot_name(segment.0, segment.1, timestamp_ns, count), segment),
        pointer_key != put.request.key@,
    ensures
        ({
            let written = store_write(objects, put.request, version).1;
            let recent = recent_read(pointer_key, pointer_version, first_block, last_block);
            &&& run(canonical_read(block), entries, written) == run(
                canonical_read(block),
                entries,
                objects,
            )
            &&& run(recent, entries, written) == run(recent, entries, objects)
            &&& run(legacy_read(), entries, written) == run(legacy_read(), entries, objects)
        }),
{
    law_snapshot_keys_are_recent(segment.0, segment.1, timestamp_ns, count);
    law_other_keys_are_not_recent(block);
    reveal_with_fuel(run, 4);
}

/// Once a canonical segment has been read, reading it again gives the same
/// answer out of the cache, whatever becomes of the object store.
pub proof fn law_get_repeats_from_cache(
    first_block: u64,
    entries: CacheEntries,
    objects: Objects,
    later: Objects,
)
    ensures
        ({
            let (answer, after) = run(canonical_read(first_block), entries, objects);
            (answer matches Ok(Some(_))) ==> run(canonical_read(first_block), after, later) == (
                answer,
                after,
            )
        }),
{
    reveal_with_fuel(run, 4);
}

/// A body that holds no segment fails the read that fetched it, yet stays in the
/// cache. From then on every read of that name through the cache fails at the
/// look-up, whatever version it wants and whatever becomes of the object store.
pub proof fn law_get_keeps_failing_from_cache(
    name: Seq<char>,
    version: Option<Seq<char>>,
    body: Seq<u8>,
    entries: CacheEntries,
    objects: Objects,
    later_version: Option<Seq<char>>,
    later: Objects,
)
    requires
        !entries.contains_key(key_of(name)),
        store_reply(objects, key_of(name), version) == Ok::<Seq<u8>, ObjectStoreError>(body),
        unarchived(body) is None,
    ensures
        ({
            let (answer, after) = run(named_read(name, version, false), entries, objects);
            let cached: Result<Option<Seq<u8>>, FileCacheError> = Ok(
                cache_reply(after, key_of(name)),
            );
            &&& answer == Err::<Option<SegmentModel>, ChainStoreError>(ChainStoreError)
            &&& after == entries.insert(key_of(name), body)
            &&& after_lookup(key_of(name), later_version, cached) == ReadModel::Done(
                Err::<Option<SegmentModel>, ChainStoreError>(ChainStoreError),
            )
            &&& run(named_read(name, later_version, false), after, later) == (answer, after)
        }),
{
    reveal_with_fuel(run, 4);
}

/// A segment that is neither in the cache nor in the object store is not found,
/// and leaves no trace in the cache.
pub proof fn law_get_of_nothing(first_block: u64, entries: CacheEntries, objects: Objects)
    requires
        !entries.contains_key(key_of(segment_name(first_block))),
        !objects.contains_key(key_of(segment_name(first_block))),
    ensures
        run(canonical_read(first_block), entries, objects) == (
            Ok::<Option<SegmentModel>, ChainStoreError>(None),
            entries,
        ),
{
    reveal_with_fuel(run, 4);
}

/// A fetch that is not for the cache passes it: whatever the object store
/// replies, the read is done then; and it gives one answer whatever the cache
/// holds, and leaves the cache as it is.
pub proof fn law_direct_fetches_pass_the_cache(
    key: Seq<char>,
    version: Option<Seq<char>>,
    purpose: AfterFetch,
    reply: Result<Seq<u8>, ObjectStoreError>,
    entries: CacheEntries,
    others: CacheEntries,
    objects: Objects,
)
    requires
        purpose != AfterFetch::Cache,
    ensures
        after_fetch(key, purpose, reply) is Done,
        ({
            let read = ReadModel::Fetch { key, version, purpose };
            &&& run(read, entries, objects).1 == entries
            &&& run(read, entries, objects).0 == run(read, others, objects).0
        }),
{
    reveal_with_fuel(run, 4);
}

/// Past the cache, reading an object by its name is reading it by its key: the
/// key of a name is the whole key, and nothing is put in front of it again.
pub proof fn law_name_and_key_read_alike(
    name: Seq<char>,
    version: Option<Seq<char>>,
    entries: CacheEntries,
    objects: Objects,
)
    ensures
        named_read(name, version, true) == direct_read(key_of(name), version),
        run(named_read(name, version, true), entries, objects) == run(
            direct_read(key_of(name), version),
            entries,
            objects,
        ),
{
}

/// Only canonical reads use the cache: the others give one answer whatever the
/// cache holds, and leave it as it is.
pub proof fn law_recent_reads_pass_the_cache(
    key: Seq<char>,
    version: Seq<char>,
    first_block: u64,
    last_block: u64,
    entries: CacheEntries,
    others: CacheEntries,
    objects: Objects,
)
    ensures
        ({
            let read = recent_read(key, version, first_block, last_block);
            run(read, entries, objects).1 == entries && run(read, entries, objects).0 == run(
                read,
                others,
                objects,
            ).0
        }),
        run(legacy_read(), entries, objects).1 == entries,
        run(legacy_read(), entries, objects).0 == run(legacy_read(), others, objects).0,
{
    reveal_with_fuel(run, 4);
}

/// Following the pointer to a snapshot that was written gives back the segment
/// that was put, where the segment's blocks are in order and the object store
/// gave the snapshot a version.
pub proof fn law_recent_snapshot_gives_back_put(
    segment: SegmentModel,
    timestamp_ns: u128,
    count: u64,
    put: RecentPut,
    version: Seq<char>,
    entries: CacheEntries,
    objects: Objects,
)
    requires
        put.stores(recent_snapshot_name(segment.0, segment.1, timestamp_ns, count), segment),
        segment.0 <= segment.1,
        version.len() > 0,
    ensures
        valid_pointer(put.request.key@, version, put.first_block, put.last_block),
        !objects.contains_key(put.request.key@) ==> ({
            let (reply, written) = store_write(objects, put.request, version);
            &&& reply == Ok::<Seq<char>, ObjectStoreError>(version)
            &&& run(
                recent_read(put.request.key@, version, put.first_block, put.last_block),
                entries,
                written,
            ) == (Ok::<Option<SegmentModel>, ChainStoreError>(Some(segment)), entries)
        }),
{
    law_snapshot_keys_are_recent(segment.0, segment.1, timestamp_ns, count);
    reveal_with_fuel(run, 4);
}

/// A pointer makes sense where nothing is found wrong with it.
pub proof fn law_valid_pointers_have_no_fault(
    key: Seq<char>,
    version: Seq<char>,
    first_block: u64,
    last_block: u64,
)
    ensures
        valid_pointer(key, version, first_block, last_block) <==> pointer_fault(
            key,
            version,
            first_block,
            last_block,
        ) is None,
{
}

/// A read through a pointer never answers with a segment that covers other
/// blocks than the pointer says.
pub proof fn law_recent_read_covers_pointer(
    key: Seq<char>,
    version: Seq<char>,
    first_block: u64,
    last_block: u64,
    entries: CacheEntries,
    objects: Objects,
)
    ensures
        run(recent_read(key, version, first_block, last_block), entries, objects).0 matches Ok(
            Some(segment),
        ) ==> segment.0 == first_block && segment.1 == last_block && first_block <= last_block,
{
    reveal_with_fuel(run, 4);
}

/// What the body of an object says to a reader: the segment that it is the archive
/// of, or nothing that could be read.
pub open spec fn reading_of(body: Seq<u8>) -> Result<Option<SegmentModel>, ChainStoreError> {
    match unarchived(body) {
        Some(segment) => Ok(Some(segment)),
        None => Err(ChainStoreError),
    }
}

/// A read through the cache answers with what the cache holds under `canon/` and
/// the name. Where it holds nothing, it answers with what the object store holds
/// there, and that goes into the cache.
pub proof fn law_read_through_the_cache(
    name: Seq<char>,
    version: Option<Seq<char>>,
    entries: CacheEntries,
    objects: Objects,
)
    ensures
        ({
            let key = "canon/"@ + name;
            run(named_read(name, version, false), entries, objects) == if entries.contains_key(
                key,
            ) {
                (reading_of(entries[key]), entries)
            } else {
                match store_reply(objects, key, version) {
                    Ok(body) => (reading_of(body), entries.insert(key, body)),
                    Err(ObjectStoreError::NotFound) => (Ok(None), entries),
                    Err(_) => (Err(ChainStoreError), entries),
                }
            }
        }),
{
    law_key_is_prefix_and_name(name);
    assert(key_of(name) =~= key_of(name).take(6) + key_of(name).skip(6));
    reveal_with_fuel(run, 4);
}

/// A read past the cache answers with what the object store holds under the key,
/// in the version that is wanted, if one is.
pub proof fn law_read_past_the_cache(
    key: Seq<char>,
    version: Option<Seq<char>>,
    entries: CacheEntries,
    objects: Objects,
)
    ensures
        run(direct_read(key, version), entries, objects) == (
            match store_reply(objects, key, version) {
                Ok(body) => reading_of(body),
                Err(ObjectStoreError::NotFound) => Ok(None),
                Err(_) => Err(ChainStoreError),
            },
            entries,
        ),
{
    reveal_with_fuel(run, 4);
}

/// A read past the cache gives back the segment that is stored, under every key
/// and in whatever version it has.
pub proof fn law_direct_read_gives_back_what_is_stored(
    key: Seq<char>,
    version: Option<Seq<char>>,
    segment: SegmentModel,
    entries: CacheEntries,
    objects: Objects,
)
    requires
        objects.contains_key(key),
        version is None || version == Some(objects[key].0),
        unarchived(objects[key].1) == Some(segment),
    ensures
        run(direct_read(key, version), entries, objects) == (
            Ok::<Option<SegmentModel>, ChainStoreError>(Some(segment)),
            entries,
        ),
{
    reveal_with_fuel(run, 4);
}

/// Reading the recent segment from where it used to be kept gives back what is
/// stored under `canon/recent`, whatever the cache holds; nothing, where nothing
/// is stored there.
pub proof fn law_legacy_read_gives_back_what_is_stored(entries: CacheEntries, objects: Objects)
    ensures
        run(legacy_read(), entries, objects) == (
            if objects.contains_key("canon/recent"@) {
                reading_of(objects["canon/recent"@].1)
            } else {
                Ok(None)
            },
            entries,
        ),
{
    law_recent_keys_are_these();
    reveal_with_fuel(run, 4);
}

/// Reading a canonical segment gives back what is stored under its key, where the
/// cache holds nothing there: any segment at all, and nothing where nothing is
/// stored.
pub proof fn law_get_gives_back_what_is_stored(
    first_block: u64,
    entries: CacheEntries,
    objects: Objects,
)
    requires
        !entries.contains_key(key_of(segment_name(first_block))),
    ensures
        run(canonical_read(first_block), entries, objects).0 == if objects.contains_key(
            key_of(segment_name(first_block)),
        ) {
            reading_of(objects[key_of(segment_name(first_block))].1)
        } else {
            Ok(None)
        },
{
    reveal_with_fuel(run, 4);
}

/// A read through a pointer is refused where the key does not start with
/// `canon/recent/`, where no version is named, or where the first block is behind
/// the last. Any other gives back the segment that is stored under the key in that
/// version, if it covers exactly the blocks that the pointer says.
pub proof fn law_read_through_a_pointer(
    key: Seq<char>,
    version: Seq<char>,
    first_block: u64,
    last_block: u64,
    entries: CacheEntries,
    objects: Objects,
)
    ensures
        run(recent_read(key, version, first_block, last_block), entries, objects) == (
            if !"canon/recent/"@.is_prefix_of(key) || version.len() == 0 || first_block
                > last_block {
                Err(ChainStoreError)
            } else if !objects.contains_key(key) {
                Ok(None)
            } else if objects[key].0 != version {
                Err(ChainStoreError)
            } else {
                match unarchived(objects[key].1) {
                    Some(segment) => if segment.0 == first_block && segment.1 == last_block {
                        Ok(Some(segment))
                    } else {
                        Err(ChainStoreError)
                    },
                    None => Err(ChainStoreError),
                }
            },
            entries,
        ),
{
    law_recent_keys_are_these();
    reveal_with_fuel(run, 4);
}

/// Each fault of a pointer comes exactly where it should: a key that does not
/// start with `canon/recent/`, else an empty version, else a first block behind
/// the last.
pub proof fn law_faults_come_where_they_should(
    key: Seq<char>,
    version: Seq<char>,
    first_block: u64,
    last_block: u64,
)
    ensures
        ({
            let fault = pointer_fault(key, version, first_block, last_block);
            let recent = "canon/recent/"@.is_prefix_of(key);
            &&& fault == Some(RecentPointerFault::OutsideRecentPrefix) <==> !recent
            &&& fault == Some(RecentPointerFault::EmptyVersion) <==> recent && version.len() == 0
            &&& fault == Some(RecentPointerFault::InvalidBlockRange) <==> recent && version.len()
                > 0 && first_block > last_block
        }),
        valid_pointer(key, version, first_block, last_block) <==> "canon/recent/"@.is_prefix_of(key)
            && version.len() > 0 && first_block <= last_block,
{
    law_recent_keys_are_these();
}

/// A cache that fails fails the read. An object store that fails does too, unless
/// all it says is that there is no such object.
pub proof fn law_reads_fail_with_what_they_ask(
    key: Seq<char>,
    version: Option<Seq<char>>,
    purpose: AfterFetch,
    fault: FileCacheError,
    error: ObjectStoreError,
)
    ensures
        after_lookup(key, version, Err(fault)) == ReadModel::Done(
            Err::<Option<SegmentModel>, ChainStoreError>(ChainStoreError),
        ),
        error != ObjectStoreError::NotFound ==> after_fetch(key, purpose, Err(error))
            == ReadModel::Done(Err::<Option<SegmentModel>, ChainStoreError>(ChainStoreError)),
        error == ObjectStoreError::NotFound ==> after_fetch(key, purpose, Err(error))
            == ReadModel::Done(Ok::<Option<SegmentModel>, ChainStoreError>(None)),
{
}

/// A segment that can be archived can be put, whatever the object store holds: the
/// write succeeds, the put gives the version that the object store gave, and a
/// read whose cache holds nothing under the key gives the segment back.
pub proof fn law_put_always_succeeds(
    segment: SegmentModel,
    request: Result<PutRequest, ChainStoreError>,
    version: ObjectVersion,
    entries: CacheEntries,
    objects: Objects,
)
    requires
        is_canonical_put(request, segment),
        archived(segment.0, segment.1, segment.2) is Some,
        !entries.contains_key(key_of(segment_name(segment.0))),
    ensures
        request is Ok,
        ({
            let put = request->Ok_0;
            let (reply, written) = store_write(objects, put, version@);
            &&& reply == Ok::<Seq<char>, ObjectStoreError>(version@)
            &&& put.outcome(Ok(version)) == Ok::<ObjectVersion, ChainStoreError>(version)
            &&& run(canonical_read(segment.0), entries, written).0 == Ok::<
                Option<SegmentModel>,
                ChainStoreError,
            >(Some(segment))
        }),
{
    reveal_with_fuel(run, 4);
}

/// A write that fails fails the put, of a canonical segment as of a snapshot. A
/// segment that cannot be archived is not written at all.
pub proof fn law_put_fails_with_its_write(
    segment: SegmentModel,
    put: PutRequest,
    recent: RecentPut,
    error: ObjectStoreError,
    request: Result<PutRequest, ChainStoreError>,
    snapshot: Result<RecentPut, ChainStoreError>,
    timestamp_ns: u128,
    count: u64,
)
    requires
        is_canonical_put(request, segment),
        is_snapshot_put(snapshot, segment, timestamp_ns, count),
    ensures
        put.outcome(Err(error)) is Err,
        recent.outcome(Err(error)) is Err,
        archived(segment.0, segment.1, segment.2) is None <==> request is Err,
        archived(segment.0, segment.1, segment.2) is None <==> snapshot is Err,
{
}

/// The pointer that putting a snapshot gives leads to the snapshot: it names the
/// key that was written, the version that the object store gave and the blocks of
/// the segment, and reading through it gives the segment back.
pub proof fn law_pointer_leads_to_the_snapshot(
    segment: SegmentModel,
    timestamp_ns: u128,
    count: u64,
    request: Result<RecentPut, ChainStoreError>,
    version: ObjectVersion,
    entries: CacheEntries,
    objects: Objects,
)
    requires
        is_snapshot_put(request, segment, timestamp_ns, count),
        archived(segment.0, segment.1, segment.2) is Some,
        segment.0 <= segment.1,
        version@.len() > 0,
        !objects.contains_key(
            key_of(recent_snapshot_name(segment.0, segment.1, timestamp_ns, count)),
        ),
    ensures
        request is Ok,
        ({
            let put = request->Ok_0;
            let (reply, written) = store_write(objects, put.request, version@);
            &&& reply == Ok::<Seq<char>, ObjectStoreError>(version@)
            &&& put.outcome(Ok(version)) is Ok
            &&& ({
                let pointer = put.outcome(Ok(version))->Ok_0;
                &&& pointer.key@ == key_of(
                    recent_snapshot_name(segment.0, segment.1, timestamp_ns, count),
                )
                &&& pointer.version@ == version@
                &&& pointer.first_block == segment.0
                &&& pointer.last_block == segment.1
                &&& run(
                    recent_read(
                        pointer.key@,
                        pointer.version@,
                        pointer.first_block,
                        pointer.last_block,
                    ),
                    entries,
                    written,
                ) == (Ok::<Option<SegmentModel>, ChainStoreError>(Some(segment)), entries)
            })
        }),
{
    law_snapshot_keys_are_recent(segment.0, segment.1, timestamp_ns, count);
    reveal_with_fuel(run, 4);
}

/// Snapshots of one segment that are taken at different times have different keys,
/// even at one count, as when the counter has started again: both can be created,
/// one after the other.
pub proof fn law_snapshots_at_different_times_are_both_kept(
    segment: SegmentModel,
    count: u64,
    reading_a: SystemTime,
    reading_b: SystemTime,
    after_a: Duration,
    after_b: Duration,
    a: RecentPut,
    b: RecentPut,
    version_a: Seq<char>,
    version_b: Seq<char>,
    objects: Objects,
)
    requires
        after_epoch(reading_a) == Some(after_a),
        after_epoch(reading_b) == Some(after_b),
        nanos_in(after_a) != nanos_in(after_b),
        is_snapshot_put(
            Ok::<RecentPut, ChainStoreError>(a),
            segment,
            timestamp_at(reading_a),
            count,
        ),
        is_snapshot_put(
            Ok::<RecentPut, ChainStoreError>(b),
            segment,
            timestamp_at(reading_b),
            count,
        ),
        !objects.contains_key(a.request.key@),
        !objects.contains_key(b.request.key@),
    ensures
        a.request.key@ != b.request.key@,
        ({
            let (reply_a, between) = store_write(objects, a.request, version_a);
            let (reply_b, after) = store_write(between, b.request, version_b);
            &&& reply_a == Ok::<Seq<char>, ObjectStoreError>(version_a)
            &&& reply_b == Ok::<Seq<char>, ObjectStoreError>(version_b)
            &&& after.contains_key(a.request.key@)
            &&& after[a.request.key@] == (version_a, bytes_content(a.request.body))
        }),
{
    law_time_is_nanoseconds_since_the_epoch(reading_a, reading_b, after_a, after_b);
    law_snapshot_keys_distinct(
        segment.0,
        segment.1,
        timestamp_at(reading_a),
        count,
        segment.0,
        segment.1,
        timestamp_at(reading_b),
        count,
    );
}

/// What is said of the steps of a read is said of what they ask for: the key, the
/// version, the body, and the blocks and the payload of the segment.
pub proof fn law_steps_are_what_they_ask_for(
    key: String,
    version: ObjectVersion,
    purpose: AfterFetch,
    body: Bytes,
    segment: CanonicalChainSegment,
)
    ensures
        ReadStep::LookUp(CacheLookup { key, version: Some(version) })@ == (ReadModel::LookUp {
            key: key@,
            version: Some(version.0@),
        }),
        ReadStep::LookUp(CacheLookup { key, version: None })@ == (ReadModel::LookUp {
            key: key@,
            version: None,
        }),
        ReadStep::Fetch(
            ObjectFetch { key, options: GetOptions { version: Some(version) }, purpose },
        )@ == (ReadModel::Fetch { key: key@, version: Some(version.0@), purpose }),
        ReadStep::Fetch(ObjectFetch { key, options: GetOptions { version: None }, purpose })@ == (
        ReadModel::Fetch { key: key@, version: None, purpose }),
        ReadStep::Insert(CacheInsert { key, body })@ == (ReadModel::Insert {
            key: key@,
            body: bytes_content(body),
        }),
        ReadStep::Done(Ok(Some(segment)))@ == ReadModel::Done(
            Ok::<Option<SegmentModel>, ChainStoreError>(
                Some(
                    (
                        segment.info.first_block.number,
                        segment.info.last_block.number,
                        segment.payload@,
                    ),
                ),
            ),
        ),
        ReadStep::Done(Ok(None))@ == ReadModel::Done(
            Ok::<Option<SegmentModel>, ChainStoreError>(None),
        ),
        ReadStep::Done(Err(ChainStoreError))@ == ReadModel::Done(
            Err::<Option<SegmentModel>, ChainStoreError>(ChainStoreError),
        ),
        cached_bytes(Ok(Some(body))) == Ok::<Option<Seq<u8>>, FileCacheError>(
            Some(bytes_content(body)),
        ),
        cached_bytes(Ok(None)) == Ok::<Option<Seq<u8>>, FileCacheError>(None),
        fetched_bytes(Ok(body)) == Ok::<Seq<u8>, ObjectStoreError>(bytes_content(body)),
{
}

} // verus!
