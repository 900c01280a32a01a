use std::collections::HashMap;

use apibara_dna::archive::MAX_PAYLOAD;
use apibara_dna::chain_store::{
    get_as_bytes, read_archive, recent_pointer_fault, settle, validate_recent_pointer, AfterFetch,
    BlockRef, CanonicalChainSegment, ChainStore, ChainStoreError, FileCacheError, PutRequest,
    ReadStep, RecentPointerFault, RecentSegmentPointer, SegmentInfo,
};
use apibara_dna::clock::timestamp_of;
use apibara_dna::object_store::{ObjectStoreError, ObjectVersion, PutMode, PutOptions};
use bytes::Bytes;

type Store = ChainStore<&'static str, &'static str>;

fn store() -> Store {
    ChainStore::new("objects", "cache")
}

fn segment(first: u64, last: u64, payload: &[u8]) -> CanonicalChainSegment {
    CanonicalChainSegment {
        info: SegmentInfo {
            first_block: BlockRef { number: first },
            last_block: BlockRef { number: last },
        },
        payload: payload.to_vec(),
    }
}

fn pointer(key: &str, version: &str, first: u64, last: u64) -> RecentSegmentPointer {
    RecentSegmentPointer {
        key: key.to_string(),
        version: version.to_string(),
        first_block: first,
        last_block: last,
    }
}

/// Drives a read against a cache and an object store that both work.
fn run(
    step: ReadStep,
    cache: &mut HashMap<String, Bytes>,
    objects: &HashMap<String, (String, Bytes)>,
) -> Result<Option<CanonicalChainSegment>, ChainStoreError> {
    let mut step = step;
    loop {
        step = match step {
            ReadStep::LookUp(lookup) => {
                let reply = cache.get(&lookup.key).cloned();
                lookup.resume(Ok(reply))
            }
            ReadStep::Fetch(fetch) => {
                let reply = match objects.get(&fetch.key) {
                    None => Err(ObjectStoreError::NotFound),
                    Some((version, body)) => match &fetch.options.version {
                        Some(wanted) if wanted.0 != *version => Err(ObjectStoreError::Precondition),
                        _ => Ok(body.clone()),
                    },
                };
                fetch.resume(reply)
            }
            ReadStep::Insert(insert) => {
                cache.insert(insert.key.clone(), insert.body.clone());
                let entry = insert.body.clone();
                insert.resume(&entry)
            }
            ReadStep::Done(outcome) => return outcome,
        }
    }
}

#[test]
fn new_keeps_both_handles() {
    let store = store();
    assert_eq!(*store.client(), "objects");
    assert_eq!(*store.cache(), "cache");
}

#[test]
fn segment_names_are_zero_padded() {
    let store = store();
    assert_eq!(store.segment_filename(0), "z-0000000000");
    assert_eq!(store.segment_filename(1_234), "z-0000001234");
    assert_eq!(store.segment_filename(9_999_999_999), "z-9999999999");
    assert_eq!(store.segment_filename(10_000_000_000), "z-10000000000");
    assert_eq!(store.segment_filename(u64::MAX), "z-18446744073709551615");
}

#[test]
fn keys_start_with_the_canonical_prefix() {
    assert_eq!(store().format_key("z-0000000001"), "canon/z-0000000001");
    assert_eq!(store().format_key(""), "canon/");
}

#[test]
fn snapshot_names_hold_range_time_and_counter() {
    let store = store();
    assert_eq!(
        store.recent_snapshot_filename_at(&segment(10, 20, b""), 1_700_000_000_000_000_000, 1_000_042),
        "recent/z-0000000010-0000000020-01700000000000000000-000042"
    );
    assert_eq!(
        store.recent_snapshot_filename_at(&segment(0, 0, b""), 0, 999_999),
        "recent/z-0000000000-0000000000-00000000000000000000-999999"
    );
    assert_eq!(
        store.recent_snapshot_filename_at(&segment(1, 2, b""), u128::MAX, u64::MAX),
        "recent/z-0000000001-0000000002-340282366920938463463374607431768211455-551615"
    );
}

#[test]
fn snapshot_names_read_the_clock_and_the_counter() {
    let store = store();
    let mut counter = 7;
    let first = store.recent_snapshot_filename(&segment(10, 20, b""), &mut counter);
    let second = store.recent_snapshot_filename(&segment(10, 20, b""), &mut counter);
    assert!(first.starts_with("recent/z-0000000010-0000000020-"));
    assert!(first.ends_with("-000007"));
    assert!(second.ends_with("-000008"));
    assert_eq!(counter, 9);
    // The clock of a machine that runs this stands behind 2020.
    let parts: Vec<&str> = first.split('-').collect();
    assert_eq!(parts[3].len(), 20);
    assert!(parts[3].parse::<u128>().unwrap() > 1_577_836_800_000_000_000);
    assert!(first != second);
}

#[test]
fn snapshot_names_are_distinct() {
    let store = store();
    let name = store.recent_snapshot_filename_at(&segment(1, 2, b""), 3, 4);
    assert!(name != store.recent_snapshot_filename_at(&segment(0, 2, b""), 3, 4));
    assert!(name != store.recent_snapshot_filename_at(&segment(1, 1, b""), 3, 4));
    assert!(name != store.recent_snapshot_filename_at(&segment(1, 2, b""), 2, 4));
    assert!(name != store.recent_snapshot_filename_at(&segment(1, 2, b""), 3, 5));
    assert_eq!(name, store.recent_snapshot_filename_at(&segment(1, 2, b""), 3, 1_000_004));
}

#[test]
fn segment_keys_are_distinct_and_sort() {
    let store = store();
    let blocks = [0u64, 9, 10, 11, 99, 100, 123_456, 9_999_999_999];
    for pair in blocks.windows(2) {
        let a = store.format_key(&store.segment_filename(pair[0]));
        let b = store.format_key(&store.segment_filename(pair[1]));
        assert!(a < b);
    }
    // Longer numbers no longer sort, but are still told apart.
    let long = store.segment_filename(10_000_000_000);
    assert!(long < store.segment_filename(2_000_000_000));
    assert!(long != store.segment_filename(1_000_000_000));
}

#[test]
fn put_overwrites_under_the_segment_name() {
    let request = store().put(&segment(5, 9, b"blocks")).unwrap();
    assert_eq!(request.key, "canon/z-0000000005");
    assert!(matches!(request.options.mode, PutMode::Overwrite));
    assert!(request.body.len() > b"blocks".len());
    assert_eq!(read_archive(&request.body), Some(segment(5, 9, b"blocks")));
}

#[test]
fn put_reply_is_the_version() {
    let request = store().put(&segment(5, 9, b"blocks")).unwrap();
    assert_eq!(request.resume(Ok(ObjectVersion("17".to_string()))), Ok(ObjectVersion("17".to_string())));
    let request = store().put(&segment(5, 9, b"blocks")).unwrap();
    assert_eq!(request.resume(Err(ObjectStoreError::Request)), Err(ChainStoreError));
}

#[test]
fn archives_lie_anywhere_in_memory() {
    let request = store().put(&segment(5, 9, b"blocks")).unwrap();
    for offset in 0..9 {
        let mut shifted = vec![0u8; offset];
        shifted.extend_from_slice(&request.body);
        let body = Bytes::from(shifted).slice(offset..);
        assert_eq!(read_archive(&body), Some(segment(5, 9, b"blocks")));
    }
}

#[test]
fn bytes_that_are_no_archive_are_rejected() {
    assert_eq!(read_archive(&Bytes::new()), None);
    assert_eq!(read_archive(&Bytes::from_static(b"not an archive")), None);
    assert_eq!(read_archive(&Bytes::from(vec![0xff; 64])), None);
}

#[test]
fn archives_hold_what_they_were_made_of() {
    let cases = [segment(0, 0, b""), segment(u64::MAX, 0, b"x"), segment(3, 4, &[7; 10_000])];
    for case in cases {
        let request = store().put(&case).unwrap();
        assert_eq!(read_archive(&request.body), Some(case));
    }
    assert!(MAX_PAYLOAD > 2_000_000_000);
}

#[test]
fn put_archive_needs_an_archive() {
    let store = store();
    let request = store.put_archive("n", Some(vec![1, 2, 3]), PutOptions::default()).unwrap();
    assert_eq!(request.key, "canon/n");
    assert_eq!(&request.body[..], &[1, 2, 3]);
    assert!(store.put_archive("n", None, PutOptions::default()).is_err());
}

#[test]
fn get_gives_back_what_was_put() {
    let store = store();
    let wanted = segment(5, 9, b"blocks");
    let put = store.put(&wanted).unwrap();
    let mut objects = HashMap::new();
    objects.insert(put.key.clone(), ("1".to_string(), put.body.clone()));
    let mut cache = HashMap::new();
    assert_eq!(run(store.get(5), &mut cache, &objects), Ok(Some(wanted.clone())));
    assert_eq!(cache.get("canon/z-0000000005"), Some(&put.body));
    // The second read does without the object store.
    assert_eq!(run(store.get(5), &mut cache, &HashMap::new()), Ok(Some(wanted)));
}

#[test]
fn get_prefers_what_the_cache_still_holds() {
    let store = store();
    let old = store.put(&segment(5, 6, b"old")).unwrap();
    let new = store.put(&segment(5, 9, b"new")).unwrap();
    let mut objects = HashMap::new();
    objects.insert(new.key.clone(), ("2".to_string(), new.body.clone()));
    let mut cache = HashMap::new();
    cache.insert(old.key.clone(), old.body.clone());
    assert_eq!(run(store.get(5), &mut cache, &objects), Ok(Some(segment(5, 6, b"old"))));
}

#[test]
fn get_of_nothing_finds_nothing() {
    let mut cache = HashMap::new();
    assert_eq!(run(store().get(5), &mut cache, &HashMap::new()), Ok(None));
    assert!(cache.is_empty());
}

#[test]
fn get_asks_the_cache_first() {
    let ReadStep::LookUp(lookup) = store().get(5) else { panic!("the cache comes first") };
    assert_eq!(lookup.key, "canon/z-0000000005");
    assert_eq!(lookup.version, None);
    let ReadStep::Fetch(fetch) = lookup.resume(Ok(None)) else { panic!("then the object store") };
    assert_eq!(fetch.key, "canon/z-0000000005");
    assert_eq!(fetch.options.version, None);
    assert_eq!(fetch.purpose, AfterFetch::Cache);
    let junk = Bytes::from_static(b"junk");
    let ReadStep::Insert(insert) = fetch.resume(Ok(junk.clone())) else { panic!("then the cache") };
    assert_eq!(insert.key, "canon/z-0000000005");
    assert_eq!(insert.body, junk);
    let ReadStep::Done(outcome) = insert.resume(&junk) else { panic!("then the answer") };
    assert_eq!(outcome, Err(ChainStoreError));
}

#[test]
fn get_fails_with_the_cache() {
    let ReadStep::LookUp(lookup) = store().get(5) else { panic!("the cache comes first") };
    let ReadStep::Done(outcome) = lookup.resume(Err(FileCacheError::Foyer)) else {
        panic!("the cache failed")
    };
    assert_eq!(outcome, Err(ChainStoreError));
}

#[test]
fn get_fails_on_a_cached_body_that_is_no_archive() {
    let ReadStep::LookUp(lookup) = store().get(5) else { panic!("the cache comes first") };
    let ReadStep::Done(outcome) = lookup.resume(Ok(Some(Bytes::from_static(b"junk")))) else {
        panic!("the cache has it")
    };
    assert_eq!(outcome, Err(ChainStoreError));
}

#[test]
fn only_missing_objects_are_no_failure() {
    assert_eq!(get_as_bytes(Err(ObjectStoreError::NotFound)), Ok(None));
    for error in [
        ObjectStoreError::Configuration,
        ObjectStoreError::Request,
        ObjectStoreError::Precondition,
        ObjectStoreError::NotModified,
        ObjectStoreError::Metadata,
    ] {
        assert_eq!(get_as_bytes(Err(error)), Err(ChainStoreError));
    }
    let body = Bytes::from_static(b"body");
    assert_eq!(get_as_bytes(Ok(body.clone())), Ok(Some(body)));
}

#[test]
fn legacy_recent_passes_the_cache() {
    let store = store();
    let put = store.put(&segment(1, 2, b"legacy")).unwrap();
    let mut objects = HashMap::new();
    objects.insert("canon/recent".to_string(), ("1".to_string(), put.body.clone()));
    let mut cache = HashMap::new();
    cache.insert("canon/recent".to_string(), Bytes::from_static(b"junk"));
    let answer = run(store.get_legacy_recent(), &mut cache, &objects);
    assert_eq!(answer, Ok(Some(segment(1, 2, b"legacy"))));
    assert_eq!(cache.len(), 1);
}

#[test]
fn recent_snapshot_gives_back_what_was_put() {
    let store = store();
    let wanted = segment(10, 20, b"recent blocks");
    let mut counter = 3;
    let put = store.put_recent_snapshot(&wanted, &mut counter).unwrap();
    assert!(matches!(put.request.options.mode, PutMode::Create));
    assert!(put.request.key.starts_with("canon/recent/z-0000000010-0000000020-"));
    assert!(put.request.key.ends_with("-000003"));
    assert_eq!(counter, 4);
    let mut objects = HashMap::new();
    objects.insert(put.request.key.clone(), ("77".to_string(), put.request.body.clone()));
    let key = put.request.key.clone();
    let found = put.resume(Ok(ObjectVersion("77".to_string()))).unwrap();
    assert_eq!(found, pointer(&key, "77", 10, 20));
    let mut cache = HashMap::new();
    cache.insert(key, Bytes::from_static(b"junk"));
    let answer = run(store.get_recent_snapshot(&found), &mut cache, &objects);
    assert_eq!(answer, Ok(Some(wanted)));
    assert_eq!(cache.len(), 1);
}

#[test]
fn recent_snapshot_put_can_fail() {
    let put = store().put_recent_snapshot_as("recent/x", &segment(1, 2, b"")).unwrap();
    assert_eq!(put.request.key, "canon/recent/x");
    assert_eq!(put.resume(Err(ObjectStoreError::Precondition)), Err(ChainStoreError));
}

#[test]
fn recent_snapshot_of_another_range_is_refused() {
    let store = store();
    let put = store.put_recent_snapshot_as("recent/x", &segment(10, 20, b"")).unwrap();
    let mut objects = HashMap::new();
    objects.insert("canon/recent/x".to_string(), ("1".to_string(), put.request.body.clone()));
    let mut cache = HashMap::new();
    for (first, last) in [(10, 19), (11, 20), (9, 21)] {
        let step = store.get_recent_snapshot(&pointer("canon/recent/x", "1", first, last));
        assert_eq!(run(step, &mut cache, &objects), Err(ChainStoreError));
    }
    let step = store.get_recent_snapshot(&pointer("canon/recent/x", "1", 10, 20));
    assert_eq!(run(step, &mut cache, &objects), Ok(Some(segment(10, 20, b""))));
}

#[test]
fn recent_snapshot_asks_for_its_version() {
    let store = store();
    let found = pointer("canon/recent/x", "9", 1, 2);
    let ReadStep::Fetch(fetch) = store.get_recent_snapshot(&found) else {
        panic!("past the cache")
    };
    assert_eq!(fetch.key, "canon/recent/x");
    assert_eq!(fetch.options.version, Some(ObjectVersion("9".to_string())));
    assert_eq!(fetch.purpose, AfterFetch::CheckRange { first_block: 1, last_block: 2 });
    let ReadStep::Done(outcome) = fetch.resume(Err(ObjectStoreError::NotFound)) else {
        panic!("nothing there")
    };
    assert_eq!(outcome, Ok(None));
}

#[test]
fn pointers_that_make_no_sense_are_refused() {
    let good = pointer("canon/recent/x", "1", 1, 2);
    assert_eq!(recent_pointer_fault(&good), None);
    assert_eq!(validate_recent_pointer(&good), Ok(()));
    assert_eq!(validate_recent_pointer(&pointer("canon/recent/", "1", 2, 2)), Ok(()));
    let cases = [
        (pointer("canon/z-0000000001", "1", 1, 2), RecentPointerFault::OutsideRecentPrefix),
        (pointer("canon/recent", "1", 1, 2), RecentPointerFault::OutsideRecentPrefix),
        (pointer("recent/x", "1", 1, 2), RecentPointerFault::OutsideRecentPrefix),
        (pointer("", "", 3, 2), RecentPointerFault::OutsideRecentPrefix),
        (pointer("canon/recent/x", "", 3, 2), RecentPointerFault::EmptyVersion),
        (pointer("canon/recent/x", "1", 3, 2), RecentPointerFault::InvalidBlockRange),
    ];
    for (bad, fault) in cases {
        assert_eq!(recent_pointer_fault(&bad), Some(fault));
        assert_eq!(validate_recent_pointer(&bad), Err(ChainStoreError));
        let ReadStep::Done(outcome) = store().get_recent_snapshot(&bad) else {
            panic!("nothing to ask for")
        };
        assert_eq!(outcome, Err(ChainStoreError));
    }
}

#[test]
fn a_snapshot_of_blocks_out_of_order_cannot_be_read_back() {
    let put = store().put_recent_snapshot_as("recent/x", &segment(2, 1, b"")).unwrap();
    let found = put.resume(Ok(ObjectVersion("1".to_string()))).unwrap();
    assert_eq!(recent_pointer_fault(&found), Some(RecentPointerFault::InvalidBlockRange));
}

#[test]
fn settle_checks_the_range_where_asked() {
    let range = AfterFetch::CheckRange { first_block: 1, last_block: 2 };
    assert_eq!(settle(None, AfterFetch::Return), Err(ChainStoreError));
    assert_eq!(settle(None, range), Err(ChainStoreError));
    let found = segment(1, 2, b"x");
    assert_eq!(settle(Some(found.clone()), range), Ok(Some(found)));
    assert_eq!(settle(Some(segment(1, 3, b"x")), range), Err(ChainStoreError));
    let other = segment(1, 3, b"x");
    assert_eq!(settle(Some(other.clone()), AfterFetch::Return), Ok(Some(other.clone())));
    assert_eq!(settle(Some(other.clone()), AfterFetch::Cache), Ok(Some(other)));
}

/// Carries out a write against an object store that works.
fn write(
    put: &PutRequest,
    version: &str,
    objects: &mut HashMap<String, (String, Bytes)>,
) -> Result<ObjectVersion, ObjectStoreError> {
    let allowed = match &put.options.mode {
        PutMode::Overwrite => true,
        PutMode::Create => !objects.contains_key(&put.key),
        PutMode::Update(wanted) => match objects.get(&put.key) {
            Some((current, _)) => *current == wanted.0,
            None => false,
        },
    };
    if !allowed {
        return Err(ObjectStoreError::Precondition);
    }
    objects.insert(put.key.clone(), (version.to_string(), put.body.clone()));
    Ok(ObjectVersion(version.to_string()))
}

#[test]
fn writes_leave_other_reads_alone() {
    let store = store();
    let mut objects = HashMap::new();
    write(&store.put(&segment(5, 9, b"five")).unwrap(), "1", &mut objects).unwrap();
    let kept = store.put_recent_snapshot_as("recent/kept", &segment(10, 20, b"kept")).unwrap();
    write(&kept.request, "2", &mut objects).unwrap();
    let kept = kept.resume(Ok(ObjectVersion("2".to_string()))).unwrap();
    let mut legacy = store.put(&segment(1, 2, b"legacy")).unwrap();
    legacy.key = "canon/recent".to_string();
    write(&legacy, "3", &mut objects).unwrap();

    write(&store.put(&segment(6, 9, b"six")).unwrap(), "4", &mut objects).unwrap();
    let name = store.recent_snapshot_filename_at(&segment(10, 20, b"other"), 30, 40);
    let other = store.put_recent_snapshot_as(&name, &segment(10, 20, b"other")).unwrap();
    write(&other.request, "5", &mut objects).unwrap();

    let mut cache = HashMap::new();
    assert_eq!(run(store.get(5), &mut cache, &objects), Ok(Some(segment(5, 9, b"five"))));
    assert_eq!(run(store.get(6), &mut cache, &objects), Ok(Some(segment(6, 9, b"six"))));
    assert_eq!(run(store.get(10), &mut cache, &objects), Ok(None));
    let answer = run(store.get_recent_snapshot(&kept), &mut cache, &objects);
    assert_eq!(answer, Ok(Some(segment(10, 20, b"kept"))));
    let answer = run(store.get_legacy_recent(), &mut cache, &objects);
    assert_eq!(answer, Ok(Some(segment(1, 2, b"legacy"))));
}

#[test]
fn a_snapshot_replaces_nothing() {
    let store = store();
    let mut objects = HashMap::new();
    let first = store.put_recent_snapshot_as("recent/x", &segment(1, 2, b"first")).unwrap();
    write(&first.request, "1", &mut objects).unwrap();
    let second = store.put_recent_snapshot_as("recent/x", &segment(1, 2, b"second")).unwrap();
    let reply = write(&second.request, "2", &mut objects);
    assert_eq!(reply, Err(ObjectStoreError::Precondition));
    assert_eq!(second.resume(reply), Err(ChainStoreError));
    assert_eq!(objects["canon/recent/x"], ("1".to_string(), first.request.body.clone()));
}

#[test]
fn clocks_before_the_epoch_count_as_zero() {
    assert_eq!(timestamp_of(None), 0);
    assert_eq!(timestamp_of(Some(0)), 0);
    assert_eq!(timestamp_of(Some(1_700_000_000_000_000_000)), 1_700_000_000_000_000_000);
}

#[test]
fn a_body_that_is_no_archive_keeps_failing_from_the_cache() {
    let store = store();
    let junk = Bytes::from_static(b"junk");
    let mut objects = HashMap::new();
    objects.insert("canon/z-0000000005".to_string(), ("1".to_string(), junk.clone()));
    let mut cache = HashMap::new();
    assert_eq!(run(store.get(5), &mut cache, &objects), Err(ChainStoreError));
    assert_eq!(cache.get("canon/z-0000000005"), Some(&junk));
    // The object is mended, but the cache still has the old body.
    write(&store.put(&segment(5, 9, b"five")).unwrap(), "2", &mut objects).unwrap();
    assert_eq!(run(store.get(5), &mut cache, &objects), Err(ChainStoreError));
    assert_eq!(run(store.get(5), &mut cache, &HashMap::new()), Err(ChainStoreError));
    cache.clear();
    assert_eq!(run(store.get(5), &mut cache, &objects), Ok(Some(segment(5, 9, b"five"))));
}

#[test]
fn the_counter_starts_again_behind_the_last_number() {
    let store = store();
    let mut counter = u64::MAX;
    let last = store.recent_snapshot_filename(&segment(1, 2, b""), &mut counter);
    assert!(last.ends_with("-551615"));
    assert_eq!(counter, 0);
    let first = store.recent_snapshot_filename(&segment(1, 2, b""), &mut counter);
    assert!(first.ends_with("-000000"));
    assert_eq!(counter, 1);
}

#[test]
fn successive_snapshots_have_names_of_their_own() {
    let store = store();
    let mut counter = 999_998;
    let mut names = Vec::new();
    for _ in 0..5 {
        names.push(store.recent_snapshot_filename(&segment(1, 2, b""), &mut counter));
    }
    let counts: Vec<&str> = names.iter().map(|name| &name[name.len() - 6..]).collect();
    assert_eq!(counts, vec!["999998", "999999", "000000", "000001", "000002"]);
}

#[test]
fn reading_by_name_is_reading_by_key() {
    let store = store();
    let version = || Some(ObjectVersion("3".to_string()));
    let ReadStep::Fetch(by_name) = store.get_impl("x/y", version(), true) else {
        panic!("past the cache")
    };
    let by_key = store.get_by_key(&store.format_key("x/y"), version());
    assert_eq!(by_name.key, "canon/x/y");
    assert_eq!(by_name.key, by_key.key);
    assert_eq!(by_name.options.version, by_key.options.version);
    assert_eq!(by_name.purpose, by_key.purpose);
}
