use apibara_dna::gcs::{
    bucket_path, change_to_object_store_context, parse_generation, version_of_generation,
    BodyEvent, BodyStep, BuildControl, ClientBuildError, GcsClient, GcsError, ListStep,
};
use apibara_dna::object_store::{
    DeleteOptions, GetOptions, ObjectStoreError, ObjectVersion, PutMode, PutOptions,
};
use bytes::Bytes;

type Client = GcsClient<&'static str, &'static str>;

fn client(project_id: Option<&str>) -> Client {
    GcsClient::from_clients("storage", "control", project_id.map(|p| p.to_string()))
}

fn status(code: u16) -> GcsError {
    GcsError { http_status_code: Some(code) }
}

fn version(text: &str) -> ObjectVersion {
    ObjectVersion(text.to_string())
}

#[test]
fn statuses_keep_their_meaning() {
    let cases = [
        (Some(412), ObjectStoreError::Precondition),
        (Some(409), ObjectStoreError::Precondition),
        (Some(304), ObjectStoreError::NotModified),
        (Some(404), ObjectStoreError::NotFound),
        (Some(403), ObjectStoreError::Request),
        (Some(500), ObjectStoreError::Request),
        (None, ObjectStoreError::Request),
    ];
    for (http_status_code, error) in cases {
        let reply: Result<(), GcsError> = Err(GcsError { http_status_code });
        assert_eq!(change_to_object_store_context(reply), Err(error));
    }
    assert_eq!(change_to_object_store_context(Ok(7)), Ok(7));
}

#[test]
fn bucket_paths() {
    assert_eq!(bucket_path("chain"), "projects/_/buckets/chain");
    assert_eq!(bucket_path(""), "projects/_/buckets/");
}

#[test]
fn generations_parse() {
    let cases = [
        ("0", 0),
        ("17", 17),
        ("+17", 17),
        ("-17", -17),
        ("-0", 0),
        ("0017", 17),
        ("9223372036854775807", i64::MAX),
        ("-9223372036854775808", i64::MIN),
        ("000000000000000000000000000000000000000000000000005", 5),
    ];
    for (text, generation) in cases {
        assert_eq!(parse_generation(&version(text)), Ok(generation));
    }
}

#[test]
fn other_versions_are_refused() {
    for text in [
        "", "+", "-", "--1", "+-1", " 1", "1 ", "1_000", "0x1", "abc", "1.0", "\u{661}",
        "9223372036854775808", "-9223372036854775809", "99999999999999999999999999999999999999999999",
    ] {
        assert_eq!(parse_generation(&version(text)), Err(ObjectStoreError::Metadata));
    }
}

#[test]
fn versions_stand_for_generations() {
    for generation in [0, 1, -1, 9, 10, 1_700_000_000_123_456, i64::MAX, i64::MIN] {
        let made = version_of_generation(generation);
        assert_eq!(made.0, generation.to_string());
        assert_eq!(parse_generation(&made), Ok(generation));
    }
}

#[test]
fn both_clients_are_built_at_the_endpoint() {
    let build = Client::new(Some("p".to_string()), Some("http://here".to_string()));
    assert_eq!(build.endpoint.as_deref(), Some("http://here"));
    let control: BuildControl<&'static str> = build.resume(Ok("storage")).unwrap();
    assert_eq!(control.endpoint.as_deref(), Some("http://here"));
    let client = control.resume(Ok("control")).unwrap();
    assert_eq!(*client.storage(), "storage");
    assert_eq!(*client.control(), "control");
    assert_eq!(client.create_bucket("b").unwrap().parent, "projects/p");
}

#[test]
fn clients_that_cannot_be_built_are_a_configuration_error() {
    let build = Client::new(None, None);
    assert_eq!(build.endpoint, None);
    let failed: Result<BuildControl<&'static str>, ObjectStoreError> =
        build.resume(Err(ClientBuildError));
    assert!(matches!(failed, Err(ObjectStoreError::Configuration)));
    let control: BuildControl<&'static str> = Client::new(None, None).resume(Ok("storage")).unwrap();
    let failed: Result<Client, ObjectStoreError> = control.resume(Err(ClientBuildError));
    assert!(matches!(failed, Err(ObjectStoreError::Configuration)));
}

#[test]
fn has_bucket() {
    let client = client(None);
    let request = client.has_bucket("chain");
    assert_eq!(request.name, "projects/_/buckets/chain");
    assert_eq!(request.resume(Ok(())), Ok(true));
    assert_eq!(client.has_bucket("chain").resume(Err(status(404))), Ok(false));
    assert_eq!(
        client.has_bucket("chain").resume(Err(status(403))),
        Err(ObjectStoreError::Request)
    );
}

#[test]
fn create_bucket_needs_a_project() {
    let request = client(Some("p-1")).create_bucket("chain").unwrap();
    assert_eq!(request.parent, "projects/p-1");
    assert_eq!(request.bucket_id, "chain");
    assert_eq!(request.resume(Ok(())), Ok(()));
    let request = client(Some("p-1")).create_bucket("chain").unwrap();
    assert_eq!(request.resume(Err(status(409))), Err(ObjectStoreError::Precondition));
    assert!(matches!(
        client(None).create_bucket("chain"),
        Err(ObjectStoreError::Configuration)
    ));
}

#[test]
fn get_object_asks_for_the_generation() {
    let client = client(None);
    let any = client.get_object("b", "k", GetOptions { version: None }).unwrap();
    assert_eq!(any.bucket, "projects/_/buckets/b");
    assert_eq!(any.object, "k");
    assert_eq!(any.if_generation_match, None);
    let one = client.get_object("b", "k", GetOptions { version: Some(version("12")) }).unwrap();
    assert_eq!(one.if_generation_match, Some(12));
    let bad = client.get_object("b", "k", GetOptions { version: Some(version("etag")) });
    assert!(matches!(bad, Err(ObjectStoreError::Metadata)));
}

#[test]
fn a_body_is_all_of_its_chunks() {
    let request = client(None).get_object("b", "k", GetOptions { version: None }).unwrap();
    let mut body = request.resume(Ok(())).unwrap_or_else(|_| panic!("the object is there"));
    for chunk in [&b"one "[..], &b""[..], &b"two "[..], &b"three"[..]] {
        let chunk = Bytes::copy_from_slice(chunk);
        assert!(body.has_room_for(&chunk));
        let BodyStep::Next(next) = body.resume(BodyEvent::Chunk(Ok(chunk))) else {
            panic!("there is more")
        };
        body = next;
    }
    let BodyStep::Done(Ok((found, bytes))) = body.resume(BodyEvent::End { generation: 33 }) else {
        panic!("the body is complete")
    };
    assert_eq!(found, version("33"));
    assert_eq!(&bytes[..], b"one two three");
}

#[test]
fn a_body_fails_with_a_chunk() {
    let request = client(None).get_object("b", "k", GetOptions { version: None }).unwrap();
    let body = request.resume(Ok(())).unwrap_or_else(|_| panic!("the object is there"));
    let BodyStep::Next(body) = body.resume(BodyEvent::Chunk(Ok(Bytes::from_static(b"one")))) else {
        panic!("there is more")
    };
    let BodyStep::Done(Err(error)) = body.resume(BodyEvent::Chunk(Err(status(500)))) else {
        panic!("the chunk is lost")
    };
    assert_eq!(error, ObjectStoreError::Request);
}

#[test]
fn a_read_can_be_refused() {
    for (code, expected) in [
        (404, ObjectStoreError::NotFound),
        (412, ObjectStoreError::Precondition),
        (304, ObjectStoreError::NotModified),
    ] {
        let request = client(None).get_object("b", "k", GetOptions { version: None }).unwrap();
        assert!(matches!(request.resume(Err(status(code))), Err(error) if error == expected));
    }
}

#[test]
fn put_object_sets_the_condition() {
    let client = client(None);
    let cases = [
        (PutMode::Overwrite, None),
        (PutMode::Create, Some(0)),
        (PutMode::Update(version("12")), Some(12)),
    ];
    for (mode, condition) in cases {
        let body = Bytes::from_static(b"body");
        let write = client.put_object("b", "k", body.clone(), PutOptions { mode }).unwrap();
        assert_eq!(write.bucket, "projects/_/buckets/b");
        assert_eq!(write.object, "k");
        assert_eq!(write.body, body);
        assert_eq!(write.if_generation_match, condition);
    }
    let mode = PutMode::Update(version("etag"));
    let bad = client.put_object("b", "k", Bytes::new(), PutOptions { mode });
    assert!(matches!(bad, Err(ObjectStoreError::Metadata)));
}

#[test]
fn a_written_version_can_be_read_and_updated() {
    let client = client(None);
    let write = client.put_object("b", "k", Bytes::new(), PutOptions::default()).unwrap();
    let made = write.resume(Ok(1_700_000_000_000_001)).unwrap();
    assert_eq!(made, version("1700000000000001"));
    let options = GetOptions { version: Some(made.clone()) };
    let read = client.get_object("b", "k", options).unwrap();
    assert_eq!(read.if_generation_match, Some(1_700_000_000_000_001));
    let options = PutOptions { mode: PutMode::Update(made) };
    let update = client.put_object("b", "k", Bytes::new(), options).unwrap();
    assert_eq!(update.if_generation_match, Some(1_700_000_000_000_001));
    assert_eq!(update.resume(Err(status(412))), Err(ObjectStoreError::Precondition));
}

#[test]
fn a_listing_is_all_names_in_order() {
    let request = client(None).list_objects("b", "canon/");
    assert_eq!(request.parent, "projects/_/buckets/b");
    assert_eq!(request.prefix, "canon/");
    let mut listing = request.start();
    for name in ["z", "a", "z"] {
        let ListStep::Next(next) = listing.resume(Some(Ok(name.to_string()))) else {
            panic!("there is more")
        };
        listing = next;
    }
    let ListStep::Done(Ok(names)) = listing.resume(None) else { panic!("the listing is complete") };
    assert_eq!(names, vec!["z", "a", "z"]);
}

#[test]
fn a_listing_fails_with_an_item() {
    let listing = client(None).list_objects("b", "").start();
    let ListStep::Next(listing) = listing.resume(Some(Ok("a".to_string()))) else {
        panic!("there is more")
    };
    let ListStep::Done(Err(error)) = listing.resume(Some(Err(status(404)))) else {
        panic!("the item is lost")
    };
    assert_eq!(error, ObjectStoreError::NotFound);
}

#[test]
fn delete_object() {
    let client = client(None);
    let request = client.delete_object("b", "k", DeleteOptions);
    assert_eq!(request.bucket, "projects/_/buckets/b");
    assert_eq!(request.object, "k");
    assert_eq!(request.resume(Ok(())), Ok(()));
    let request = client.delete_object("b", "k", DeleteOptions);
    assert_eq!(request.resume(Err(status(404))), Err(ObjectStoreError::NotFound));
}

#[test]
fn get_object_gives_back_what_put_object_wrote() {
    let client = client(None);
    let body = Bytes::from_static(b"one two");
    let write = client.put_object("b", "k", body, PutOptions { mode: PutMode::Create }).unwrap();
    let (bucket, object, stored) = (write.bucket.clone(), write.object.clone(), write.body.clone());
    let made = write.resume(Ok(41)).unwrap();
    for wanted in [None, Some(made.clone())] {
        let read = client.get_object("b", "k", GetOptions { version: wanted.clone() }).unwrap();
        assert_eq!((&read.bucket, &read.object), (&bucket, &object));
        assert_eq!(read.if_generation_match, wanted.map(|_| 41));
        let mut reading = read.resume(Ok(())).unwrap_or_else(|_| panic!("the object is there"));
        for chunk in [stored.slice(..3), stored.slice(3..)] {
            let BodyStep::Next(next) = reading.resume(BodyEvent::Chunk(Ok(chunk))) else {
                panic!("there is more")
            };
            reading = next;
        }
        let BodyStep::Done(outcome) = reading.resume(BodyEvent::End { generation: 41 }) else {
            panic!("the body is complete")
        };
        assert_eq!(outcome, Ok((made.clone(), stored.clone())));
    }
}

#[test]
fn a_create_that_comes_too_late_fails_its_precondition() {
    let options = PutOptions { mode: PutMode::Create };
    let write = client(None).put_object("b", "k", Bytes::new(), options).unwrap();
    assert_eq!(write.if_generation_match, Some(0));
    assert_eq!(write.resume(Err(status(412))), Err(ObjectStoreError::Precondition));
}
