//! What holds of the Google Cloud Storage backend as a whole: versions stand for
//! generations, bodies and listings are complete, a read gives back what was
//! written, and failures keep their meaning.

use bytes::Bytes;
use vstd::prelude::*;

use crate::buffer::bytes_content;
use crate::chain_store::{after_fetch, AfterFetch, ChainStoreError, ReadModel, SegmentModel};
use crate::decimal::{
    law_other_texts_do_not_parse, law_parse_undoes_signed_text, parsed_i64, signed_text,
};
use crate::gcs::{
    after_input, after_item, bucket_exists, bucket_resource, error_of_status, generation_of,
    is_create_request, is_delete_request, is_list_request, is_read_request, is_write_request,
    is_written_version, project_resource, read_condition, store_result, write_condition, BodyEvent,
    BodyInput, BodyModel, BodyStep, BuildStorage, ClientBuildError, CreateBucket, DeleteObject,
    GcsClient, GcsError, ListModel, ListObjects, ListStep, ReadObject, WriteObject,
};
use crate::object_store::{version_text, ObjectStoreError, ObjectVersion, PutMode};

verus! {

/// The version that stands for a generation asks for that generation, in a read
/// as in an update.
pub proof fn law_version_asks_for_its_generation(version: ObjectVersion, generation: i64)
    requires
        version@ == signed_text(generation as int),
    ensures
        generation_of(version@) == Ok::<i64, ObjectStoreError>(generation),
        read_condition(Some(version@)) == Ok::<Option<i64>, ObjectStoreError>(Some(generation)),
        write_condition(PutMode::Update(version)) == Ok::<Option<i64>, ObjectStoreError>(
            Some(generation),
        ),
{
    law_parse_undoes_signed_text(generation);
}

/// Every version that is a number asks for that generation, in a read as in an
/// update; without a version a read asks for none.
pub proof fn law_numbers_ask_for_generations(version: ObjectVersion, generation: i64)
    requires
        parsed_i64(version@) == Some(generation),
    ensures
        read_condition(Some(version@)) == Ok::<Option<i64>, ObjectStoreError>(Some(generation)),
        write_condition(PutMode::Update(version)) == Ok::<Option<i64>, ObjectStoreError>(
            Some(generation),
        ),
        read_condition(None) == Ok::<Option<i64>, ObjectStoreError>(None),
{
}

/// Different generations have different versions.
pub proof fn law_versions_distinct(a: i64, b: i64)
    requires
        a != b,
    ensures
        signed_text(a as int) != signed_text(b as int),
{
    law_parse_undoes_signed_text(a);
    law_parse_undoes_signed_text(b);
}

/// Different buckets have different resource paths.
pub proof fn law_bucket_paths_distinct(a: Seq<char>, b: Seq<char>)
    requires
        a != b,
    ensures
        bucket_resource(a) != bucket_resource(b),
{
    let head = "projects/_/buckets/"@;
    assert(a =~= bucket_resource(a).skip(head.len() as int));
    assert(b =~= bucket_resource(b).skip(head.len() as int));
}

/// A body that is read on from `content` with one input after the other, until
/// it is done.
pub open spec fn run_body(content: Seq<u8>, inputs: Seq<BodyInput>) -> BodyModel
    decreases inputs.len(),
{
    if inputs.len() == 0 {
        BodyModel::Next(content)
    } else {
        match after_input(content, inputs[0]) {
            BodyModel::Next(more) => run_body(more, inputs.drop_first()),
            done => done,
        }
    }
}

/// The chunks of a body, as they come in.
pub open spec fn chunk_inputs(chunks: Seq<Seq<u8>>) -> Seq<BodyInput> {
    chunks.map_values(|chunk: Seq<u8>| BodyInput::Chunk(Ok(chunk)))
}

/// Chunks that all come in are put one behind the other.
proof fn lemma_chunks_join(content: Seq<u8>, chunks: Seq<Seq<u8>>, rest: Seq<BodyInput>)
    ensures
        run_body(content, chunk_inputs(chunks) + rest) == run_body(
            content + chunks.flatten(),
            rest,
        ),
    decreases chunks.len(),
{
    let inputs = chunk_inputs(chunks) + rest;
    if chunks.len() == 0 {
        assert(inputs =~= rest);
        assert(content + chunks.flatten() =~= content);
    } else {
        lemma_chunks_join(content + chunks[0], chunks.drop_first(), rest);
        assert(inputs.drop_first() =~= chunk_inputs(chunks.drop_first()) + rest);
        assert(content + chunks[0] + chunks.drop_first().flatten() =~= content
            + chunks.flatten());
    }
}

/// The body of an object is all of its chunks, in the order in which they came,
/// and its version stands for its generation.
pub proof fn law_body_is_all_chunks(chunks: Seq<Seq<u8>>, generation: i64)
    ensures
        run_body(
            Seq::empty(),
            chunk_inputs(chunks) + seq![BodyInput::End { generation }],
        ) == BodyModel::Done(
            Ok::<(Seq<char>, Seq<u8>), ObjectStoreError>(
                (signed_text(generation as int), chunks.flatten()),
            ),
        ),
{
    lemma_chunks_join(Seq::empty(), chunks, seq![BodyInput::End { generation }]);
    assert(Seq::<u8>::empty() + chunks.flatten() =~= chunks.flatten());
}

/// A chunk that cannot be read fails the read, whatever came before it and
/// whatever would have come behind it.
pub proof fn law_body_fails_with_a_chunk(
    chunks: Seq<Seq<u8>>,
    error: GcsError,
    behind: Seq<BodyInput>,
)
    ensures
        run_body(
            Seq::empty(),
            chunk_inputs(chunks) + (seq![BodyInput::Chunk(Err(error))] + behind),
        ) == BodyModel::Done(
            Err::<(Seq<char>, Seq<u8>), ObjectStoreError>(error_of_status(error.http_status_code)),
        ),
{
    lemma_chunks_join(Seq::empty(), chunks, seq![BodyInput::Chunk(Err(error))] + behind);
}

/// A listing that goes on from `names` with one item after the other, until it
/// is done.
pub open spec fn run_listing(
    names: Seq<String>,
    items: Seq<Option<Result<String, GcsError>>>,
) -> ListModel
    decreases items.len(),
{
    if items.len() == 0 {
        ListModel::Next(names)
    } else {
        match after_item(names, items[0]) {
            ListModel::Next(more) => run_listing(more, items.drop_first()),
            done => done,
        }
    }
}

/// The names of objects, as they come in.
pub open spec fn name_items(names: Seq<String>) -> Seq<Option<Result<String, GcsError>>> {
    names.map_values(|name: String| Some(Ok(name)))
}

/// Names that all come in are listed one behind the other.
proof fn lemma_names_join(
    before: Seq<String>,
    names: Seq<String>,
    rest: Seq<Option<Result<String, GcsError>>>,
)
    ensures
        run_listing(before, name_items(names) + rest) == run_listing(before + names, rest),
    decreases names.len(),
{
    let items = name_items(names) + rest;
    if names.len() == 0 {
        assert(items =~= rest);
        assert(before + names =~= before);
    } else {
        lemma_names_join(before.push(names[0]), names.drop_first(), rest);
        assert(items.drop_first() =~= name_items(names.drop_first()) + rest);
        assert(before.push(names[0]) + names.drop_first() =~= before + names);
    }
}

/// A listing that comes to its end gives every name, in the order in which they
/// came.
pub proof fn law_listing_is_all_names(names: Seq<String>)
    ensures
        run_listing(Seq::empty(), name_items(names) + seq![None]) == ListModel::Done(
            Ok::<Seq<String>, ObjectStoreError>(names),
        ),
{
    lemma_names_join(Seq::empty(), names, seq![None]);
    assert(Seq::<String>::empty() + names =~= names);
}

/// An item that cannot be read fails the listing, whatever came before it and
/// whatever would have come behind it.
pub proof fn law_listing_fails_with_an_item(
    names: Seq<String>,
    error: GcsError,
    behind: Seq<Option<Result<String, GcsError>>>,
)
    ensures
        run_listing(Seq::empty(), name_items(names) + (seq![Some(Err(error))] + behind))
            == ListModel::Done(
            Err::<Seq<String>, ObjectStoreError>(error_of_status(error.http_status_code)),
        ),
{
    lemma_names_join(Seq::empty(), names, seq![Some(Err(error))] + behind);
}

/// The objects that the service holds: under each bucket path and name a
/// generation and a body.
pub type ServiceObjects = Map<(Seq<char>, Seq<char>), (i64, Seq<u8>)>;

/// The generation of an object; 0 where there is none, which no object has.
pub open spec fn current_generation(
    objects: ServiceObjects,
    bucket: Seq<char>,
    object: Seq<char>,
) -> i64 {
    if objects.contains_key((bucket, object)) {
        objects[(bucket, object)].0
    } else {
        0
    }
}

/// Whether no object has generation 0.
pub open spec fn generations_count(objects: ServiceObjects) -> bool {
    forall|k: (Seq<char>, Seq<char>)| #[trigger] objects.contains_key(k) ==> objects[k].0 != 0
}

/// The reply of a service that works and holds `objects` to a write, and what it
/// holds then. `generation` is the generation that a new object gets.
pub open spec fn service_write(objects: ServiceObjects, write: WriteObject, generation: i64) -> (
    Result<i64, GcsError>,
    ServiceObjects,
) {
    let current = current_generation(objects, write.bucket@, write.object@);
    match write.if_generation_match {
        Some(wanted) if wanted != current => (
            Err(GcsError { http_status_code: Some(412) }),
            objects,
        ),
        _ => (
            Ok(generation),
            objects.insert(
                (write.bucket@, write.object@),
                (generation, bytes_content(write.body)),
            ),
        ),
    }
}

/// The reply of a service that works and holds `objects` to a read: the
/// generation and the body of the object.
pub open spec fn service_read(objects: ServiceObjects, read: ReadObject) -> Result<
    (i64, Seq<u8>),
    GcsError,
> {
    let place = (read.bucket@, read.object@);
    if !objects.contains_key(place) {
        Err(GcsError { http_status_code: Some(404) })
    } else {
        match read.if_generation_match {
            Some(wanted) if wanted != objects[place].0 => Err(
                GcsError { http_status_code: Some(412) },
            ),
            _ => Ok(objects[place]),
        }
    }
}

/// What was written is read back, with the version that the write gave: without a
/// version as with that one, and in whatever chunks the body comes.
pub proof fn law_get_object_gives_back_put_object(
    bucket: Seq<char>,
    key: Seq<char>,
    body: Bytes,
    mode: PutMode,
    written: Result<WriteObject, ObjectStoreError>,
    objects: ServiceObjects,
    generation: i64,
    version: ObjectVersion,
    wanted: Option<ObjectVersion>,
    read: Result<ReadObject, ObjectStoreError>,
    chunks: Seq<Seq<u8>>,
)
    requires
        is_write_request(written, bucket, key, body, mode),
        written matches Ok(write) && service_write(objects, write, generation).0 is Ok,
        version@ == signed_text(generation as int),
        wanted is None || wanted == Some(version),
        is_read_request(read, bucket, key, version_text(wanted)),
        chunks.flatten() == bytes_content(body),
    ensures
        service_write(objects, written->Ok_0, generation).0 == Ok::<i64, GcsError>(generation),
        read matches Ok(request) && service_read(
            service_write(objects, written->Ok_0, generation).1,
            request,
        ) == Ok::<(i64, Seq<u8>), GcsError>((generation, bytes_content(body))),
        run_body(
            Seq::empty(),
            chunk_inputs(chunks) + seq![BodyInput::End { generation }],
        ) == BodyModel::Done(
            Ok::<(Seq<char>, Seq<u8>), ObjectStoreError>((version@, bytes_content(body))),
        ),
{
    law_version_asks_for_its_generation(version, generation);
    law_body_is_all_chunks(chunks, generation);
}

/// A create succeeds where the object does not exist yet. Where it does, the
/// service answers 412 and keeps what it has, and the create fails with
/// `Precondition`; that is what a 412 gives in any case.
pub proof fn law_create_only_where_nothing_is(
    bucket: Seq<char>,
    key: Seq<char>,
    body: Bytes,
    request: Result<WriteObject, ObjectStoreError>,
    objects: ServiceObjects,
    generation: i64,
)
    requires
        is_write_request(request, bucket, key, body, PutMode::Create),
        generations_count(objects),
    ensures
        request is Ok,
        ({
            let (reply, after) = service_write(objects, request->Ok_0, generation);
            if objects.contains_key((bucket_resource(bucket), key)) {
                store_result(reply) == Err::<i64, ObjectStoreError>(ObjectStoreError::Precondition)
                    && after == objects
            } else {
                store_result(reply) == Ok::<i64, ObjectStoreError>(generation)
            }
        }),
        store_result(Err::<i64, GcsError>(GcsError { http_status_code: Some(412) })) == Err::<
            i64,
            ObjectStoreError,
        >(ObjectStoreError::Precondition),
{
}

/// An update succeeds on the version that the object has. On any other the
/// service keeps what it has, and the update fails with `Precondition`.
pub proof fn law_update_only_of_the_version(
    bucket: Seq<char>,
    key: Seq<char>,
    body: Bytes,
    version: ObjectVersion,
    known: i64,
    request: Result<WriteObject, ObjectStoreError>,
    objects: ServiceObjects,
    generation: i64,
)
    requires
        version@ == signed_text(known as int),
        is_write_request(request, bucket, key, body, PutMode::Update(version)),
    ensures
        request is Ok,
        ({
            let (reply, after) = service_write(objects, request->Ok_0, generation);
            if current_generation(objects, bucket_resource(bucket), key) == known {
                store_result(reply) == Ok::<i64, ObjectStoreError>(generation)
            } else {
                store_result(reply) == Err::<i64, ObjectStoreError>(ObjectStoreError::Precondition)
                    && after == objects
            }
        }),
{
    law_version_asks_for_its_generation(version, known);
}

/// A read of an object that does not exist fails with `NotFound`; a read of
/// another version than the one that the object has fails with `Precondition`.
pub proof fn law_read_only_of_what_is_there(
    bucket: Seq<char>,
    key: Seq<char>,
    version: ObjectVersion,
    known: i64,
    wanted: Option<ObjectVersion>,
    request: Result<ReadObject, ObjectStoreError>,
    objects: ServiceObjects,
)
    requires
        version@ == signed_text(known as int),
        wanted is None || wanted == Some(version),
        is_read_request(request, bucket, key, version_text(wanted)),
    ensures
        request is Ok,
        ({
            let place = (bucket_resource(bucket), key);
            store_result(service_read(objects, request->Ok_0)) == (if !objects.contains_key(
                place,
            ) {
                Err::<(i64, Seq<u8>), ObjectStoreError>(ObjectStoreError::NotFound)
            } else if wanted is Some && objects[place].0 != known {
                Err::<(i64, Seq<u8>), ObjectStoreError>(ObjectStoreError::Precondition)
            } else {
                Ok::<(i64, Seq<u8>), ObjectStoreError>(objects[place])
            })
        }),
{
    law_version_asks_for_its_generation(version, known);
}

/// Of all failures of the service, only a missing object is no failure to a
/// chain store: there is just no segment.
pub proof fn law_only_missing_objects_are_no_segment(
    key: Seq<char>,
    purpose: AfterFetch,
    status: Option<u16>,
)
    ensures
        after_fetch(key, purpose, Err(error_of_status(status))) == ReadModel::Done(
            if status == Some(404u16) {
                Ok::<Option<SegmentModel>, ChainStoreError>(None)
            } else {
                Err::<Option<SegmentModel>, ChainStoreError>(ChainStoreError)
            },
        ),
{
}

/// The resource path of every bucket is `projects/_/buckets/` and behind it exactly
/// its name.
pub proof fn law_bucket_path_is_prefix_and_name(name: Seq<char>)
    ensures
        bucket_resource(name).len() == 19 + name.len(),
        bucket_resource(name).take(19) == "projects/_/buckets/"@,
        bucket_resource(name).skip(19) == name,
{
    reveal_strlit("projects/_/buckets/");
    assert(bucket_resource(name).take(19) =~= "projects/_/buckets/"@);
    assert(bucket_resource(name).skip(19) =~= name);
}

/// The resource path of every project is `projects/` and behind it exactly its id,
/// so different projects have different paths.
pub proof fn law_project_path_is_prefix_and_id(project_id: Seq<char>, other: Seq<char>)
    ensures
        project_resource(project_id).len() == 9 + project_id.len(),
        project_resource(project_id).take(9) == "projects/"@,
        project_resource(project_id).skip(9) == project_id,
        project_id != other ==> project_resource(project_id) != project_resource(other),
{
    reveal_strlit("projects/");
    assert(project_resource(project_id).take(9) =~= "projects/"@);
    assert(project_resource(project_id).skip(9) =~= project_id);
    assert(project_resource(other).skip(9) =~= other);
}

/// A client with a project creates buckets there, by their own names: the parent is
/// `projects/` and behind it exactly the project id. A client without a project
/// creates none.
pub proof fn law_buckets_are_created_in_the_project(
    project_id: Option<String>,
    name: Seq<char>,
    request: Result<CreateBucket, ObjectStoreError>,
)
    requires
        is_create_request(request, project_id, name),
    ensures
        project_id is None ==> request == Err::<CreateBucket, ObjectStoreError>(
            ObjectStoreError::Configuration,
        ),
        project_id matches Some(id) ==> request matches Ok(create) && create.bucket_id@ == name
            && create.parent@.take(9) == "projects/"@ && create.parent@.skip(9) == id@,
{
    if let Some(id) = project_id {
        law_project_path_is_prefix_and_id(id@, id@);
    }
}

/// Every request for an object goes to the bucket and the object that it is made
/// for.
pub proof fn law_requests_go_where_they_should(
    bucket: Seq<char>,
    key: Seq<char>,
    body: Bytes,
    mode: PutMode,
    version: Option<Seq<char>>,
    read: ReadObject,
    write: WriteObject,
    delete: DeleteObject,
    list: ListObjects,
)
    requires
        is_read_request(Ok::<ReadObject, ObjectStoreError>(read), bucket, key, version),
        is_write_request(Ok::<WriteObject, ObjectStoreError>(write), bucket, key, body, mode),
        is_delete_request(delete, bucket, key),
        is_list_request(list, bucket, key),
    ensures
        read.bucket@ == "projects/_/buckets/"@ + bucket,
        write.bucket@ == "projects/_/buckets/"@ + bucket,
        delete.bucket@ == "projects/_/buckets/"@ + bucket,
        list.parent@ == "projects/_/buckets/"@ + bucket,
        read.object@ == key,
        write.object@ == key,
        delete.object@ == key,
        list.prefix@ == key,
        bytes_content(write.body) == bytes_content(body),
{
    law_bucket_path_is_prefix_and_name(bucket);
    let path = bucket_resource(bucket);
    assert(path =~= path.take(19) + path.skip(19));
}

/// An overwrite succeeds whatever the service holds: it sets no condition.
pub proof fn law_overwrite_always_succeeds(
    bucket: Seq<char>,
    key: Seq<char>,
    body: Bytes,
    request: Result<WriteObject, ObjectStoreError>,
    objects: ServiceObjects,
    generation: i64,
)
    requires
        is_write_request(request, bucket, key, body, PutMode::Overwrite),
    ensures
        request is Ok,
        ({
            let (reply, after) = service_write(objects, request->Ok_0, generation);
            let place = (bucket_resource(bucket), key);
            &&& request->Ok_0.if_generation_match is None
            &&& reply == Ok::<i64, GcsError>(generation)
            &&& after == objects.insert(place, (generation, bytes_content(body)))
        }),
{
}

/// A write that succeeds changes the object that it is made for and no other.
pub proof fn law_writes_leave_other_objects(
    bucket: Seq<char>,
    key: Seq<char>,
    body: Bytes,
    mode: PutMode,
    write: WriteObject,
    objects: ServiceObjects,
    generation: i64,
    other_bucket: Seq<char>,
    other_key: Seq<char>,
    read: ReadObject,
)
    requires
        is_write_request(Ok::<WriteObject, ObjectStoreError>(write), bucket, key, body, mode),
        is_read_request(Ok::<ReadObject, ObjectStoreError>(read), other_bucket, other_key, None),
        bucket != other_bucket || key != other_key,
    ensures
        service_read(service_write(objects, write, generation).1, read) == service_read(
            objects,
            read,
        ),
{
    if bucket != other_bucket {
        law_bucket_paths_distinct(bucket, other_bucket);
    }
}

/// What a service holds that works, after a deletion.
pub open spec fn service_delete(objects: ServiceObjects, delete: DeleteObject) -> ServiceObjects {
    objects.remove((delete.bucket@, delete.object@))
}

/// An object that was deleted is not found any more.
pub proof fn law_deleted_objects_are_gone(
    bucket: Seq<char>,
    key: Seq<char>,
    delete: DeleteObject,
    read: ReadObject,
    version: Option<Seq<char>>,
    objects: ServiceObjects,
)
    requires
        is_delete_request(delete, bucket, key),
        is_read_request(Ok::<ReadObject, ObjectStoreError>(read), bucket, key, version),
    ensures
        store_result(service_read(service_delete(objects, delete), read)) == Err::<
            (i64, Seq<u8>),
            ObjectStoreError,
        >(ObjectStoreError::NotFound),
{
}

/// A version that is no number is refused with `Metadata`, in a read as in an
/// update; no request is made.
pub proof fn law_other_versions_are_refused(
    version: ObjectVersion,
    at: int,
    bucket: Seq<char>,
    key: Seq<char>,
    body: Bytes,
    read: Result<ReadObject, ObjectStoreError>,
    write: Result<WriteObject, ObjectStoreError>,
)
    requires
        version@.len() == 0 || (version@.len() == 1 && (version@[0] == '+' || version@[0] == '-'))
            || (0 <= at < version@.len() && !('0' <= version@[at] && version@[at] <= '9') && (at
            > 0 || (version@[0] != '+' && version@[0] != '-'))),
        is_read_request(read, bucket, key, Some(version@)),
        is_write_request(write, bucket, key, body, PutMode::Update(version)),
    ensures
        read == Err::<ReadObject, ObjectStoreError>(ObjectStoreError::Metadata),
        write == Err::<WriteObject, ObjectStoreError>(ObjectStoreError::Metadata),
{
    law_other_texts_do_not_parse(version@, at);
    assert(parsed_i64(version@) is None);
}

/// A failure of the service means to an object store what its status says: 412 and
/// 409 that the object is not as it should be, 304 that it has not changed, 404
/// that it is not there, and everything else that the request failed. A success
/// stays what it is.
pub proof fn law_statuses_keep_their_meaning<T>(value: T, status: Option<u16>)
    ensures
        store_result(Ok::<T, GcsError>(value)) == Ok::<T, ObjectStoreError>(value),
        ({
            let failed = store_result(Err::<T, GcsError>(GcsError { http_status_code: status }));
            &&& failed == Err::<T, ObjectStoreError>(ObjectStoreError::Precondition) <==> (status
                == Some(412u16) || status == Some(409u16))
            &&& failed == Err::<T, ObjectStoreError>(ObjectStoreError::NotModified) <==> status
                == Some(304u16)
            &&& failed == Err::<T, ObjectStoreError>(ObjectStoreError::NotFound) <==> status
                == Some(404u16)
            &&& failed == Err::<T, ObjectStoreError>(ObjectStoreError::Request) <==> status
                != Some(412u16) && status != Some(409u16) && status != Some(304u16) && status
                != Some(404u16)
        }),
{
}

/// A bucket exists where the service knows it, and does not exist where the service
/// answers 404. Any other answer leaves it open, and is a failure.
pub proof fn law_buckets_exist_where_the_service_says_so(status: Option<u16>)
    ensures
        bucket_exists(Ok(())) == Ok::<bool, ObjectStoreError>(true),
        status == Some(404u16) ==> bucket_exists(Err(GcsError { http_status_code: status })) == Ok::<
            bool,
            ObjectStoreError,
        >(false),
        status != Some(404u16) ==> bucket_exists(Err(GcsError { http_status_code: status })) is Err,
{
}

/// The version that a write gives asks for the generation that was written, in the
/// next read as in the next update. A write that fails gives no version.
pub proof fn law_written_version_asks_for_what_was_written(
    version: Result<ObjectVersion, ObjectStoreError>,
    reply: Result<i64, GcsError>,
)
    requires
        is_written_version(version, reply),
    ensures
        reply is Err ==> version is Err,
        reply matches Ok(generation) ==> version matches Ok(made) && read_condition(Some(made@))
            == Ok::<Option<i64>, ObjectStoreError>(Some(generation)) && write_condition(
            PutMode::Update(made),
        ) == Ok::<Option<i64>, ObjectStoreError>(Some(generation)),
{
    if let Ok(generation) = reply {
        law_version_asks_for_its_generation(version->Ok_0, generation);
    }
}

/// Both services are built at the endpoint that is given, and the client keeps both
/// handles and the project. A service that cannot be built is a configuration
/// error.
pub proof fn law_clients_are_built_as_asked<S, C>(
    build: BuildStorage,
    storage: S,
    control: C,
    client: Result<GcsClient<S, C>, ObjectStoreError>,
)
    requires
        build.after(Ok::<S, ClientBuildError>(storage)) is Ok,
        build.after(Ok::<S, ClientBuildError>(storage))->Ok_0.finishes(
            Ok::<C, ClientBuildError>(control),
            client,
        ),
    ensures
        build.after(Ok::<S, ClientBuildError>(storage))->Ok_0.endpoint == build.endpoint,
        client matches Ok(c) && c.spec_storage() == storage && c.spec_control() == control
            && c.spec_project_id() == build.project_id,
        build.after(Err::<S, ClientBuildError>(ClientBuildError)) is Err,
        build.after(Err::<S, ClientBuildError>(ClientBuildError))->Err_0
            == ObjectStoreError::Configuration,
{
}

/// What is said of a listing is said of its names.
pub proof fn law_listings_are_their_names(names: Vec<String>, failure: ObjectStoreError)
    ensures
        ListStep::Done(Ok(names))@ == ListModel::Done(Ok::<Seq<String>, ObjectStoreError>(names@)),
        ListStep::Done(Err(failure))@ == ListModel::Done(
            Err::<Seq<String>, ObjectStoreError>(failure),
        ),
{
}

/// What is said of a body that is read is said of its bytes.
pub proof fn law_bodies_are_their_bytes(
    chunk: Bytes,
    error: GcsError,
    generation: i64,
    version: ObjectVersion,
    failure: ObjectStoreError,
)
    ensures
        BodyEvent::Chunk(Ok(chunk))@ == BodyInput::Chunk(
            Ok::<Seq<u8>, GcsError>(bytes_content(chunk)),
        ),
        BodyEvent::Chunk(Err(error))@ == BodyInput::Chunk(Err::<Seq<u8>, GcsError>(error)),
        (BodyEvent::End { generation })@ == (BodyInput::End { generation }),
        BodyStep::Done(Ok((version, chunk)))@ == BodyModel::Done(
            Ok::<(Seq<char>, Seq<u8>), ObjectStoreError>((version.0@, bytes_content(chunk))),
        ),
        BodyStep::Done(Err(failure))@ == BodyModel::Done(
            Err::<(Seq<char>, Seq<u8>), ObjectStoreError>(failure),
        ),
{
}

} // verus!
