//! Google Cloud Storage as an object store.
//!
//! Google Cloud Storage counts the generations of an object, and a request can
//! ask for one of them. The generation, as a decimal number, is the version of
//! an object here:
//!
//! * reading a version, or updating one, asks for its generation;
//! * creating an object asks for generation 0, which no object has.
//!
//! The client holds the handles of the storage and the control service, but
//! talks to neither. Each operation gives the request to send; whoever sends it
//! hands the reply back.

use bytes::Bytes;
use vstd::prelude::*;

use crate::buffer::{bytes_content, BodyBuffer};
use crate::decimal::{parse_i64, parsed_i64, signed_decimal, signed_text};
use crate::object_store::{
    version_text, DeleteOptions, GetOptions, ObjectStoreError, ObjectVersion, PutMode, PutOptions,
};

verus! {

/// Why the service did not do what it was asked for: the HTTP status of its
/// reply, if there was one.
#[derive(Clone, Copy, Debug, PartialEq, Eq, Structural)]
pub struct GcsError {
    pub http_status_code: Option<u16>,
}

/// A client of the service could not be built.
#[derive(Clone, Copy, Debug, PartialEq, Eq, Structural)]
pub struct ClientBuildError;

/// What a failure of the service means to an object store. A generation that
/// does not match gives 412, a race to create gives 409, an object that has not
/// changed gives 304.
pub open spec fn error_of_status(status: Option<u16>) -> ObjectStoreError {
    if status == Some(412u16) || status == Some(409u16) {
        ObjectStoreError::Precondition
    } else if status == Some(304u16) {
        ObjectStoreError::NotModified
    } else if status == Some(404u16) {
        ObjectStoreError::NotFound
    } else {
        ObjectStoreError::Request
    }
}

/// A reply of the service, with its failure as an object store means it.
pub open spec fn store_result<T>(reply: Result<T, GcsError>) -> Result<T, ObjectStoreError> {
    match reply {
        Ok(value) => Ok(value),
        Err(error) => Err(error_of_status(error.http_status_code)),
    }
}

/// The resource path of a bucket.
pub open spec fn bucket_resource(name: Seq<char>) -> Seq<char> {
    "projects/_/buckets/"@ + name
}

/// The resource path of a project.
pub open spec fn project_resource(project_id: Seq<char>) -> Seq<char> {
    "projects/"@ + project_id
}

/// The generation that a version stands for.
pub open spec fn generation_of(version: Seq<char>) -> Result<i64, ObjectStoreError> {
    match parsed_i64(version) {
        Some(generation) => Ok(generation),
        None => Err(ObjectStoreError::Metadata),
    }
}

/// The generation that a read asks for, if it asks for one.
pub open spec fn read_condition(version: Option<Seq<char>>) -> Result<
    Option<i64>,
    ObjectStoreError,
> {
    match version {
        None => Ok(None),
        Some(v) => match generation_of(v) {
            Ok(generation) => Ok(Some(generation)),
            Err(e) => Err(e),
        },
    }
}

/// The generation that a write asks for, if it asks for one.
pub open spec fn write_condition(mode: PutMode) -> Result<Option<i64>, ObjectStoreError> {
    match mode {
        PutMode::Overwrite => Ok(None),
        PutMode::Create => Ok(Some(0)),
        PutMode::Update(version) => match generation_of(version@) {
            Ok(generation) => Ok(Some(generation)),
            Err(e) => Err(e),
        },
    }
}

/// A reply of the service, with its failure as an object store means it.
pub fn change_to_object_store_context<T>(reply: Result<T, GcsError>) -> (result: Result<
    T,
    ObjectStoreError,
>)
    ensures
        result == store_result(reply),
{
    match reply {
        Ok(value) => Ok(value),
        Err(error) => match error.http_status_code {
            Some(412) | Some(409) => Err(ObjectStoreError::Precondition),
            Some(304) => Err(ObjectStoreError::NotModified),
            Some(404) => Err(ObjectStoreError::NotFound),
            _ => Err(ObjectStoreError::Request),
        },
    }
}

/// The resource path of the bucket with the given name.
pub fn bucket_path(name: &str) -> (path: String)
    ensures
        path@ == bucket_resource(name@),
{
    let mut path: String = String::new();
    path.append("projects/_/buckets/");
    path.append(name);
    assert(path@ =~= bucket_resource(name@));
    path
}

/// The generation that a version stands for. A version that is no decimal number
/// did not come from this service.
pub fn parse_generation(version: &ObjectVersion) -> (generation: Result<i64, ObjectStoreError>)
    ensures
        generation == generation_of(version@),
{
    match parse_i64(version.0.as_str()) {
        Some(generation) => Ok(generation),
        None => Err(ObjectStoreError::Metadata),
    }
}

/// The version that stands for a generation.
pub fn version_of_generation(generation: i64) -> (version: ObjectVersion)
    ensures
        version@ == signed_text(generation as int),
{
    ObjectVersion(signed_decimal(generation))
}

/// A storage client to be built.
#[derive(Debug)]
pub struct BuildStorage {
    /// Where the service is, if not at its usual place.
    pub endpoint: Option<String>,
    pub project_id: Option<String>,
}

/// A control client to be built, once the storage client is there.
#[derive(Debug)]
pub struct BuildControl<S> {
    pub storage: S,
    /// Where the service is, if not at its usual place.
    pub endpoint: Option<String>,
    pub project_id: Option<String>,
}

impl BuildStorage {
    /// What follows: the control client is to be built, at the same place and for
    /// the same project.
    pub open spec fn after<S>(self, built: Result<S, ClientBuildError>) -> Result<
        BuildControl<S>,
        ObjectStoreError,
    > {
        match built {
            Ok(storage) => Ok(
                BuildControl { storage, endpoint: self.endpoint, project_id: self.project_id },
            ),
            Err(_) => Err(ObjectStoreError::Configuration),
        }
    }

    /// Goes on with the storage client.
    pub fn resume<S>(self, built: Result<S, ClientBuildError>) -> (next: Result<
        BuildControl<S>,
        ObjectStoreError,
    >)
        ensures
            next == self.after(built),
    {
        match built {
            Ok(storage) => Ok(
                BuildControl { storage, endpoint: self.endpoint, project_id: self.project_id },
            ),
            Err(_) => Err(ObjectStoreError::Configuration),
        }
    }
}

impl<S> BuildControl<S> {
    /// Whether `client` is what follows: a client on both handles, for the project.
    pub open spec fn finishes<C>(
        self,
        built: Result<C, ClientBuildError>,
        client: Result<GcsClient<S, C>, ObjectStoreError>,
    ) -> bool {
        match built {
            Ok(control) => client matches Ok(c) && c.spec_storage() == self.storage
                && c.spec_control() == control && c.spec_project_id() == self.project_id,
            Err(_) => client == Err::<GcsClient<S, C>, ObjectStoreError>(
                ObjectStoreError::Configuration,
            ),
        }
    }

    /// Goes on with the control client.
    pub fn resume<C>(self, built: Result<C, ClientBuildError>) -> (client: Result<
        GcsClient<S, C>,
        ObjectStoreError,
    >)
        ensures
            self.finishes(built, client),
    {
        match built {
            Ok(control) => Ok(GcsClient::from_clients(self.storage, control, self.project_id)),
            Err(_) => Err(ObjectStoreError::Configuration),
        }
    }
}

/// A request for the metadata of a bucket.
#[derive(Debug)]
pub struct GetBucket {
    pub name: String,
}

/// What a reply to the request for a bucket says: whether the bucket exists.
pub open spec fn bucket_exists(reply: Result<(), GcsError>) -> Result<bool, ObjectStoreError> {
    match store_result(reply) {
        Ok(_) => Ok(true),
        Err(ObjectStoreError::NotFound) => Ok(false),
        Err(error) => Err(error),
    }
}

impl GetBucket {
    /// Whether the bucket exists, by the reply of the service.
    pub fn resume(self, reply: Result<(), GcsError>) -> (exists: Result<bool, ObjectStoreError>)
        ensures
            exists == bucket_exists(reply),
    {
        match change_to_object_store_context(reply) {
            Ok(_) => Ok(true),
            Err(error) => {
                if error.is_not_found() {
                    Ok(false)
                } else {
                    Err(error)
                }
            },
        }
    }
}

/// A request to create a bucket.
#[derive(Debug)]
pub struct CreateBucket {
    pub parent: String,
    pub bucket_id: String,
}

/// What the request to create a bucket is: the bucket is created in the project;
/// without a project there is none.
pub open spec fn is_create_request(
    request: Result<CreateBucket, ObjectStoreError>,
    project_id: Option<String>,
    name: Seq<char>,
) -> bool {
    match project_id {
        Some(project_id) => request matches Ok(create) && create.parent@ == project_resource(
            project_id@,
        ) && create.bucket_id@ == name,
        None => request == Err::<CreateBucket, ObjectStoreError>(ObjectStoreError::Configuration),
    }
}

impl CreateBucket {
    /// Goes on with the reply of the service.
    pub fn resume(self, reply: Result<(), GcsError>) -> (result: Result<(), ObjectStoreError>)
        ensures
            result == store_result(reply),
    {
        change_to_object_store_context(reply)
    }
}

/// A request to read an object.
#[derive(Debug)]
pub struct ReadObject {
    pub bucket: String,
    pub object: String,
    pub if_generation_match: Option<i64>,
}

/// What the request to read an object is: it asks for the generation of the
/// version, if one is wanted; there is none where the version stands for no
/// generation.
pub open spec fn is_read_request(
    request: Result<ReadObject, ObjectStoreError>,
    bucket: Seq<char>,
    key: Seq<char>,
    version: Option<Seq<char>>,
) -> bool {
    match read_condition(version) {
        Ok(condition) => request matches Ok(read) && read.bucket@ == bucket_resource(bucket)
            && read.object@ == key && read.if_generation_match == condition,
        Err(error) => request == Err::<ReadObject, ObjectStoreError>(error),
    }
}

impl ReadObject {
    /// Goes on with the reply of the service: the body is to be read.
    pub fn resume(self, reply: Result<(), GcsError>) -> (body: Result<ReadBody, ObjectStoreError>)
        ensures
            match store_result(reply) {
                Ok(_) => body matches Ok(b) && b.content() == Seq::<u8>::empty(),
                Err(error) => body == Err::<ReadBody, ObjectStoreError>(error),
            },
    {
        match change_to_object_store_context(reply) {
            Ok(_) => Ok(ReadBody { output: BodyBuffer::new() }),
            Err(error) => Err(error),
        }
    }
}

/// What comes in while a body is read.
#[derive(Debug)]
pub enum BodyEvent {
    /// A chunk of the body, or a failure to get one.
    Chunk(Result<Bytes, GcsError>),
    /// The body is complete; the object is of this generation.
    End { generation: i64 },
}

/// The body of an object while it is read.
pub struct ReadBody {
    output: BodyBuffer,
}

/// How far the body of an object has been read.
pub enum BodyStep {
    /// The next chunk is to be read.
    Next(ReadBody),
    /// The version of the object and its body, or why there is none.
    Done(Result<(ObjectVersion, Bytes), ObjectStoreError>),
}

/// What comes in while a body is read, by the bytes in it.
pub enum BodyInput {
    Chunk(Result<Seq<u8>, GcsError>),
    End { generation: i64 },
}

/// How far a body has been read: the bytes so far, or the version and the bytes
/// of the object.
pub enum BodyModel {
    Next(Seq<u8>),
    Done(Result<(Seq<char>, Seq<u8>), ObjectStoreError>),
}

impl View for BodyEvent {
    type V = BodyInput;

    open spec fn view(&self) -> BodyInput {
        match *self {
            BodyEvent::Chunk(Ok(chunk)) => BodyInput::Chunk(Ok(bytes_content(chunk))),
            BodyEvent::Chunk(Err(error)) => BodyInput::Chunk(Err(error)),
            BodyEvent::End { generation } => BodyInput::End { generation },
        }
    }
}

impl View for BodyStep {
    type V = BodyModel;

    open spec fn view(&self) -> BodyModel {
        match *self {
            BodyStep::Next(body) => BodyModel::Next(body.content()),
            BodyStep::Done(Ok(object)) => BodyModel::Done(
                Ok((object.0@, bytes_content(object.1))),
            ),
            BodyStep::Done(Err(error)) => BodyModel::Done(Err(error)),
        }
    }
}

/// What follows when something comes in while a body is read.
pub open spec fn after_input(content: Seq<u8>, input: BodyInput) -> BodyModel {
    match input {
        BodyInput::Chunk(Ok(chunk)) => BodyModel::Next(content + chunk),
        BodyInput::Chunk(Err(error)) => BodyModel::Done(
            Err(error_of_status(error.http_status_code)),
        ),
        BodyInput::End { generation } => BodyModel::Done(
            Ok((signed_text(generation as int), content)),
        ),
    }
}

impl ReadBody {
    /// What has come in so far.
    pub closed spec fn content(self) -> Seq<u8> {
        self.output.content()
    }

    /// Whether there is room for a chunk.
    pub fn has_room_for(&self, chunk: &Bytes) -> (room: bool)
        ensures
            room == (self.content().len() + bytes_content(*chunk).len() <= isize::MAX / 2),
    {
        self.output.has_room_for(chunk)
    }

    /// Goes on with what came in. There must be room for a chunk, as
    /// `has_room_for` tells.
    pub fn resume(self, event: BodyEvent) -> (step: BodyStep)
        requires
            event matches BodyEvent::Chunk(Ok(chunk)) ==> self.content().len()
                + bytes_content(chunk).len() <= isize::MAX / 2,
        ensures
            step@ == after_input(self.content(), event@),
    {
        match event {
            BodyEvent::Chunk(chunk) => match change_to_object_store_context(chunk) {
                Ok(chunk) => {
                    let mut output: BodyBuffer = self.output;
                    output.push_chunk(&chunk);
                    BodyStep::Next(ReadBody { output })
                },
                Err(error) => BodyStep::Done(Err(error)),
            },
            BodyEvent::End { generation } => BodyStep::Done(
                Ok((version_of_generation(generation), self.output.freeze())),
            ),
        }
    }
}

/// A request to write an object.
#[derive(Debug)]
pub struct WriteObject {
    pub bucket: String,
    pub object: String,
    pub body: Bytes,
    pub if_generation_match: Option<i64>,
}

/// What the request to write an object is: it asks for the generation that the
/// mode sets; there is none where the mode holds a version that stands for no
/// generation.
pub open spec fn is_write_request(
    request: Result<WriteObject, ObjectStoreError>,
    bucket: Seq<char>,
    key: Seq<char>,
    body: Bytes,
    mode: PutMode,
) -> bool {
    match write_condition(mode) {
        Ok(condition) => request matches Ok(write) && write.bucket@ == bucket_resource(bucket)
            && write.object@ == key && write.body == body && write.if_generation_match
            == condition,
        Err(error) => request == Err::<WriteObject, ObjectStoreError>(error),
    }
}

/// Whether `version` is what a reply to a write gives: the version of the new
/// object, which stands for its generation.
pub open spec fn is_written_version(
    version: Result<ObjectVersion, ObjectStoreError>,
    reply: Result<i64, GcsError>,
) -> bool {
    match store_result(reply) {
        Ok(generation) => version matches Ok(v) && v@ == signed_text(generation as int),
        Err(error) => version == Err::<ObjectVersion, ObjectStoreError>(error),
    }
}

impl WriteObject {
    /// Goes on with the reply of the service, which gives the generation of the
    /// new object.
    pub fn resume(self, reply: Result<i64, GcsError>) -> (version: Result<
        ObjectVersion,
        ObjectStoreError,
    >)
        ensures
            is_written_version(version, reply),
    {
        match change_to_object_store_context(reply) {
            Ok(generation) => Ok(version_of_generation(generation)),
            Err(error) => Err(error),
        }
    }
}

/// A request for the objects of a bucket whose names start with a prefix.
#[derive(Debug)]
pub struct ListObjects {
    pub parent: String,
    pub prefix: String,
}

/// What the request for the objects of a bucket is.
pub open spec fn is_list_request(
    request: ListObjects,
    bucket: Seq<char>,
    prefix: Seq<char>,
) -> bool {
    request.parent@ == bucket_resource(bucket) && request.prefix@ == prefix
}

impl ListObjects {
    /// Goes on with the names that come in: there are none yet.
    pub fn start(self) -> (listing: Listing)
        ensures
            listing.names() == Seq::<String>::empty(),
    {
        Listing { object_ids: Vec::new() }
    }
}

/// The names of objects while they are listed.
pub struct Listing {
    object_ids: Vec<String>,
}

/// How far a listing has come.
pub enum ListStep {
    /// The next name is to be read.
    Next(Listing),
    /// All names, in the order in which they came, or why there are none.
    Done(Result<Vec<String>, ObjectStoreError>),
}

/// How far a listing has come: the names so far, or all of them.
pub enum ListModel {
    Next(Seq<String>),
    Done(Result<Seq<String>, ObjectStoreError>),
}

impl View for ListStep {
    type V = ListModel;

    open spec fn view(&self) -> ListModel {
        match *self {
            ListStep::Next(listing) => ListModel::Next(listing.names()),
            ListStep::Done(Ok(names)) => ListModel::Done(Ok(names@)),
            ListStep::Done(Err(error)) => ListModel::Done(Err(error)),
        }
    }
}

/// What follows when something comes in while objects are listed.
pub open spec fn after_item(names: Seq<String>, item: Option<Result<String, GcsError>>) -> ListModel {
    match item {
        Some(Ok(name)) => ListModel::Next(names.push(name)),
        Some(Err(error)) => ListModel::Done(Err(error_of_status(error.http_status_code))),
        None => ListModel::Done(Ok(names)),
    }
}

impl Listing {
    /// The names that have come in so far.
    pub closed spec fn names(self) -> Seq<String> {
        self.object_ids@
    }

    /// Goes on with what came in: a name, a failure to get one, or the end.
    pub fn resume(self, item: Option<Result<String, GcsError>>) -> (step: ListStep)
        ensures
            step@ == after_item(self.names(), item),
    {
        match item {
            Some(item) => match change_to_object_store_context(item) {
                Ok(name) => {
                    let mut object_ids: Vec<String> = self.object_ids;
                    object_ids.push(name);
                    ListStep::Next(Listing { object_ids })
                },
                Err(error) => ListStep::Done(Err(error)),
            },
            None => ListStep::Done(Ok(self.object_ids)),
        }
    }
}

/// A request to delete an object.
#[derive(Debug)]
pub struct DeleteObject {
    pub bucket: String,
    pub object: String,
}

/// What the request to delete an object is.
pub open spec fn is_delete_request(
    request: DeleteObject,
    bucket: Seq<char>,
    key: Seq<char>,
) -> bool {
    request.bucket@ == bucket_resource(bucket) && request.object@ == key
}

impl DeleteObject {
    /// Goes on with the reply of the service.
    pub fn resume(self, reply: Result<(), GcsError>) -> (result: Result<(), ObjectStoreError>)
        ensures
            result == store_result(reply),
    {
        change_to_object_store_context(reply)
    }
}

/// Google Cloud Storage backend: the handles of the storage and the control
/// service.
#[derive(Clone)]
pub struct GcsClient<S, C> {
    storage: S,
    control: C,
    /// Needed only to create buckets.
    project_id: Option<String>,
}

impl<S, C> GcsClient<S, C> {
    /// The handle of the storage service.
    pub closed spec fn spec_storage(self) -> S {
        self.storage
    }

    /// The handle of the control service.
    pub closed spec fn spec_control(self) -> C {
        self.control
    }

    /// The project in which buckets are created.
    pub closed spec fn spec_project_id(self) -> Option<String> {
        self.project_id
    }

    /// A client on the given handles.
    pub fn from_clients(storage: S, control: C, project_id: Option<String>) -> (client: Self)
        ensures
            client.spec_storage() == storage,
            client.spec_control() == control,
            client.spec_project_id() == project_id,
    {
        GcsClient { storage, control, project_id }
    }

    /// Starts to build a client; both services are at the endpoint, if one is
    /// given.
    pub fn new(project_id: Option<String>, endpoint: Option<String>) -> (build: BuildStorage)
        ensures
            build == (BuildStorage { endpoint, project_id }),
    {
        BuildStorage { endpoint, project_id }
    }

    /// The handle of the storage service.
    pub fn storage(&self) -> (storage: &S)
        ensures
            *storage == self.spec_storage(),
    {
        &self.storage
    }

    /// The handle of the control service.
    pub fn control(&self) -> (control: &C)
        ensures
            *control == self.spec_control(),
    {
        &self.control
    }

    /// Asks whether a bucket exists.
    pub fn has_bucket(&self, name: &str) -> (request: GetBucket)
        ensures
            request.name@ == bucket_resource(name@),
    {
        GetBucket { name: bucket_path(name) }
    }

    /// Asks for a bucket to be created in the client's project. Without a project
    /// the client cannot do that.
    pub fn create_bucket(&self, name: &str) -> (request: Result<CreateBucket, ObjectStoreError>)
        ensures
            is_create_request(request, self.spec_project_id(), name@),
    {
        match &self.project_id {
            Some(project_id) => {
                let mut parent: String = String::new();
                parent.append("projects/");
                parent.append(project_id.as_str());
                assert(parent@ =~= project_resource(project_id@));
                Ok(CreateBucket { parent, bucket_id: name.to_owned() })
            },
            None => Err(ObjectStoreError::Configuration),
        }
    }

    /// Asks for an object, or for one version of it.
    pub fn get_object(&self, bucket: &str, key: &str, options: GetOptions) -> (request: Result<
        ReadObject,
        ObjectStoreError,
    >)
        ensures
            is_read_request(request, bucket@, key@, version_text(options.version)),
    {
        let if_generation_match: Option<i64> = match &options.version {
            Some(version) => match parse_generation(version) {
                Ok(generation) => Some(generation),
                Err(error) => return Err(error),
            },
            None => None,
        };
        Ok(
            ReadObject {
                bucket: bucket_path(bucket),
                object: key.to_owned(),
                if_generation_match,
            },
        )
    }

    /// Asks for an object to be written, on the condition that the mode sets.
    pub fn put_object(&self, bucket: &str, key: &str, body: Bytes, options: PutOptions) -> (request:
        Result<WriteObject, ObjectStoreError>)
        ensures
            is_write_request(request, bucket@, key@, body, options.mode),
    {
        let if_generation_match: Option<i64> = match &options.mode {
            PutMode::Overwrite => None,
            PutMode::Create => Some(0),
            PutMode::Update(version) => match parse_generation(version) {
                Ok(generation) => Some(generation),
                Err(error) => return Err(error),
            },
        };
        Ok(
            WriteObject {
                bucket: bucket_path(bucket),
                object: key.to_owned(),
                body,
                if_generation_match,
            },
        )
    }

    /// Asks for the names of the objects that start with a prefix.
    pub fn list_objects(&self, bucket: &str, prefix: &str) -> (request: ListObjects)
        ensures
            is_list_request(request, bucket@, prefix@),
    {
        ListObjects { parent: bucket_path(bucket), prefix: prefix.to_owned() }
    }

    /// Asks for an object to be deleted.
    pub fn delete_object(&self, bucket: &str, key: &str, _options: DeleteOptions) -> (request:
        DeleteObject)
        ensures
            is_delete_request(request, bucket@, key@),
    {
        DeleteObject { bucket: bucket_path(bucket), object: key.to_owned() }
    }
}

} // verus!
