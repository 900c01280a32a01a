//! One client for all object stores: every request goes, as it is, to the
//! backend that the client was made from.

use bytes::Bytes;
use vstd::prelude::*;
use vstd::std_specs::convert::{FromSpec, FromSpecImpl};

use crate::gcs::GcsClient;
use crate::object_store::{DeleteOptions, GetOptions, PutOptions};

verus! {

/// The handle of an Amazon S3 client.
#[derive(Clone)]
pub struct AwsS3Client<H>(pub H);

/// The handle of an Azure Blob Storage client.
#[derive(Clone)]
pub struct AzureBlobClient<H>(pub H);

/// A client of one of the object stores.
#[derive(Clone)]
pub enum ObjectStoreClient<A, Z, S, C> {
    AwsS3(AwsS3Client<A>),
    AzureBlob(Box<AzureBlobClient<Z>>),
    Gcs(Box<GcsClient<S, C>>),
}

/// The backend that a request goes to.
pub enum Backend<'a, A, Z, S, C> {
    AwsS3(&'a AwsS3Client<A>),
    AzureBlob(&'a AzureBlobClient<Z>),
    Gcs(&'a GcsClient<S, C>),
}

/// A request to an object store.
pub enum ObjectStoreRequest<'a> {
    HasBucket { name: &'a str },
    CreateBucket { name: &'a str },
    GetObject { bucket: &'a str, key: &'a str, options: GetOptions },
    PutObject { bucket: &'a str, key: &'a str, body: Bytes, options: PutOptions },
    ListObjects { bucket: &'a str, prefix: &'a str },
    DeleteObject { bucket: &'a str, key: &'a str, options: DeleteOptions },
}

/// A request, and the backend that it goes to.
pub struct Routed<'a, A, Z, S, C> {
    pub backend: Backend<'a, A, Z, S, C>,
    pub request: ObjectStoreRequest<'a>,
}

impl<A, Z, S, C> ObjectStoreClient<A, Z, S, C> {
    /// The backend that this client was made from.
    pub open spec fn spec_backend(&self) -> Backend<'_, A, Z, S, C> {
        match self {
            ObjectStoreClient::AwsS3(client) => Backend::AwsS3(client),
            ObjectStoreClient::AzureBlob(client) => Backend::AzureBlob(&**client),
            ObjectStoreClient::Gcs(client) => Backend::Gcs(&**client),
        }
    }

    /// The backend that this client was made from.
    fn backend(&self) -> (backend: Backend<'_, A, Z, S, C>)
        ensures
            backend == self.spec_backend(),
    {
        match self {
            ObjectStoreClient::AwsS3(client) => Backend::AwsS3(client),
            ObjectStoreClient::AzureBlob(client) => Backend::AzureBlob(&**client),
            ObjectStoreClient::Gcs(client) => Backend::Gcs(&**client),
        }
    }

    /// Asks the backend whether a bucket exists.
    pub fn has_bucket<'a>(&'a self, name: &'a str) -> (call: Routed<'a, A, Z, S, C>)
        ensures
            call.backend == self.spec_backend(),
            call.request == (ObjectStoreRequest::HasBucket { name }),
    {
        Routed { backend: self.backend(), request: ObjectStoreRequest::HasBucket { name } }
    }

    /// Asks the backend to create a bucket.
    pub fn create_bucket<'a>(&'a self, name: &'a str) -> (call: Routed<'a, A, Z, S, C>)
        ensures
            call.backend == self.spec_backend(),
            call.request == (ObjectStoreRequest::CreateBucket { name }),
    {
        Routed { backend: self.backend(), request: ObjectStoreRequest::CreateBucket { name } }
    }

    /// Asks the backend for an object.
    pub fn get_object<'a>(&'a self, bucket: &'a str, key: &'a str, options: GetOptions) -> (call:
        Routed<'a, A, Z, S, C>)
        ensures
            call.backend == self.spec_backend(),
            call.request == (ObjectStoreRequest::GetObject { bucket, key, options }),
    {
        Routed {
            backend: self.backend(),
            request: ObjectStoreRequest::GetObject { bucket, key, options },
        }
    }

    /// Asks the backend to write an object.
    pub fn put_object<'a>(
        &'a self,
        bucket: &'a str,
        key: &'a str,
        body: Bytes,
        options: PutOptions,
    ) -> (call: Routed<'a, A, Z, S, C>)
        ensures
            call.backend == self.spec_backend(),
            call.request == (ObjectStoreRequest::PutObject { bucket, key, body, options }),
    {
        Routed {
            backend: self.backend(),
            request: ObjectStoreRequest::PutObject { bucket, key, body, options },
        }
    }

    /// Asks the backend for the names of objects.
    pub fn list_objects<'a>(&'a self, bucket: &'a str, prefix: &'a str) -> (call: Routed<
        'a,
        A,
        Z,
        S,
        C,
    >)
        ensures
            call.backend == self.spec_backend(),
            call.request == (ObjectStoreRequest::ListObjects { bucket, prefix }),
    {
        Routed {
            backend: self.backend(),
            request: ObjectStoreRequest::ListObjects { bucket, prefix },
        }
    }

    /// Asks the backend to delete an object.
    pub fn delete_object<'a>(&'a self, bucket: &'a str, key: &'a str, options: DeleteOptions) -> (call:
        Routed<'a, A, Z, S, C>)
        ensures
            call.backend == self.spec_backend(),
            call.request == (ObjectStoreRequest::DeleteObject { bucket, key, options }),
    {
        Routed {
            backend: self.backend(),
            request: ObjectStoreRequest::DeleteObject { bucket, key, options },
        }
    }
}

impl<A, Z, S, C> From<AwsS3Client<A>> for ObjectStoreClient<A, Z, S, C> {
    fn from(client: AwsS3Client<A>) -> (made: Self) {
        ObjectStoreClient::AwsS3(client)
    }
}

impl<A, Z, S, C> FromSpecImpl<AwsS3Client<A>> for ObjectStoreClient<A, Z, S, C> {
    open spec fn obeys_from_spec() -> bool {
        true
    }

    open spec fn from_spec(client: AwsS3Client<A>) -> Self {
        ObjectStoreClient::AwsS3(client)
    }
}

impl<A, Z, S, C> From<AzureBlobClient<Z>> for ObjectStoreClient<A, Z, S, C> {
    fn from(client: AzureBlobClient<Z>) -> (made: Self) {
        ObjectStoreClient::AzureBlob(Box::new(client))
    }
}

impl<A, Z, S, C> FromSpecImpl<AzureBlobClient<Z>> for ObjectStoreClient<A, Z, S, C> {
    open spec fn obeys_from_spec() -> bool {
        true
    }

    open spec fn from_spec(client: AzureBlobClient<Z>) -> Self {
        ObjectStoreClient::AzureBlob(Box::new(client))
    }
}

impl<A, Z, S, C> From<GcsClient<S, C>> for ObjectStoreClient<A, Z, S, C> {
    fn from(client: GcsClient<S, C>) -> (made: Self) {
        ObjectStoreClient::Gcs(Box::new(client))
    }
}

impl<A, Z, S, C> FromSpecImpl<GcsClient<S, C>> for ObjectStoreClient<A, Z, S, C> {
    open spec fn obeys_from_spec() -> bool {
        true
    }

    open spec fn from_spec(client: GcsClient<S, C>) -> Self {
        ObjectStoreClient::Gcs(Box::new(client))
    }
}

/// A client that is made from a backend sends its requests there.
pub proof fn law_requests_go_to_the_backend<A, Z, S, C>(
    s3: AwsS3Client<A>,
    azure: AzureBlobClient<Z>,
    gcs: GcsClient<S, C>,
)
    ensures
        <ObjectStoreClient<A, Z, S, C> as FromSpec<AwsS3Client<A>>>::from_spec(
            s3,
        ).spec_backend() == Backend::<A, Z, S, C>::AwsS3(&s3),
        <ObjectStoreClient<A, Z, S, C> as FromSpec<AzureBlobClient<Z>>>::from_spec(
            azure,
        ).spec_backend() == Backend::<A, Z, S, C>::AzureBlob(&azure),
        <ObjectStoreClient<A, Z, S, C> as FromSpec<GcsClient<S, C>>>::from_spec(
            gcs,
        ).spec_backend() == Backend::<A, Z, S, C>::Gcs(&gcs),
{
}

} // verus!
