use apibara_dna::client::{
    AwsS3Client, AzureBlobClient, Backend, ObjectStoreClient, ObjectStoreRequest, Routed,
};
use apibara_dna::gcs::GcsClient;
use apibara_dna::object_store::{DeleteOptions, GetOptions, PutMode, PutOptions};
use bytes::Bytes;

type Client = ObjectStoreClient<u8, u16, u32, u64>;

fn clients() -> [Client; 3] {
    [
        Client::from(AwsS3Client(1u8)),
        Client::from(AzureBlobClient(2u16)),
        Client::from(GcsClient::from_clients(3u32, 4u64, None)),
    ]
}

fn handle(call: &Routed<'_, u8, u16, u32, u64>) -> u64 {
    match &call.backend {
        Backend::AwsS3(client) => client.0 as u64,
        Backend::AzureBlob(client) => client.0 as u64,
        Backend::Gcs(client) => *client.storage() as u64,
    }
}

#[test]
fn requests_go_to_the_backend_of_the_client() {
    for (client, wanted) in clients().iter().zip([1u64, 2, 3]) {
        assert_eq!(handle(&client.has_bucket("b")), wanted);
        assert_eq!(handle(&client.create_bucket("b")), wanted);
        assert_eq!(handle(&client.get_object("b", "k", GetOptions { version: None })), wanted);
        let put = client.put_object("b", "k", Bytes::new(), PutOptions::default());
        assert_eq!(handle(&put), wanted);
        assert_eq!(handle(&client.list_objects("b", "p")), wanted);
        assert_eq!(handle(&client.delete_object("b", "k", DeleteOptions)), wanted);
    }
}

#[test]
fn requests_are_passed_on_as_they_are() {
    let client = Client::from(AwsS3Client(1u8));
    assert!(matches!(
        client.has_bucket("b").request,
        ObjectStoreRequest::HasBucket { name: "b" }
    ));
    assert!(matches!(
        client.create_bucket("c").request,
        ObjectStoreRequest::CreateBucket { name: "c" }
    ));
    assert!(matches!(
        client.get_object("b", "k", GetOptions { version: None }).request,
        ObjectStoreRequest::GetObject { bucket: "b", key: "k", options: GetOptions { version: None } }
    ));
    let options = PutOptions { mode: PutMode::Create };
    match client.put_object("b", "k", Bytes::from_static(b"body"), options).request {
        ObjectStoreRequest::PutObject { bucket, key, body, options } => {
            assert_eq!(bucket, "b");
            assert_eq!(key, "k");
            assert_eq!(&body[..], b"body");
            assert!(matches!(options.mode, PutMode::Create));
        }
        _ => panic!("a write was asked for"),
    }
    assert!(matches!(
        client.list_objects("b", "p").request,
        ObjectStoreRequest::ListObjects { bucket: "b", prefix: "p" }
    ));
    assert!(matches!(
        client.delete_object("b", "k", DeleteOptions).request,
        ObjectStoreRequest::DeleteObject { bucket: "b", key: "k", .. }
    ));
}
