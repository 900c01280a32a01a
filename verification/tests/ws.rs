use apibara_dna::block_id::{BlockHash, ConfirmedBlockId};
use apibara_dna::ws::{
    head_or_timeout, heads_action, Elapsed, HeadsAction, Message, NewHeadMessage, NewHeadsStream,
    StarknetProviderError, StreamPoll, SubscribeRequest, WsError,
};

type Heads = NewHeadsStream<&'static str>;

fn hash(tail: &[u8]) -> BlockHash {
    let mut bytes = [0u8; 32];
    bytes[32 - tail.len()..].copy_from_slice(tail);
    BlockHash::from_bytes_be(bytes).unwrap()
}

fn params(block_id: ConfirmedBlockId) -> String {
    let text = SubscribeRequest { block_id }.into_string();
    let head = r#"{"jsonrpc":"2.0","method":"starknet_subscribeNewHeads","params":["#;
    text.strip_prefix(head).unwrap().strip_suffix("]}").unwrap().to_string()
}

#[test]
fn subscription_to_the_latest_block() {
    assert_eq!(
        SubscribeRequest { block_id: ConfirmedBlockId::Latest }.into_string(),
        r#"{"jsonrpc":"2.0","method":"starknet_subscribeNewHeads","params":["latest"]}"#
    );
}

#[test]
fn subscriptions_name_their_block() {
    assert_eq!(params(ConfirmedBlockId::L1Accepted), r#""l1_accepted""#);
    assert_eq!(params(ConfirmedBlockId::Number(0)), r#"{"block_number":0}"#);
    assert_eq!(
        params(ConfirmedBlockId::Number(u64::MAX)),
        r#"{"block_number":18446744073709551615}"#
    );
    assert_eq!(params(ConfirmedBlockId::Hash(hash(&[]))), r#"{"block_hash":"0x0"}"#);
    assert_eq!(params(ConfirmedBlockId::Hash(hash(&[0x12, 0x34]))), r#"{"block_hash":"0x1234"}"#);
    assert_eq!(
        params(ConfirmedBlockId::Hash(hash(&[0x0a, 0, 0, 0, 0, 0, 0, 0, 0, 0xbc]))),
        r#"{"block_hash":"0xa0000000000000000bc"}"#
    );
}

#[test]
fn hashes_are_field_elements() {
    let mut order = [0u8; 32];
    order[0] = 0x08;
    order[7] = 0x11;
    order[31] = 0x01;
    assert_eq!(BlockHash::from_bytes_be(order), None);
    assert_eq!(BlockHash::from_bytes_be([0xff; 32]), None);
    let mut above = order;
    above[16] = 1;
    assert_eq!(BlockHash::from_bytes_be(above), None);
    let mut largest = order;
    largest[31] = 0;
    let largest = BlockHash::from_bytes_be(largest).unwrap();
    assert_eq!(
        params(ConfirmedBlockId::Hash(largest)),
        r#"{"block_hash":"0x800000000000011000000000000000000000000000000000000000000000000"}"#
    );
}

#[test]
fn a_subscription_is_a_text_message() {
    let message = Message::from(SubscribeRequest { block_id: ConfirmedBlockId::Latest });
    let Message::Text(text) = message else { panic!("a text message") };
    assert!(text.contains("starknet_subscribeNewHeads"));
}

#[test]
fn connecting_sends_the_subscription() {
    let open = Heads::connect("wss://node");
    assert_eq!(open.url, "wss://node");
    let subscribe = open.resume(Ok(())).unwrap();
    let Message::Text(text) = &subscribe.message else { panic!("a text message") };
    assert_eq!(
        text,
        r#"{"jsonrpc":"2.0","method":"starknet_subscribeNewHeads","params":["latest"]}"#
    );
    let mut heads = subscribe.resume(Ok(()), "read half").unwrap_or_else(|_| panic!("it was sent"));
    assert_eq!(*heads.inner_mut(), "read half");
    *heads.inner_mut() = "other half";
    assert_eq!(*heads.inner_mut(), "other half");
}

#[test]
fn connecting_can_fail() {
    let failed = Heads::connect("wss://node").resume(Err(WsError));
    assert!(matches!(failed, Err(StarknetProviderError::Request)));
    let subscribe = Heads::connect("wss://node").resume(Ok(())).unwrap();
    let failed = subscribe.resume(Err(WsError), "read half");
    assert!(matches!(failed, Err(StarknetProviderError::Request)));
}

#[test]
fn text_messages_are_heads() {
    for text in ["", "{}", "anything"] {
        let message = Message::Text(text.to_string());
        assert_eq!(NewHeadMessage::try_from_message(message), Ok(Some(NewHeadMessage)));
    }
    for message in [
        Message::Binary(vec![1]),
        Message::Ping(vec![]),
        Message::Pong(vec![]),
        Message::Close,
        Message::Frame,
    ] {
        assert_eq!(NewHeadMessage::try_from_message(message), Ok(None));
    }
}

#[test]
fn polling_follows_the_socket() {
    assert!(matches!(Heads::poll_next(StreamPoll::Pending), StreamPoll::Pending));
    assert!(matches!(Heads::poll_next(StreamPoll::Ready(None)), StreamPoll::Ready(None)));
    let text = StreamPoll::Ready(Some(Ok(Message::Text("{}".to_string()))));
    assert!(matches!(Heads::poll_next(text), StreamPoll::Ready(Some(Ok(NewHeadMessage)))));
    let ping = StreamPoll::Ready(Some(Ok(Message::Ping(vec![]))));
    assert!(matches!(Heads::poll_next(ping), StreamPoll::Pending));
    let failure = StreamPoll::Ready(Some(Err(WsError)));
    assert!(matches!(
        Heads::poll_next(failure),
        StreamPoll::Ready(Some(Err(StarknetProviderError::Request)))
    ));
}

#[test]
fn silence_is_a_timeout() {
    assert_eq!(head_or_timeout(Ok(Ok(NewHeadMessage))), Ok(()));
    assert_eq!(
        head_or_timeout(Ok(Err(StarknetProviderError::Request))),
        Err(StarknetProviderError::Request)
    );
    assert_eq!(head_or_timeout(Err(Elapsed)), Err(StarknetProviderError::Timeout));
}

#[test]
fn streams_that_fail_or_end_are_opened_again() {
    assert_eq!(heads_action(Ok(Some(()))), HeadsAction::Announce);
    assert_eq!(heads_action(Ok(None)), HeadsAction::Reconnect);
    assert_eq!(heads_action(Err(StarknetProviderError::Timeout)), HeadsAction::Reconnect);
    assert_eq!(heads_action(Err(StarknetProviderError::Request)), HeadsAction::Reconnect);
}

#[test]
fn the_stream_follows_the_socket() {
    let polls = vec![
        StreamPoll::Ready(Some(Ok(Message::Text("a".to_string())))),
        StreamPoll::Pending,
        StreamPoll::Ready(Some(Ok(Message::Ping(vec![])))),
        StreamPoll::Ready(Some(Err(WsError))),
        StreamPoll::Ready(Some(Ok(Message::Close))),
        StreamPoll::Ready(Some(Ok(Message::Text("b".to_string())))),
        StreamPoll::Ready(None),
    ];
    let mut items = Vec::new();
    let mut ended = false;
    for polled in polls {
        match Heads::poll_next(polled) {
            StreamPoll::Pending => {}
            StreamPoll::Ready(Some(item)) => items.push(item),
            StreamPoll::Ready(None) => ended = true,
        }
    }
    let expected = vec![
        Ok(NewHeadMessage),
        Err(StarknetProviderError::Request),
        Ok(NewHeadMessage),
    ];
    assert_eq!(items, expected);
    assert!(ended);
}
