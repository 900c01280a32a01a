//! The subscription to new block heads over a websocket.
//!
//! A stream holds the read half of the socket, but does not read it. Connecting
//! says what to do next, and each message that comes in is judged here; whoever
//! drives the socket does the rest.

use vstd::prelude::*;

use crate::block_id::{block_id_value, ConfirmedBlockId};
use crate::decimal::decimal_text;
use crate::json::{
    comma_separated, in_key_order, json_array, json_object, json_string, json_text,
    json_to_string, member_text, needs_no_escape, quoted,
};

verus! {

/// Why the provider failed.
#[derive(Clone, Copy, Debug, PartialEq, Eq, Structural)]
pub enum StarknetProviderError {
    /// A request failed.
    Request,
    /// Nothing came in for too long.
    Timeout,
}

/// The socket failed.
#[derive(Clone, Copy, Debug, PartialEq, Eq, Structural)]
pub struct WsError;

/// Nothing came in for too long.
#[derive(Clone, Copy, Debug, PartialEq, Eq, Structural)]
pub struct Elapsed;

/// A websocket message.
#[derive(Clone, Debug)]
pub enum Message {
    Text(String),
    Binary(Vec<u8>),
    Ping(Vec<u8>),
    Pong(Vec<u8>),
    Close,
    Frame,
}

/// There is a new head.
///
/// The websocket is used only to know when to look for new blocks. What the
/// messages say is of no interest, so they are not kept.
#[derive(Clone, Copy, Debug, PartialEq, Eq, Structural)]
pub struct NewHeadMessage;

impl NewHeadMessage {
    /// A text message says that there is a new head. Other messages say nothing.
    pub fn try_from_message(msg: Message) -> (head: Result<
        Option<NewHeadMessage>,
        StarknetProviderError,
    >)
        ensures
            head == Ok::<Option<NewHeadMessage>, StarknetProviderError>(
                if msg is Text {
                    Some(NewHeadMessage)
                } else {
                    None
                },
            ),
    {
        match msg {
            Message::Text(_) => Ok(Some(NewHeadMessage)),
            _ => Ok(None),
        }
    }
}

/// The text of a request to be told of new heads from a block on.
pub open spec fn subscribe_text(block_id: ConfirmedBlockId) -> Seq<char> {
    "{\"jsonrpc\":\"2.0\",\"method\":\"starknet_subscribeNewHeads\",\"params\":["@
        + block_id.text() + "]}"@
}

/// The text that is sent over a socket once it is open: new heads are wanted from
/// the latest block on.
pub open spec fn opening_text() -> Seq<char> {
    subscribe_text(ConfirmedBlockId::Latest)
}

/// Every request is the same text around the block that it names.
pub proof fn law_subscription_names_its_block(block_id: ConfirmedBlockId, number: u64)
    ensures
        ({
            let text = subscribe_text(block_id);
            let inner = text.len() - 67;
            &&& inner == block_id.text().len()
            &&& text.take(65)
                == "{\"jsonrpc\":\"2.0\",\"method\":\"starknet_subscribeNewHeads\",\"params\":["@
            &&& text.subrange(65, 65 + inner) == block_id.text()
            &&& text.skip(65 + inner) == "]}"@
        }),
        ConfirmedBlockId::Number(number).text() == "{\"block_number\":"@ + decimal_text(
            number as nat,
        ) + "}"@,
{
    reveal_strlit("{\"jsonrpc\":\"2.0\",\"method\":\"starknet_subscribeNewHeads\",\"params\":[");
    reveal_strlit("]}");
    let text = subscribe_text(block_id);
    let inner = text.len() - 67;
    assert(text.take(65)
        =~= "{\"jsonrpc\":\"2.0\",\"method\":\"starknet_subscribeNewHeads\",\"params\":["@);
    assert(text.subrange(65, 65 + inner) =~= block_id.text());
    assert(text.skip(65 + inner) =~= "]}"@);
}

/// What is sent over a new socket is the subscription to new heads from the latest
/// block on.
pub proof fn law_opening_asks_for_the_latest_heads()
    ensures
        opening_text()
            == "{\"jsonrpc\":\"2.0\",\"method\":\"starknet_subscribeNewHeads\",\"params\":[\"latest\"]}"@,
{
    reveal_strlit("{\"jsonrpc\":\"2.0\",\"method\":\"starknet_subscribeNewHeads\",\"params\":[");
    reveal_strlit("]}");
    reveal_strlit("\"latest\"");
    reveal_strlit(
        "{\"jsonrpc\":\"2.0\",\"method\":\"starknet_subscribeNewHeads\",\"params\":[\"latest\"]}",
    );
    assert(opening_text()
        =~= "{\"jsonrpc\":\"2.0\",\"method\":\"starknet_subscribeNewHeads\",\"params\":[\"latest\"]}"@);
}

/// A request to be told of new heads.
#[derive(Debug)]
pub struct SubscribeRequest {
    pub block_id: ConfirmedBlockId,
}

impl SubscribeRequest {
    /// The request as JSON-RPC.
    pub fn into_string(self) -> (text: String)
        ensures
            text@ == subscribe_text(self.block_id),
    {
        let mut params: Vec<serde_json::Value> = Vec::new();
        params.push(block_id_value(&self.block_id));
        let mut members: Vec<(String, serde_json::Value)> = Vec::new();
        members.push(("jsonrpc".to_owned(), json_string("2.0")));
        members.push(("method".to_owned(), json_string("starknet_subscribeNewHeads")));
        members.push(("params".to_owned(), json_array(params)));
        let ghost listed = members@;
        let ghost param_texts = params@.map_values(|v: serde_json::Value| json_text(v));
        let ghost texts = members@.map_values(|m: (String, serde_json::Value)| member_text(m));
        proof {
            reveal_strlit("2.0");
            reveal_strlit("starknet_subscribeNewHeads");
            reveal_strlit("jsonrpc");
            reveal_strlit("method");
            reveal_strlit("params");
            reveal_strlit("{\"jsonrpc\":\"2.0\",\"method\":\"starknet_subscribeNewHeads\",\"params\":[");
            reveal_strlit("]}");
            reveal_with_fuel(comma_separated, 4);
            assert(in_key_order(listed));
            assert(comma_separated(param_texts) == self.block_id.text());
            assert(texts.drop_last().drop_last().len() == 1);
        }
        let text: String = json_to_string(&json_object(members));
        assert(text@ =~= subscribe_text(self.block_id));
        text
    }
}

impl From<SubscribeRequest> for Message {
    fn from(request: SubscribeRequest) -> (message: Self)
        ensures
            message matches Message::Text(text) && text@ == subscribe_text(request.block_id),
    {
        Message::Text(request.into_string())
    }
}

/// The text of a message is a new `String`, of which a specification can only
/// give the characters, so `from` says itself what it makes.
impl vstd::std_specs::convert::FromSpecImpl<SubscribeRequest> for Message {
    open spec fn obeys_from_spec() -> bool {
        false
    }

    open spec fn from_spec(request: SubscribeRequest) -> Self {
        arbitrary()
    }
}

/// What a stream has when it is asked for its next item.
#[derive(Debug)]
pub enum StreamPoll<T> {
    /// Nothing yet.
    Pending,
    /// The next item, or the end of the stream.
    Ready(Option<T>),
}

/// A stream of new heads, over the read half of a websocket.
pub struct NewHeadsStream<R> {
    inner: R,
}

/// A websocket to be opened.
#[derive(Debug)]
pub struct OpenSocket {
    pub url: String,
}

/// A message to be sent over the socket once it is open.
#[derive(Debug)]
pub struct Subscribe {
    pub message: Message,
}

impl OpenSocket {
    /// Goes on with the socket: the subscription is to be sent.
    pub fn resume(self, opened: Result<(), WsError>) -> (next: Result<
        Subscribe,
        StarknetProviderError,
    >)
        ensures
            match opened {
                Ok(_) => next matches Ok(subscribe) && subscribe.message matches Message::Text(text)
                    && text@ == opening_text(),
                Err(_) => next == Err::<Subscribe, StarknetProviderError>(
                    StarknetProviderError::Request,
                ),
            },
    {
        match opened {
            Ok(_) => Ok(
                Subscribe {
                    message: Message::from(
                        SubscribeRequest { block_id: ConfirmedBlockId::Latest },
                    ),
                },
            ),
            Err(_) => Err(StarknetProviderError::Request),
        }
    }
}

impl Subscribe {
    /// Goes on once the subscription is sent, with the read half of the socket.
    /// There is nothing more to send, so the other half is not kept.
    pub fn resume<R>(self, sent: Result<(), WsError>, read: R) -> (stream: Result<
        NewHeadsStream<R>,
        StarknetProviderError,
    >)
        ensures
            match sent {
                Ok(_) => stream matches Ok(heads) && heads.spec_inner() == read,
                Err(_) => stream == Err::<NewHeadsStream<R>, StarknetProviderError>(
                    StarknetProviderError::Request,
                ),
            },
    {
        match sent {
            Ok(_) => Ok(NewHeadsStream { inner: read }),
            Err(_) => Err(StarknetProviderError::Request),
        }
    }
}

/// What the stream of new heads has, given what the socket has: a new head for
/// each text message, a failure for each failure of the socket.
pub open spec fn heads_poll(polled: StreamPoll<Result<Message, WsError>>) -> StreamPoll<
    Result<NewHeadMessage, StarknetProviderError>,
> {
    match polled {
        StreamPoll::Pending => StreamPoll::Pending,
        StreamPoll::Ready(None) => StreamPoll::Ready(None),
        StreamPoll::Ready(Some(Ok(message))) => if message is Text {
            StreamPoll::Ready(Some(Ok(NewHeadMessage)))
        } else {
            StreamPoll::Pending
        },
        StreamPoll::Ready(Some(Err(_))) => StreamPoll::Ready(
            Some(Err(StarknetProviderError::Request)),
        ),
    }
}

impl<R> NewHeadsStream<R> {
    /// The read half of the socket.
    pub closed spec fn spec_inner(self) -> R {
        self.inner
    }

    /// Starts to connect to a websocket.
    pub fn connect(url: &str) -> (open: OpenSocket)
        ensures
            open.url@ == url@,
    {
        OpenSocket { url: url.to_owned() }
    }

    /// The read half of the socket.
    pub fn inner_mut(&mut self) -> (inner: &mut R)
        ensures
            *inner == old(self).spec_inner(),
            final(self).spec_inner() == *final(inner),
    {
        &mut self.inner
    }

    /// What the stream has, given what the socket has.
    pub fn poll_next(polled: StreamPoll<Result<Message, WsError>>) -> (next: StreamPoll<
        Result<NewHeadMessage, StarknetProviderError>,
    >)
        ensures
            next == heads_poll(polled),
    {
        match polled {
            StreamPoll::Pending => StreamPoll::Pending,
            StreamPoll::Ready(None) => StreamPoll::Ready(None),
            StreamPoll::Ready(Some(Ok(message))) => match NewHeadMessage::try_from_message(
                message,
            ) {
                Ok(None) => StreamPoll::Pending,
                Ok(Some(head)) => StreamPoll::Ready(Some(Ok(head))),
                Err(error) => StreamPoll::Ready(Some(Err(error))),
            },
            StreamPoll::Ready(Some(Err(_))) => StreamPoll::Ready(
                Some(Err(StarknetProviderError::Request)),
            ),
        }
    }
}

/// What a message says is of no interest: any two texts give the same head.
pub proof fn law_text_is_not_read(a: String, b: String)
    ensures
        heads_poll(StreamPoll::Ready(Some(Ok(Message::Text(a))))) == heads_poll(
            StreamPoll::Ready(Some(Ok(Message::Text(b)))),
        ),
{
}

/// What a stream gives when it is asked again and again: its items, up to its
/// end, and whether it came to its end.
pub open spec fn run_stream<T>(polls: Seq<StreamPoll<T>>) -> (Seq<T>, bool)
    decreases polls.len(),
{
    if polls.len() == 0 {
        (Seq::empty(), false)
    } else {
        match polls[0] {
            StreamPoll::Pending => run_stream(polls.drop_first()),
            StreamPoll::Ready(None) => (Seq::empty(), true),
            StreamPoll::Ready(Some(item)) => {
                let rest = run_stream(polls.drop_first());
                (seq![item] + rest.0, rest.1)
            },
        }
    }
}

/// Whether what comes over the socket gives an item: a text message or a failure.
pub open spec fn gives_item(incoming: Result<Message, WsError>) -> bool {
    incoming matches Ok(message) ==> message is Text
}

/// The item that a text message or a failure gives.
pub open spec fn item_of(incoming: Result<Message, WsError>) -> Result<
    NewHeadMessage,
    StarknetProviderError,
> {
    match incoming {
        Ok(_) => Ok(NewHeadMessage),
        Err(_) => Err(StarknetProviderError::Request),
    }
}

/// The items that what comes over the socket gives, in order.
pub open spec fn items_of(incoming: Seq<Result<Message, WsError>>) -> Seq<
    Result<NewHeadMessage, StarknetProviderError>,
> {
    incoming.filter(|i: Result<Message, WsError>| gives_item(i)).map_values(
        |i: Result<Message, WsError>| item_of(i),
    )
}

/// What each poll of the socket makes a poll of the stream give.
pub open spec fn heads_polls(polls: Seq<StreamPoll<Result<Message, WsError>>>) -> Seq<
    StreamPoll<Result<NewHeadMessage, StarknetProviderError>>,
> {
    polls.map_values(|p: StreamPoll<Result<Message, WsError>>| heads_poll(p))
}

/// Over any run of polls the stream gives, in order, one head for each text
/// message and one failure for each failure of the socket. Other messages give
/// nothing, and the stream ends where the socket's stream ends, and only there.
pub proof fn law_stream_follows_the_socket(polls: Seq<StreamPoll<Result<Message, WsError>>>)
    ensures
        run_stream(heads_polls(polls)) == (items_of(run_stream(polls).0), run_stream(polls).1),
    decreases polls.len(),
{
    reveal(Seq::filter);
    if polls.len() > 0 {
        let rest = polls.drop_first();
        law_stream_follows_the_socket(rest);
        assert(heads_polls(polls).drop_first() =~= heads_polls(rest));
        if let StreamPoll::Ready(Some(incoming)) = polls[0] {
            let pred = |i: Result<Message, WsError>| gives_item(i);
            let later = run_stream(rest).0;
            let one = seq![incoming];
            Seq::filter_distributes_over_add(one, later, pred);
            assert(one.drop_last().filter(pred) =~= Seq::empty());
            assert(one.filter(pred) =~= if gives_item(incoming) {
                one
            } else {
                Seq::empty()
            });
            assert(items_of(one + later) =~= if gives_item(incoming) {
                seq![item_of(incoming)] + items_of(later)
            } else {
                items_of(later)
            });
        }
    }
}

/// An item of a stream of heads that gives up when nothing comes in for too long:
/// a head, a failure, or a timeout.
pub open spec fn item_or_timeout(
    item: Result<Result<NewHeadMessage, StarknetProviderError>, Elapsed>,
) -> Result<(), StarknetProviderError> {
    match item {
        Ok(Ok(_)) => Ok(()),
        Ok(Err(error)) => Err(error),
        Err(_) => Err(StarknetProviderError::Timeout),
    }
}

/// An item of a stream of heads that gives up when nothing comes in for too
/// long.
pub fn head_or_timeout(
    item: Result<Result<NewHeadMessage, StarknetProviderError>, Elapsed>,
) -> (head: Result<(), StarknetProviderError>)
    ensures
        head == item_or_timeout(item),
{
    match item {
        Ok(Ok(_)) => Ok(()),
        Ok(Err(error)) => Err(error),
        Err(_) => Err(StarknetProviderError::Timeout),
    }
}

/// What to do with the next item of a stream of heads.
#[derive(Clone, Copy, Debug, PartialEq, Eq, Structural)]
pub enum HeadsAction {
    /// There is a new head.
    Announce,
    /// The stream has failed or ended: connect again.
    Reconnect,
}

/// What is to be done with the next item of a stream of heads: a head is announced,
/// anything else means to connect again.
pub open spec fn action_on(item: Result<Option<()>, StarknetProviderError>) -> HeadsAction {
    if item matches Ok(Some(_)) {
        HeadsAction::Announce
    } else {
        HeadsAction::Reconnect
    }
}

/// A new head is announced, and nothing else is: silence for too long is a timeout,
/// and a timeout, a failure and the end of the stream each open it again.
pub proof fn law_only_heads_are_announced(
    item: Result<Result<NewHeadMessage, StarknetProviderError>, Elapsed>,
    error: StarknetProviderError,
)
    ensures
        item_or_timeout(item) is Ok <==> (item matches Ok(Ok(_))),
        item == Ok::<Result<NewHeadMessage, StarknetProviderError>, Elapsed>(Err(error))
            ==> item_or_timeout(item) == Err::<(), StarknetProviderError>(error),
        item is Err ==> item_or_timeout(item) == Err::<(), StarknetProviderError>(
            StarknetProviderError::Timeout,
        ),
        action_on(Ok(Some(()))) == HeadsAction::Announce,
        action_on(Ok(None)) == HeadsAction::Reconnect,
        action_on(Err(error)) == HeadsAction::Reconnect,
{
}

/// What to do with the next item of a stream of heads.
pub fn heads_action(item: Result<Option<()>, StarknetProviderError>) -> (action: HeadsAction)
    ensures
        action == action_on(item),
{
    match item {
        Ok(Some(_)) => HeadsAction::Announce,
        _ => HeadsAction::Reconnect,
    }
}

} // verus!
