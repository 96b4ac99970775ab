//! The other end: what a client makes of what the recorder sends it.
//!
//! Connecting, writing and reading are the caller's. What is decided here is
//! the handshake a client sends, how it reads the answer, which identifier
//! each request carries, and whether a frame read back is the reply to the
//! request that was sent, a refusal, or something that does not belong.

use vstd::prelude::*;

use crate::error::ProtocolError;
use crate::frame::{described_as, FrameError};
use crate::message::{
    ClientMessage, ConnectionRole, Event, EventStream, Hello, Outcome, PeerIdentity, Response, ServerMessage,
    Welcome, PROTOCOL_VERSION,
};
use crate::text::{decimal, owned, push_decimal};

verus! {

/// Why talking to the recorder did not work.
#[derive(Debug)]
pub enum ClientError {
    /// The connection failed, or the recorder went away.
    Frame(FrameError),
    /// The recorder said no.
    Refused(ProtocolError),
    /// The recorder sent something that does not belong here.
    Unexpected(String),
}

impl ClientError {
    /// The sentence describing this failure.
    pub fn describe(&self) -> (text: String)
        ensures
            self matches ClientError::Frame(f) ==> described_as(*f, text@),
            self matches ClientError::Refused(e) ==> text@ == e.message@ + " ("@ + e.code.wire()
                + ")"@,
            self matches ClientError::Unexpected(what) ==> text@ == "the recorder sent "@ + what@,
    {
        match self {
            ClientError::Frame(error) => error.describe(),
            ClientError::Refused(error) => error.describe(),
            ClientError::Unexpected(what) => {
                let mut text = owned("the recorder sent ");
                text.append(what.as_str());
                text
            },
        }
    }
}

/// Whether `message` is the handshake a client called `name`, at `version`,
/// opens a connection in `role` with, asking for `streams`: at the one
/// protocol version this build speaks.
pub open spec fn greets(
    message: ClientMessage,
    name: Seq<char>,
    version: Seq<char>,
    role: ConnectionRole,
    streams: Seq<EventStream>,
) -> bool {
    message matches ClientMessage::Hello(h) && h.protocol_version == PROTOCOL_VERSION
        && h.client.name@ == name && h.client.version@ == version && h.role == role
        && h.streams@ == streams
}

/// The handshake a client opens a connection with: the one version this
/// build speaks, who is connecting, and what for.
pub fn hello(name: &str, version: &str, role: ConnectionRole, streams: Vec<EventStream>) -> (message:
    ClientMessage)
    ensures
        greets(message, name@, version@, role, streams@),
{
    ClientMessage::Hello(
        Hello {
            protocol_version: PROTOCOL_VERSION,
            client: PeerIdentity { name: owned(name), version: owned(version) },
            role,
            streams,
        },
    )
}

/// What a reply to a handshake turned out to be.
#[derive(Debug)]
pub enum HandshakeAnswer<R> {
    /// Accepted.
    Welcomed(Welcome),
    /// Refused, with the reason.
    Refused(ProtocolError),
    /// Something that is not an answer to a handshake.
    Unexpected(ServerMessage<R>),
}

/// What an answer to a handshake is read as: a welcome, a refusal, or
/// something that is not an answer to a handshake.
pub open spec fn handshake_reading<R>(message: ServerMessage<R>) -> HandshakeAnswer<R> {
    match message {
        ServerMessage::Welcome(w) => HandshakeAnswer::Welcomed(w),
        ServerMessage::Refused(e) => HandshakeAnswer::Refused(e),
        other => HandshakeAnswer::Unexpected(other),
    }
}

/// Reads the answer to a handshake.
pub fn handshake_answer<R>(message: ServerMessage<R>) -> (answer: HandshakeAnswer<R>)
    ensures
        answer == handshake_reading(message),
{
    match message {
        ServerMessage::Welcome(welcome) => HandshakeAnswer::Welcomed(welcome),
        ServerMessage::Refused(error) => HandshakeAnswer::Refused(error),
        other => HandshakeAnswer::Unexpected(other),
    }
}

/// The sentence for a reply that quotes a different request.
pub open spec fn wrong_reply_text(got: u64, wanted: u64) -> Seq<char> {
    "a reply to request "@ + decimal(got as nat) + " while "@ + decimal(wanted as nat)
        + " was outstanding"@
}

/// Whether `answer` is what the frame `message`, read after sending request
/// `request_id`, amounts to: only a response quoting that request is its
/// answer, its reply or its refusal; a refusal of the connection is a
/// refusal; a response to another request, a second welcome or an event are
/// each something that does not belong on a control connection.
pub open spec fn answers<R>(
    request_id: u64,
    message: ServerMessage<R>,
    answer: Result<R, ClientError>,
) -> bool {
    match message {
        ServerMessage::Response(response) => if response.id == request_id {
            match response.outcome {
                Outcome::Success(reply) => answer == Ok::<R, ClientError>(reply),
                Outcome::Error(e) => answer == Err::<R, ClientError>(ClientError::Refused(e)),
            }
        } else {
            answer matches Err(ClientError::Unexpected(text)) && text@ == wrong_reply_text(
                response.id,
                request_id,
            )
        },
        ServerMessage::Refused(e) => answer == Err::<R, ClientError>(ClientError::Refused(e)),
        ServerMessage::Welcome(_) => answer matches Err(ClientError::Unexpected(text))
            && text@ == "a second handshake"@,
        ServerMessage::Event(_) => answer matches Err(ClientError::Unexpected(text))
            && text@ == "an event on a control connection"@,
    }
}

/// What the recorder says is passed on as it said it: whatever request is
/// outstanding, a refusal is read as that refusal, its code, sentence and
/// detail unchanged; the response quoting the request is read as its reply
/// or as its refusal; and nothing else is ever read as a reply.
pub proof fn lemma_the_recorders_answer_is_passed_on<R>(
    request_id: u64,
    message: ServerMessage<R>,
    answer: Result<R, ClientError>,
)
    requires
        answers(request_id, message, answer),
    ensures
        forall|e: ProtocolError|
            message == ServerMessage::<R>::Refused(e) ==> answer == Err::<R, ClientError>(
                ClientError::Refused(e),
            ),
        forall|reply: R|
            message == ServerMessage::<R>::Response(Response { id: request_id, outcome: Outcome::Success(reply) })
                ==> answer == Ok::<R, ClientError>(reply),
        forall|e: ProtocolError|
            message == ServerMessage::<R>::Response(Response { id: request_id, outcome: Outcome::Error(e) })
                ==> answer == Err::<R, ClientError>(ClientError::Refused(e)),
        answer is Ok ==> (message matches ServerMessage::Response(response) && response.id == request_id),
{
}

/// A control connection, from the client's side: what the recorder said about
/// itself, and the identifier the next request will carry.
#[derive(Debug)]
pub struct Client {
    welcome: Welcome,
    next_id: u64,
}

impl Client {
    /// What the recorder said about itself when it accepted the connection.
    pub closed spec fn accepted_with(&self) -> Welcome {
        self.welcome
    }

    /// The identifier the next request will carry.
    pub closed spec fn upcoming_id(&self) -> u64 {
        self.next_id
    }

    /// A control connection the recorder has just accepted with `welcome`.
    /// Requests are numbered from one.
    pub fn from_welcome(welcome: Welcome) -> (client: Client)
        ensures
            client.accepted_with() == welcome,
            client.upcoming_id() == 1,
    {
        Client { welcome, next_id: 1 }
    }

    /// What the recorder said about itself when it accepted the connection.
    pub fn welcome(&self) -> (welcome: &Welcome)
        ensures
            *welcome == self.accepted_with(),
    {
        &self.welcome
    }

    /// Whether another request can still be given an identifier of its own:
    /// false only once every `u64` has been used.
    pub fn can_number_another_request(&self) -> (can: bool)
        ensures
            can == (self.upcoming_id() < u64::MAX),
    {
        self.next_id < u64::MAX
    }

    /// The identifier for the next request, which no earlier request on this
    /// connection carried.
    pub fn next_request_id(&mut self) -> (id: u64)
        requires
            old(self).upcoming_id() < u64::MAX,
        ensures
            id == old(self).upcoming_id(),
            final(self).upcoming_id() == id + 1,
            final(self).accepted_with() == old(self).accepted_with(),
    {
        let id = self.next_id;
        self.next_id = self.next_id + 1;
        id
    }

    /// What the frame read after sending request `request_id` amounts to.
    ///
    /// Only a response quoting that request is its answer: its reply, or its
    /// refusal. A refusal of the connection is a refusal; a response to some
    /// other request, a second welcome or an event are each something that
    /// does not belong on a control connection.
    pub fn answer<R>(&self, request_id: u64, message: ServerMessage<R>) -> (answer: Result<R, ClientError>)
        ensures
            answers(request_id, message, answer),
            message matches ServerMessage::Refused(e) ==> answer == Err::<R, ClientError>(
                ClientError::Refused(e),
            ),
            message matches ServerMessage::Response(response) ==> (response.id == request_id
                ==> match response.outcome {
                Outcome::Success(reply) => answer == Ok::<R, ClientError>(reply),
                Outcome::Error(e) => answer == Err::<R, ClientError>(ClientError::Refused(e)),
            }),
    {
        match message {
            ServerMessage::Response(response) => {
                if response.id == request_id {
                    match response.outcome {
                        Outcome::Success(reply) => Ok(reply),
                        Outcome::Error(error) => Err(ClientError::Refused(error)),
                    }
                } else {
                    let mut text = owned("a reply to request ");
                    push_decimal(&mut text, response.id);
                    text.append(" while ");
                    push_decimal(&mut text, request_id);
                    text.append(" was outstanding");
                    Err(ClientError::Unexpected(text))
                }
            },
            ServerMessage::Refused(error) => Err(ClientError::Refused(error)),
            ServerMessage::Welcome(_) => Err(ClientError::Unexpected(owned("a second handshake"))),
            ServerMessage::Event(_) => Err(
                ClientError::Unexpected(owned("an event on a control connection")),
            ),
        }
    }

    /// What reading the frame after sending request `request_id` amounts to:
    /// a read that failed is that failure; a frame that was read is what
    /// [`Self::answer`] makes of it.
    pub fn answer_read<R>(&self, request_id: u64, read: Result<ServerMessage<R>, FrameError>) -> (answer:
        Result<R, ClientError>)
        ensures
            match read {
                Err(failure) => answer == Err::<R, ClientError>(ClientError::Frame(failure)),
                Ok(message) => answers(request_id, message, answer),
            },
    {
        match read {
            Err(failure) => Err(ClientError::Frame(failure)),
            Ok(message) => self.answer(request_id, message),
        }
    }
}

/// Each of `ids` was handed out by [`Client::next_request_id`] on the state
/// before it in `clients`, leaving the state after it.
pub open spec fn hands_out(clients: Seq<Client>, ids: Seq<u64>) -> bool {
    forall|i: int|
        0 <= i < ids.len() ==> ids[i] == #[trigger] clients[i].upcoming_id() && clients[i
            + 1].upcoming_id() == ids[i] + 1
}

/// The connection before the request numbered `k` is waiting to give out
/// `k + 1`.
proof fn lemma_upcoming_counts_requests(clients: Seq<Client>, ids: Seq<u64>, k: int)
    requires
        clients.len() == ids.len() + 1,
        clients[0].upcoming_id() == 1,
        hands_out(clients, ids),
        0 <= k <= ids.len(),
    ensures
        clients[k].upcoming_id() == k + 1,
    decreases k,
{
    if k > 0 {
        lemma_upcoming_counts_requests(clients, ids, k - 1);
        assert(ids[k - 1] == clients[k - 1].upcoming_id());
    }
}

/// Requests on one connection are numbered from one, each taking the next
/// number, whether or not it was then answered: the identifier handed out
/// `k`th is `k`, so no two requests on a connection carry the same identifier
/// and each carries a larger one than the one before.
///
/// `clients` is the connection's state as [`Client::from_welcome`] made it
/// and after each [`Client::next_request_id`]; `ids` are the identifiers
/// those calls handed out.
pub proof fn lemma_requests_are_numbered_from_one(clients: Seq<Client>, ids: Seq<u64>)
    requires
        clients.len() == ids.len() + 1,
        clients[0].upcoming_id() == 1,
        hands_out(clients, ids),
    ensures
        forall|i: int| 0 <= i < ids.len() ==> #[trigger] ids[i] == i + 1,
        forall|i: int, j: int| 0 <= i < j < ids.len() ==> #[trigger] ids[i] < #[trigger] ids[j],
        clients.last().upcoming_id() == ids.len() + 1,
{
    lemma_upcoming_counts_requests(clients, ids, ids.len() as int);
    assert forall|i: int| 0 <= i < ids.len() implies #[trigger] ids[i] == i + 1 by {
        lemma_upcoming_counts_requests(clients, ids, i);
    }
}

/// What a frame read on an event connection turned out to be.
#[derive(Debug)]
pub enum EventReading<R> {
    /// An event.
    Event(Event),
    /// The recorder refused the subscription, with the reason.
    Refused(ProtocolError),
    /// Something that does not belong on an event connection.
    Unexpected(ServerMessage<R>),
}

/// An event connection, from the client's side.
#[derive(Debug)]
pub struct EventClient {
    welcome: Welcome,
}

impl EventClient {
    /// What the recorder said about itself when it accepted the subscription.
    pub closed spec fn accepted_with(&self) -> Welcome {
        self.welcome
    }

    /// A subscription the recorder has just accepted with `welcome`.
    pub fn from_welcome(welcome: Welcome) -> (client: EventClient)
        ensures
            client.accepted_with() == welcome,
    {
        EventClient { welcome }
    }

    /// The streams the recorder agreed to deliver.
    pub fn streams(&self) -> (streams: &[EventStream])
        ensures
            streams@ == self.accepted_with().streams@,
    {
        self.welcome.streams.as_slice()
    }

    /// What a frame read on this connection amounts to.
    pub fn reading<R>(&self, message: ServerMessage<R>) -> (reading: EventReading<R>)
        ensures
            match message {
                ServerMessage::Event(e) => reading == EventReading::<R>::Event(e),
                ServerMessage::Refused(e) => reading == EventReading::<R>::Refused(e),
                other => reading == EventReading::<R>::Unexpected(other),
            },
    {
        match message {
            ServerMessage::Event(event) => EventReading::Event(event),
            ServerMessage::Refused(error) => EventReading::Refused(error),
            other => EventReading::Unexpected(other),
        }
    }
}

} // verus!
