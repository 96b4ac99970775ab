//! The envelopes, the handshake, and the vocabularies they carry.
//!
//! The first frame on every connection is a [`Hello`] stating the one protocol
//! version the client speaks and what the connection is for; the recorder
//! answers with a [`Welcome`] or a refusal that says what it speaks instead. A
//! connection carries commands ([`ConnectionRole::Control`]) or events
//! ([`ConnectionRole::Events`]), never both.
//!
//! The reply a command produces is left as a type parameter of the envelopes
//! that carry it ([`Outcome`], [`Response`], [`ServerMessage`]): the decisions
//! made here never look inside one.

use vstd::prelude::*;

use crate::error::ProtocolError;
use crate::status::RecorderStatus;
use crate::text::{owned, same_text};

verus! {

/// The protocol version this build speaks.
///
/// Version 2 is the one with the `watching` recorder state: a client speaking
/// version 1 could not read the status this recorder sends, so it is refused
/// at the handshake rather than half understood.
pub const PROTOCOL_VERSION: u32 = 2;

/// Every version this build will accept from a client.
pub const SUPPORTED_PROTOCOL_VERSIONS: [u32; 1] = [PROTOCOL_VERSION];

/// Whether this build accepts a client speaking `version`.
pub open spec fn speaks(version: u32) -> bool {
    SUPPORTED_PROTOCOL_VERSIONS@.contains(version)
}

/// Whether this build accepts a client speaking `version`.
pub fn is_supported_version(version: u32) -> (accepted: bool)
    ensures
        accepted == speaks(version),
        accepted == (version == PROTOCOL_VERSION),
{
    let supported = SUPPORTED_PROTOCOL_VERSIONS;
    assert(supported@ =~= seq![PROTOCOL_VERSION]);
    let mut i: usize = 0;
    while i < supported.len()
        invariant
            supported@ == seq![PROTOCOL_VERSION],
            i <= supported@.len(),
            forall|j: int| 0 <= j < i ==> supported@[j] != version,
        decreases supported@.len() - i,
    {
        if supported[i] == version {
            assert(supported@[i as int] == version);
            return true;
        }
        i = i + 1;
    }
    assert(!supported@.contains(version));
    false
}

/// Who is at the other end of a connection.
#[derive(Debug, Clone, PartialEq, Eq)]
pub struct PeerIdentity {
    /// The program's name, such as `clipped-recorder`.
    pub name: String,
    /// Its build version.
    pub version: String,
}

impl PeerIdentity {
    /// The same identity, as a value of its own.
    pub fn duplicate(&self) -> (copy: PeerIdentity)
        ensures
            copy == *self,
    {
        PeerIdentity { name: self.name.clone(), version: self.version.clone() }
    }
}

/// What a connection is for.
#[derive(Debug, Clone, Copy, PartialEq, Eq, Structural)]
pub enum ConnectionRole {
    /// Commands and their replies, in strict alternation. The default.
    Control,
    /// Events, pushed by the recorder.
    Events,
    /// A role this build does not have. Refused, by name.
    Unknown,
}

impl Default for ConnectionRole {
    fn default() -> (role: ConnectionRole)
        ensures
            role == ConnectionRole::Control,
    {
        ConnectionRole::Control
    }
}

impl ConnectionRole {
    /// The wire string of this role.
    pub open spec fn wire(self) -> Seq<char> {
        match self {
            ConnectionRole::Control => "control"@,
            ConnectionRole::Events => "events"@,
            ConnectionRole::Unknown => "unknown"@,
        }
    }

    /// The role a wire string names: any string but the two roles this build
    /// has is [`ConnectionRole::Unknown`].
    pub open spec fn parsed(name: Seq<char>) -> ConnectionRole {
        if name == "control"@ {
            ConnectionRole::Control
        } else if name == "events"@ {
            ConnectionRole::Events
        } else {
            ConnectionRole::Unknown
        }
    }

    /// The wire string.
    pub fn as_str(self) -> (name: &'static str)
        ensures
            name@ == self.wire(),
    {
        match self {
            ConnectionRole::Control => "control",
            ConnectionRole::Events => "events",
            ConnectionRole::Unknown => "unknown",
        }
    }

    /// The role a wire string names.
    pub fn from_wire(name: String) -> (role: ConnectionRole)
        ensures
            role == ConnectionRole::parsed(name@),
    {
        if same_text(&name, "control") {
            ConnectionRole::Control
        } else if same_text(&name, "events") {
            ConnectionRole::Events
        } else {
            ConnectionRole::Unknown
        }
    }

    /// The wire string, as an owned string.
    pub fn into_wire(self) -> (name: String)
        ensures
            name@ == self.wire(),
    {
        owned(self.as_str())
    }
}

impl From<String> for ConnectionRole {
    /// The role a wire string names.
    fn from(name: String) -> (role: ConnectionRole) {
        ConnectionRole::from_wire(name)
    }
}

impl vstd::std_specs::convert::FromSpecImpl<String> for ConnectionRole {
    open spec fn obeys_from_spec() -> bool {
        true
    }

    open spec fn from_spec(name: String) -> ConnectionRole {
        ConnectionRole::parsed(name@)
    }
}

/// Every role survives a trip through its wire string, the placeholder for a
/// role this build does not have included.
pub proof fn lemma_role_round_trip(role: ConnectionRole)
    ensures
        ConnectionRole::parsed(role.wire()) == role,
{
    reveal_strlit("control");
    reveal_strlit("events");
    reveal_strlit("unknown");
    assert("control"@.len() == 7);
    assert("events"@.len() == 6);
    assert("unknown"@[0] == 'u');
    assert("events"@[0] == 'e');
}

/// A stream of events a connection can ask for.
#[derive(Debug, Clone, PartialEq, Eq)]
pub enum EventStream {
    /// `status`: what the recorder is doing, whenever it changes.
    Status,
    /// `errors`: failures that were nobody's request.
    Errors,
    /// `metrics`: live throughput. Defined, and refused by this build.
    Metrics,
    /// A stream this build does not have. Refused, by name.
    Other(String),
}

impl EventStream {
    /// The wire string of this stream.
    pub open spec fn wire(&self) -> Seq<char> {
        match self {
            EventStream::Status => "status"@,
            EventStream::Errors => "errors"@,
            EventStream::Metrics => "metrics"@,
            EventStream::Other(name) => name@,
        }
    }

    /// The known stream a wire string names, if it names one.
    pub open spec fn known(name: Seq<char>) -> Option<EventStream> {
        if name == "status"@ {
            Some(EventStream::Status)
        } else if name == "errors"@ {
            Some(EventStream::Errors)
        } else if name == "metrics"@ {
            Some(EventStream::Metrics)
        } else {
            None
        }
    }

    /// The stream a wire string names, keeping one this build does not know.
    pub open spec fn parsed(name: String) -> EventStream {
        match EventStream::known(name@) {
            Some(known) => known,
            None => EventStream::Other(name),
        }
    }

    /// The wire string.
    pub fn as_str(&self) -> (name: &str)
        ensures
            name@ == self.wire(),
    {
        match self {
            EventStream::Status => "status",
            EventStream::Errors => "errors",
            EventStream::Metrics => "metrics",
            EventStream::Other(name) => name.as_str(),
        }
    }

    /// The stream a wire string names.
    pub fn from_wire(name: String) -> (stream: EventStream)
        ensures
            stream == EventStream::parsed(name),
    {
        if same_text(&name, "status") {
            EventStream::Status
        } else if same_text(&name, "errors") {
            EventStream::Errors
        } else if same_text(&name, "metrics") {
            EventStream::Metrics
        } else {
            EventStream::Other(name)
        }
    }

    /// The wire string, as an owned string.
    pub fn into_wire(self) -> (name: String)
        ensures
            name@ == self.wire(),
    {
        match self {
            EventStream::Other(name) => name,
            known => owned(known.as_str()),
        }
    }
}

impl From<String> for EventStream {
    /// The stream a wire string names, keeping one this build does not know.
    fn from(name: String) -> (stream: EventStream) {
        EventStream::from_wire(name)
    }
}

impl vstd::std_specs::convert::FromSpecImpl<String> for EventStream {
    open spec fn obeys_from_spec() -> bool {
        true
    }

    open spec fn from_spec(name: String) -> EventStream {
        EventStream::parsed(name)
    }
}

/// Reading a stream name and writing it back out gives the same string, for
/// every string.
pub proof fn lemma_stream_wire_round_trip(name: String)
    ensures
        EventStream::parsed(name).wire() == name@,
{
}

/// A known stream survives a trip through its wire string, and an unknown one
/// keeps its name.
pub proof fn lemma_stream_parse_round_trip(stream: EventStream)
    requires
        stream matches EventStream::Other(name) ==> EventStream::known(name@) is None,
    ensures
        stream !is Other ==> EventStream::known(stream.wire()) == Some(stream),
        stream matches EventStream::Other(name) ==> EventStream::parsed(name) == stream,
{
    reveal_strlit("status");
    reveal_strlit("errors");
    reveal_strlit("metrics");
    assert("status"@[0] == 's');
    assert("errors"@[0] == 'e');
    assert("metrics"@.len() == 7);
    assert("status"@.len() == 6);
}

/// The first frame on every connection.
#[derive(Debug, Clone, PartialEq, Eq)]
pub struct Hello {
    /// The one version the client speaks.
    pub protocol_version: u32,
    /// Who is connecting.
    pub client: PeerIdentity,
    /// What the connection is for.
    pub role: ConnectionRole,
    /// Which event streams to deliver, for an events connection.
    pub streams: Vec<EventStream>,
}

/// The recorder accepting a connection.
#[derive(Debug, Clone, PartialEq, Eq)]
pub struct Welcome {
    /// The version now in force.
    pub protocol_version: u32,
    /// Which recorder answered.
    pub recorder: PeerIdentity,
    /// What the connection was accepted as.
    pub role: ConnectionRole,
    /// What this build can actually do.
    pub features: Vec<String>,
    /// The event streams this connection will receive.
    pub streams: Vec<EventStream>,
}

/// One command, and the identifier its reply will quote.
#[derive(Debug, Clone, PartialEq)]
pub struct Request {
    /// Chosen by the client, unique among its requests in flight.
    pub id: u64,
    /// The command's name.
    pub command: String,
    /// The command's parameters, kept untyped at this level so that an unknown
    /// command is refused by name rather than as a broken frame.
    pub params: serde_json::Value,
}

/// One reply, quoting the request it answers.
#[derive(Debug, Clone, PartialEq)]
pub struct Response<R> {
    /// The request this answers.
    pub id: u64,
    /// What happened.
    pub outcome: Outcome<R>,
}

/// What a command produced, or why it did not.
#[derive(Debug, Clone, PartialEq)]
pub enum Outcome<R> {
    /// It worked. (`ok` on the wire.)
    Success(R),
    /// It did not, and this is what to tell the user.
    Error(ProtocolError),
}

/// Something the recorder decided to say without being asked.
#[derive(Debug, Clone, PartialEq)]
pub enum Event {
    /// The recorder started, stopped or changed what it is doing.
    StatusChanged {
        /// The new state.
        status: RecorderStatus,
    },
    /// A recording ended because something failed.
    RecordingFailed {
        /// Which recording.
        recording_id: String,
        /// What failed.
        error: ProtocolError,
    },
    /// An event this build has never heard of, kept exactly as it arrived.
    Other(serde_json::Value),
}

impl Event {
    /// The stream an event belongs to, if this build can place it.
    pub open spec fn stream_of(&self) -> Option<EventStream> {
        match self {
            Event::StatusChanged { .. } => Some(EventStream::Status),
            Event::RecordingFailed { .. } => Some(EventStream::Errors),
            Event::Other(_) => None,
        }
    }

    /// Which stream this event belongs to, for routing; [`None`] for an event
    /// this build has never heard of.
    pub fn stream(&self) -> (stream: Option<EventStream>)
        ensures
            stream == self.stream_of(),
    {
        match self {
            Event::StatusChanged { .. } => Some(EventStream::Status),
            Event::RecordingFailed { .. } => Some(EventStream::Errors),
            Event::Other(_) => None,
        }
    }
}

/// Anything the desktop application sends.
#[derive(Debug, Clone, PartialEq)]
pub enum ClientMessage {
    /// The handshake. Always first, exactly once.
    Hello(Hello),
    /// A command.
    Request(Request),
}

/// Anything the recorder sends.
#[derive(Debug, Clone, PartialEq)]
pub enum ServerMessage<R> {
    /// The handshake was accepted.
    Welcome(Welcome),
    /// The connection was refused, and is about to be closed.
    Refused(ProtocolError),
    /// A reply to a request.
    Response(Response<R>),
    /// An event on a subscribed stream.
    Event(Event),
}

} // verus!
