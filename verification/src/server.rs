//! Serving the protocol: what the recorder decides at every step of a
//! connection.
//!
//! Accepting connections, reading and writing frames and calling into the
//! application are the caller's; this module decides what each thing that
//! arrives means: whether a handshake is welcomed or refused and with what,
//! whether a frame is a request, a refusal or the end of the conversation,
//! whether a command reaches the application at all, and whether a `shutdown`
//! may end the recording in progress.

use vstd::prelude::*;

use crate::client::{greets, handshake_reading, HandshakeAnswer};
use crate::command::Shutdown;
use crate::error::{not_in_this_build, ErrorCode, ErrorDetail, ProtocolError};
use crate::features;
use crate::frame::{described_as, FrameError};
use crate::message::{
    speaks, is_supported_version, ClientMessage, ConnectionRole, EventStream, Event, Hello,
    PeerIdentity, Request, ServerMessage, Welcome, PROTOCOL_VERSION, SUPPORTED_PROTOCOL_VERSIONS,
};
use crate::status::{ActiveRecording, RecorderStatus};
use crate::text::{decimal, owned, push_decimal, same_text};

verus! {

/// How many connections the recorder will serve at once: two for the desktop
/// application, and room for a second window, a command-line client and a
/// diagnostic tool.
pub const MAX_CONCURRENT_CONNECTIONS: usize = 8;

/// How many events a subscriber may fall behind by before events are dropped.
pub const EVENT_QUEUE_DEPTH: usize = 64;

/// Whether another connection may be served while `live` are.
pub fn admits_connection(live: usize) -> (admitted: bool)
    ensures
        admitted == (live < MAX_CONCURRENT_CONNECTIONS),
{
    live < MAX_CONCURRENT_CONNECTIONS
}

/// The refusal a connection over the cap gets.
pub fn too_many_connections() -> (refusal: ProtocolError)
    ensures
        refusal.code == ErrorCode::TooManyConnections,
        refusal.message@ == "this recorder serves "@ + decimal(8) + " connections at a time and they are all in use"@,
        refusal.detail is None,
{
    let mut message = owned("this recorder serves ");
    push_decimal(&mut message, MAX_CONCURRENT_CONNECTIONS as u64);
    message.append(" connections at a time and they are all in use");
    ProtocolError::new(ErrorCode::TooManyConnections, message)
}

/// The half of `shutdown` that belongs to the server: whether a shutdown has
/// been asked for, and whether the recorder has shut its door to new
/// recordings while one is being decided.
#[derive(Debug, Clone, Copy, PartialEq, Eq, Structural)]
pub struct ShutdownRequest {
    requested: bool,
    deciding: bool,
}

impl ShutdownRequest {
    /// Whether the listener has been asked to stop.
    pub closed spec fn requested(&self) -> bool {
        self.requested
    }

    /// Whether the door to new recordings is shut.
    pub closed spec fn closed_to_recordings(&self) -> bool {
        self.deciding
    }

    /// A request nothing has asked for yet.
    pub fn new() -> (request: ShutdownRequest)
        ensures
            !request.requested(),
            !request.closed_to_recordings(),
    {
        ShutdownRequest { requested: false, deciding: false }
    }

    /// Whether a shutdown has been asked for over the protocol.
    pub fn was_requested(&self) -> (requested: bool)
        ensures
            requested == self.requested(),
    {
        self.requested
    }

    /// Whether this recorder is on its way out and will start nothing new.
    pub fn is_shutting_down(&self) -> (closing: bool)
        ensures
            closing == self.closed_to_recordings(),
    {
        self.deciding
    }

    /// Closes the recorder to new recordings, before a shutdown is decided, so
    /// that the status the decision reads is the last word rather than a
    /// snapshot.
    pub fn begin(&mut self)
        ensures
            final(self).closed_to_recordings(),
            final(self).requested() == old(self).requested(),
    {
        self.deciding = true;
    }

    /// Opens the door again, for a shutdown that was refused.
    pub fn abandon(&mut self)
        ensures
            !final(self).closed_to_recordings(),
            final(self).requested() == old(self).requested(),
    {
        self.deciding = false;
    }

    /// Records that the listener is to stop, keeping the door shut.
    pub fn request(&mut self)
        ensures
            final(self).requested(),
            final(self).closed_to_recordings(),
    {
        self.requested = true;
        self.deciding = true;
    }
}

/// The supported versions, as a sentence fragment: `2`.
pub fn describe_versions() -> (text: String)
    ensures
        text@ == decimal(PROTOCOL_VERSION as nat),
{
    let versions = SUPPORTED_PROTOCOL_VERSIONS;
    let mut text = String::new();
    push_decimal(&mut text, versions[0] as u64);
    assert(text@ =~= decimal(PROTOCOL_VERSION as nat));
    text
}

/// The sentence a client speaking an unsupported version is refused with.
pub open spec fn unsupported_version_text(requested: u32) -> Seq<char> {
    "this recorder speaks protocol version "@ + decimal(PROTOCOL_VERSION as nat) + ", and "@
        + decimal(requested as nat) + " was asked for"@
}

/// The refusal of a client speaking a version this build does not: it says
/// what the recorder speaks, so the client can say which side is behind.
pub fn version_refusal(requested: u32, identity: &PeerIdentity) -> (refusal: ProtocolError)
    ensures
        refusal.code == ErrorCode::UnsupportedProtocolVersion,
        refusal.message@ == unsupported_version_text(requested),
        refusal.detail matches Some(ErrorDetail::UnsupportedProtocolVersion { requested: r, supported, recorder_version })
            && r == requested && supported@ == SUPPORTED_PROTOCOL_VERSIONS@ && recorder_version
            == identity.version,
{
    let mut message = owned("this recorder speaks protocol version ");
    let versions = describe_versions();
    message.append(versions.as_str());
    message.append(", and ");
    push_decimal(&mut message, requested as u64);
    message.append(" was asked for");
    let mut supported: Vec<u32> = Vec::new();
    supported.push(PROTOCOL_VERSION);
    assert(supported@ =~= SUPPORTED_PROTOCOL_VERSIONS@);
    ProtocolError::new(ErrorCode::UnsupportedProtocolVersion, message).with_detail(
        ErrorDetail::UnsupportedProtocolVersion {
            requested,
            supported,
            recorder_version: identity.version.clone(),
        },
    )
}

/// Whether two streams are the same stream: the same known stream, or two
/// unknown ones of the same name.
pub open spec fn same_stream(a: EventStream, b: EventStream) -> bool {
    match (a, b) {
        (EventStream::Status, EventStream::Status) => true,
        (EventStream::Errors, EventStream::Errors) => true,
        (EventStream::Metrics, EventStream::Metrics) => true,
        (EventStream::Other(x), EventStream::Other(y)) => x@ == y@,
        _ => false,
    }
}

/// Whether `streams` names `stream`.
pub open spec fn names_stream(streams: Seq<EventStream>, stream: EventStream) -> bool {
    exists|i: int| 0 <= i < streams.len() && same_stream(#[trigger] streams[i], stream)
}

/// Whether two streams are the same stream.
pub fn is_same_stream(a: &EventStream, b: &EventStream) -> (same: bool)
    ensures
        same == same_stream(*a, *b),
{
    match (a, b) {
        (EventStream::Status, EventStream::Status) => true,
        (EventStream::Errors, EventStream::Errors) => true,
        (EventStream::Metrics, EventStream::Metrics) => true,
        (EventStream::Other(x), EventStream::Other(y)) => *x == *y,
        _ => false,
    }
}

/// Whether `streams` names `stream`.
pub fn subscribes_to(streams: &Vec<EventStream>, stream: &EventStream) -> (found: bool)
    ensures
        found == names_stream(streams@, *stream),
{
    let mut i: usize = 0;
    while i < streams.len()
        invariant
            i <= streams@.len(),
            forall|j: int| 0 <= j < i ==> !same_stream(#[trigger] streams@[j], *stream),
        decreases streams@.len() - i,
    {
        if is_same_stream(&streams[i], stream) {
            return true;
        }
        i = i + 1;
    }
    false
}

/// Whether a stream is one this build delivers.
pub open spec fn deliverable(stream: EventStream) -> bool {
    stream is Status || stream is Errors
}

/// The requested streams with every repeat after the first left out, in the
/// order they were first asked for.
pub open spec fn first_occurrences(requested: Seq<EventStream>) -> Seq<EventStream>
    decreases requested.len(),
{
    if requested.len() == 0 {
        Seq::empty()
    } else {
        let earlier = first_occurrences(requested.drop_last());
        if earlier.contains(requested.last()) {
            earlier
        } else {
            earlier.push(requested.last())
        }
    }
}

/// Where the first stream this build does not deliver is, if there is one.
pub open spec fn first_undeliverable(requested: Seq<EventStream>, i: int) -> bool {
    &&& 0 <= i < requested.len()
    &&& !deliverable(requested[i])
    &&& forall|j: int| 0 <= j < i ==> deliverable(#[trigger] requested[j])
}

/// The sentence a stream this build does not have is refused with.
pub open spec fn no_such_stream_text(name: Seq<char>) -> Seq<char> {
    "this recorder has no `"@ + name + "` event stream"@
}

/// Whether `refusal` is the one an events connection asking for `requested`
/// is refused with: a connection that asks for nothing is told it has to ask;
/// otherwise the first stream this build does not deliver decides it, metrics
/// being refused as not in this build (naming where they are being built) and
/// a stream this build has never heard of by its name.
pub open spec fn stream_refusal(requested: Seq<EventStream>, refusal: ProtocolError) -> bool {
    if requested.len() == 0 {
        &&& refusal.code == ErrorCode::InvalidParameters
        &&& refusal.message@ == "an events connection has to say which streams it wants"@
        &&& refusal.detail is None
    } else {
        exists|i: int|
            #![trigger requested[i]]
            first_undeliverable(requested, i) && match requested[i] {
                EventStream::Metrics => {
                    &&& refusal.code == ErrorCode::NotImplemented
                    &&& refusal.message@ == not_in_this_build("live recording metrics"@)
                    &&& refusal.detail matches Some(
                        ErrorDetail::NotImplemented { subsystem, milestone, tracking_issue },
                    ) && subsystem@ == "live recording metrics"@ && milestone@ == "M14"@
                        && tracking_issue == 100
                },
                EventStream::Other(name) => {
                    &&& refusal.code == ErrorCode::InvalidParameters
                    &&& refusal.message@ == no_such_stream_text(name@)
                    &&& refusal.detail is None
                },
                _ => false,
            }
    }
}

/// Whether every stream in `requested` is one this build delivers.
pub open spec fn all_deliverable(requested: Seq<EventStream>) -> bool {
    forall|j: int| 0 <= j < requested.len() ==> deliverable(#[trigger] requested[j])
}

/// Which of the requested streams this build will deliver.
///
/// A stream that cannot be delivered refuses the whole connection rather than
/// being quietly dropped: an events connection that asks for nothing, a request
/// for metrics (not in this build, and it says where they are being built),
/// and a stream this build has never heard of are each refused. Otherwise
/// every stream asked for is delivered once, in the order first asked for.
pub fn accepted_streams(requested: &Vec<EventStream>) -> (accepted: Result<Vec<EventStream>, ProtocolError>)
    ensures
        accepted is Ok <==> requested@.len() > 0 && all_deliverable(requested@),
        accepted matches Ok(streams) ==> streams@ == first_occurrences(requested@),
        accepted matches Err(refusal) ==> stream_refusal(requested@, refusal),
{
    if requested.len() == 0 {
        return Err(
            ProtocolError::new(
                ErrorCode::InvalidParameters,
                owned("an events connection has to say which streams it wants"),
            ),
        );
    }
    let mut accepted: Vec<EventStream> = Vec::new();
    let mut i: usize = 0;
    while i < requested.len()
        invariant
            i <= requested@.len(),
            forall|j: int| 0 <= j < i ==> deliverable(#[trigger] requested@[j]),
            accepted@ == first_occurrences(requested@.take(i as int)),
            forall|j: int| 0 <= j < accepted@.len() ==> deliverable(#[trigger] accepted@[j]),
        decreases requested@.len() - i,
    {
        assert(requested@.take(i as int + 1).drop_last() =~= requested@.take(i as int));
        match &requested[i] {
            EventStream::Status => {
                let already = subscribes_to(&accepted, &EventStream::Status);
                proof {
                    lemma_names_deliverable(accepted@, EventStream::Status);
                }
                if !already {
                    accepted.push(EventStream::Status);
                }
            },
            EventStream::Errors => {
                let already = subscribes_to(&accepted, &EventStream::Errors);
                proof {
                    lemma_names_deliverable(accepted@, EventStream::Errors);
                }
                if !already {
                    accepted.push(EventStream::Errors);
                }
            },
            EventStream::Metrics => {
                let refusal = ProtocolError::not_implemented("live recording metrics", "M14", 100);
                proof {
                    assert(first_undeliverable(requested@, i as int));
                    assert(!deliverable(requested@[i as int]));
                }
                return Err(refusal);
            },
            EventStream::Other(name) => {
                let mut message = owned("this recorder has no `");
                message.append(name.as_str());
                message.append("` event stream");
                let refusal = ProtocolError::new(ErrorCode::InvalidParameters, message);
                proof {
                    assert(first_undeliverable(requested@, i as int));
                    assert(!deliverable(requested@[i as int]));
                }
                return Err(refusal);
            },
        }
        i = i + 1;
    }
    assert(requested@.take(requested@.len() as int) =~= requested@);
    Ok(accepted)
}

/// Among deliverable streams, naming one is containing it.
proof fn lemma_names_deliverable(streams: Seq<EventStream>, stream: EventStream)
    requires
        forall|j: int| 0 <= j < streams.len() ==> deliverable(#[trigger] streams[j]),
        deliverable(stream),
    ensures
        names_stream(streams, stream) == streams.contains(stream),
{
    if names_stream(streams, stream) {
        let j = choose|j: int| 0 <= j < streams.len() && same_stream(#[trigger] streams[j], stream);
        assert(streams[j] == stream);
    }
    if streams.contains(stream) {
        let j = choose|j: int| 0 <= j < streams.len() && streams[j] == stream;
        assert(same_stream(streams[j], stream));
    }
}

/// Every stream asked for is delivered, exactly once: the accepted streams
/// hold no repeat, and hold every stream that was asked for and nothing else.
pub proof fn lemma_first_occurrences_are_the_requested_streams_once(requested: Seq<EventStream>)
    ensures
        first_occurrences(requested).no_duplicates(),
        forall|s: EventStream| #[trigger] first_occurrences(requested).contains(s) <==> requested.contains(s),
    decreases requested.len(),
{
    if requested.len() > 0 {
        let earlier = requested.drop_last();
        lemma_first_occurrences_are_the_requested_streams_once(earlier);
        assert forall|s: EventStream| #[trigger] requested.contains(s) <==> (earlier.contains(s) || s == requested.last()) by {
            if requested.contains(s) {
                let j = choose|j: int| 0 <= j < requested.len() && requested[j] == s;
                if j < requested.len() - 1 {
                    assert(earlier[j] == s);
                }
            }
            if earlier.contains(s) {
                let j = choose|j: int| 0 <= j < earlier.len() && earlier[j] == s;
                assert(requested[j] == s);
            }
            if s == requested.last() {
                assert(requested[requested.len() - 1] == s);
            }
        }
        let result = first_occurrences(requested);
        if !first_occurrences(earlier).contains(requested.last()) {
            assert forall|s: EventStream| #[trigger] result.contains(s) <==> (first_occurrences(earlier).contains(s) || s == requested.last()) by {
                if result.contains(s) {
                    let j = choose|j: int| 0 <= j < result.len() && result[j] == s;
                    if j < result.len() - 1 {
                        assert(first_occurrences(earlier)[j] == s);
                    }
                }
                if first_occurrences(earlier).contains(s) {
                    let j = choose|j: int| 0 <= j < first_occurrences(earlier).len() && first_occurrences(earlier)[j] == s;
                    assert(result[j] == s);
                }
                if s == requested.last() {
                    assert(result[result.len() - 1] == s);
                }
            }
        }
    }
}

/// Whether `names` holds the name `shutdown`.
pub open spec fn announces_shutdown(names: Seq<String>) -> bool {
    exists|i: int| 0 <= i < names.len() && (#[trigger] names[i])@ == features::SHUTDOWN@
}

/// Whether `announced` is what a connection is told about an application that
/// says it can do `features`: the same list when it already names `shutdown`,
/// and otherwise the list followed by `shutdown`.
pub open spec fn announcement_of(features: Seq<String>, announced: Seq<String>) -> bool {
    if announces_shutdown(features) {
        announced == features
    } else {
        &&& announced.len() == features.len() + 1
        &&& announced.take(features.len() as int) == features
        &&& announced.last()@ == features::SHUTDOWN@
    }
}

/// What a connection is told this recorder can do: the application's own
/// list, in its order, plus `shutdown`, which the server claims itself. A list
/// that already names it is not given it twice.
pub fn announced_features(features: Vec<String>) -> (announced: Vec<String>)
    ensures
        announcement_of(features@, announced@),
        (exists|j: int| 0 <= j < features@.len() && (#[trigger] features@[j])@ == features::SHUTDOWN@)
            ==> announced@ == features@,
        !(exists|j: int| 0 <= j < features@.len() && (#[trigger] features@[j])@ == features::SHUTDOWN@)
            ==> announced@.len() == features@.len() + 1 && announced@.take(features@.len() as int)
            == features@ && announced@.last()@ == features::SHUTDOWN@,
{
    let mut features = features;
    let mut i: usize = 0;
    let mut found = false;
    while i < features.len()
        invariant
            i <= features@.len(),
            found == exists|j: int| 0 <= j < i && (#[trigger] features@[j])@ == features::SHUTDOWN@,
        decreases features@.len() - i,
    {
        if same_text(&features[i], features::SHUTDOWN) {
            found = true;
        }
        i = i + 1;
    }
    if !found {
        let ghost before = features@;
        features.push(owned(features::SHUTDOWN));
        assert(features@.take(before.len() as int) =~= before);
    }
    features
}

/// `shutdown` is always announced, and the application's own list is always
/// kept, in its order.
pub proof fn lemma_shutdown_is_always_announced(features: Seq<String>, announced: Seq<String>)
    requires
        announcement_of(features, announced),
    ensures
        announces_shutdown(announced),
        announced.take(features.len() as int) == features,
{
    if !announces_shutdown(features) {
        assert(announced[announced.len() - 1]@ == features::SHUTDOWN@);
    } else {
        assert(announced.take(features.len() as int) =~= features);
    }
}

/// An application list that names `shutdown` anywhere is announced as it is,
/// with nothing added; one that does not is announced with `shutdown` after
/// it. So a list that names `shutdown` at most once is announced naming it
/// exactly once.
pub proof fn lemma_shutdown_is_announced_once(features: Seq<String>, announced: Seq<String>)
    requires
        announcement_of(features, announced),
    ensures
        (exists|j: int| 0 <= j < features.len() && (#[trigger] features[j])@ == features::SHUTDOWN@)
            ==> announced == features,
        (forall|i: int, j: int|
            0 <= i < j < features.len() && (#[trigger] features[i])@ == features::SHUTDOWN@
                ==> (#[trigger] features[j])@ != features::SHUTDOWN@) ==> (exists|k: int|
            0 <= k < announced.len() && (#[trigger] announced[k])@ == features::SHUTDOWN@ && forall|
                m: int,
            |
                0 <= m < announced.len() && (#[trigger] announced[m])@ == features::SHUTDOWN@
                    ==> m == k),
{
    let once = forall|i: int, j: int|
        0 <= i < j < features.len() && (#[trigger] features[i])@ == features::SHUTDOWN@
            ==> (#[trigger] features[j])@ != features::SHUTDOWN@;
    if once {
        if announces_shutdown(features) {
            let k = choose|k: int| 0 <= k < features.len() && (#[trigger] features[k])@ == features::SHUTDOWN@;
            assert forall|m: int|
                0 <= m < announced.len() && (#[trigger] announced[m])@ == features::SHUTDOWN@ implies m == k by {
                if m < k {
                    assert(features[m]@ == features::SHUTDOWN@);
                } else if m > k {
                    assert(features[k]@ == features::SHUTDOWN@);
                    assert(features[m]@ == features::SHUTDOWN@);
                }
            }
        } else {
            let k = features.len() as int;
            assert(announced[k] == announced.last());
            assert forall|m: int|
                0 <= m < announced.len() && (#[trigger] announced[m])@ == features::SHUTDOWN@ implies m == k by {
                if m < k {
                    assert(announced.take(features.len() as int)[m] == announced[m]);
                    assert(features[m]@ == features::SHUTDOWN@);
                }
            }
        }
    }
}

/// The welcome a connection accepted in `role` is given.
pub fn welcome_for(
    identity: &PeerIdentity,
    features: Vec<String>,
    role: ConnectionRole,
    streams: Vec<EventStream>,
) -> (welcome: Welcome)
    ensures
        welcome.protocol_version == PROTOCOL_VERSION,
        welcome.recorder == *identity,
        welcome.role == role,
        welcome.features@ == features@,
        welcome.streams@ == streams@,
{
    Welcome {
        protocol_version: PROTOCOL_VERSION,
        recorder: identity.duplicate(),
        role,
        features,
        streams,
    }
}

/// How the recorder answers a handshake.
#[derive(Debug)]
pub enum HelloAnswer {
    /// Refused with this, and the connection closed.
    Refuse(ProtocolError),
    /// Welcomed with this. An events connection is then subscribed to the
    /// streams the welcome names.
    Welcome(Welcome),
}

/// The refusal of a connection that is neither `control` nor `events`.
pub fn unknown_role_refusal() -> (refusal: ProtocolError)
    ensures
        refusal.code == ErrorCode::InvalidParameters,
        refusal.message@ == "a connection is either `control` or `events`, and this was neither"@,
        refusal.detail is None,
{
    ProtocolError::new(
        ErrorCode::InvalidParameters,
        owned("a connection is either `control` or `events`, and this was neither"),
    )
}

/// Whether a handshake is admitted, before anything is asked of the
/// application: an unsupported version is refused with the versions this
/// recorder speaks, never downgraded; a control connection is admitted with
/// no streams; an events connection is admitted with the streams it will get,
/// or refused if it cannot have them all; any other role is refused.
pub fn admit_hello(hello: Hello, identity: &PeerIdentity) -> (admitted: Result<
    (ConnectionRole, Vec<EventStream>),
    ProtocolError,
>)
    ensures
        !speaks(hello.protocol_version) ==> (admitted matches Err(e) && e.code
            == ErrorCode::UnsupportedProtocolVersion && e.message@ == unsupported_version_text(
            hello.protocol_version,
        ) && (e.detail matches Some(
            ErrorDetail::UnsupportedProtocolVersion { requested, supported, recorder_version },
        ) && requested == hello.protocol_version && supported@ == SUPPORTED_PROTOCOL_VERSIONS@
            && recorder_version == identity.version)),
        speaks(hello.protocol_version) && hello.role == ConnectionRole::Control ==> (admitted matches Ok(
            (role, streams),
        ) && role == ConnectionRole::Control && streams@.len() == 0),
        speaks(hello.protocol_version) && hello.role == ConnectionRole::Events ==> match admitted {
            Ok((role, streams)) => role == ConnectionRole::Events && hello.streams@.len() > 0
                && all_deliverable(hello.streams@) && streams@ == first_occurrences(hello.streams@),
            Err(e) => !(hello.streams@.len() > 0 && all_deliverable(hello.streams@))
                && stream_refusal(hello.streams@, e),
        },
        speaks(hello.protocol_version) && hello.role == ConnectionRole::Unknown ==> (admitted matches Err(e)
            && e.code == ErrorCode::InvalidParameters && e.message@
            == "a connection is either `control` or `events`, and this was neither"@ && e.detail is None),
{
    if !is_supported_version(hello.protocol_version) {
        return Err(version_refusal(hello.protocol_version, identity));
    }
    match hello.role {
        ConnectionRole::Control => Ok((ConnectionRole::Control, Vec::new())),
        ConnectionRole::Events => {
            match accepted_streams(&hello.streams) {
                Ok(streams) => Ok((ConnectionRole::Events, streams)),
                Err(refusal) => Err(refusal),
            }
        },
        ConnectionRole::Unknown => Err(unknown_role_refusal()),
    }
}

/// Whether `answer` is the answer to `hello` from a recorder that is
/// `identity` and whose application says it can do `features`: an
/// unsupported version is refused with the versions this recorder speaks,
/// never downgraded; a control connection is welcomed; an events connection
/// is welcomed with the streams it will get, or refused if it cannot have
/// them all; any other role is refused. Every welcome announces `shutdown`
/// beside the application's own features.
pub open spec fn answers_hello(
    hello: Hello,
    identity: PeerIdentity,
    features: Seq<String>,
    answer: HelloAnswer,
) -> bool {
    &&& !speaks(hello.protocol_version) ==> (answer matches HelloAnswer::Refuse(e) && e.code
            == ErrorCode::UnsupportedProtocolVersion && e.message@ == unsupported_version_text(
            hello.protocol_version,
        ) && (e.detail matches Some(
            ErrorDetail::UnsupportedProtocolVersion { requested, supported, recorder_version },
        ) && requested == hello.protocol_version && supported@ == SUPPORTED_PROTOCOL_VERSIONS@
            && recorder_version == identity.version))
    &&& speaks(hello.protocol_version) && hello.role == ConnectionRole::Control ==> (answer matches HelloAnswer::Welcome(w)
            && w.protocol_version == PROTOCOL_VERSION && w.recorder == identity && w.role
            == ConnectionRole::Control && w.streams@.len() == 0 && announcement_of(features, w.features@))
    &&& speaks(hello.protocol_version) && hello.role == ConnectionRole::Events ==> match answer {
            HelloAnswer::Welcome(w) => w.protocol_version == PROTOCOL_VERSION && w.role
                == ConnectionRole::Events && w.recorder == identity && hello.streams@.len() > 0
                && all_deliverable(hello.streams@) && w.streams@ == first_occurrences(hello.streams@)
                && announcement_of(features, w.features@),
            HelloAnswer::Refuse(e) => !(hello.streams@.len() > 0 && all_deliverable(hello.streams@))
                && stream_refusal(hello.streams@, e),
        }
    &&& speaks(hello.protocol_version) && hello.role == ConnectionRole::Unknown ==> (answer matches HelloAnswer::Refuse(e)
            && e.code == ErrorCode::InvalidParameters && e.message@
            == "a connection is either `control` or `events`, and this was neither"@ && e.detail is None)
}

/// The answer to a handshake: refused as [`admit_hello`] refuses it, or
/// welcomed in the role and with the streams it admits.
///
/// `features` is what the application says it can do; every welcome
/// announces `shutdown` as well.
pub fn answer_hello(hello: Hello, identity: &PeerIdentity, features: Vec<String>) -> (answer:
    HelloAnswer)
    ensures
        answers_hello(hello, *identity, features@, answer),
{
    match admit_hello(hello, identity) {
        Err(refusal) => HelloAnswer::Refuse(refusal),
        Ok((role, streams)) => {
            let announced = announced_features(features);
            HelloAnswer::Welcome(welcome_for(identity, announced, role, streams))
        },
    }
}

/// The refusal a frame that could not be read deserves: `malformed_frame`,
/// with the sentence describing what was wrong with it.
pub fn frame_refusal(error: &FrameError) -> (refusal: ProtocolError)
    ensures
        refusal.code == ErrorCode::MalformedFrame,
        refusal.detail is None,
        described_as(*error, refusal.message@),
{
    ProtocolError::new(ErrorCode::MalformedFrame, error.describe())
}

/// The sentence a request sent before the handshake is refused with.
pub open spec fn handshake_required_text(command: Seq<char>) -> Seq<char> {
    "`"@ + command
        + "` arrived before the handshake; the first message on a connection states the protocol version"@
}

/// Insists that the first frame on a connection is a handshake.
pub fn read_hello(first: Result<ClientMessage, FrameError>) -> (hello: Result<Hello, ProtocolError>)
    ensures
        match first {
            Ok(ClientMessage::Hello(h)) => hello == Ok::<Hello, ProtocolError>(h),
            Ok(ClientMessage::Request(r)) => hello matches Err(e) && e.code
                == ErrorCode::HandshakeRequired && e.message@ == handshake_required_text(r.command@)
                && e.detail is None,
            Err(f) => hello matches Err(e) && e.code == ErrorCode::MalformedFrame && e.detail is None
                && described_as(f, e.message@),
        },
{
    match first {
        Ok(ClientMessage::Hello(hello)) => Ok(hello),
        Ok(ClientMessage::Request(request)) => {
            let mut message = owned("`");
            message.append(request.command.as_str());
            message.append(
                "` arrived before the handshake; the first message on a connection states the protocol version",
            );
            Err(ProtocolError::new(ErrorCode::HandshakeRequired, message))
        },
        Err(error) => Err(frame_refusal(&error)),
    }
}

/// What a control connection does with the next thing it read.
#[derive(Debug)]
pub enum CommandStep {
    /// The client has gone: stop serving this connection.
    Stop,
    /// Refuse with this and close the connection.
    Refuse(ProtocolError),
    /// Answer this request, and read the next.
    Answer(Request),
}

/// What a control connection does with the next frame: a disconnect ends it,
/// an unreadable frame or a second handshake is refused and ends it, and a
/// request is answered.
pub fn command_step(next: Result<ClientMessage, FrameError>) -> (step: CommandStep)
    ensures
        match next {
            Ok(ClientMessage::Request(r)) => step == CommandStep::Answer(r),
            Ok(ClientMessage::Hello(_)) => step matches CommandStep::Refuse(e) && e.code
                == ErrorCode::MalformedFrame && e.message@
                == "the handshake happens once, at the start of a connection"@,
            Err(f) => if f is Disconnected {
                step is Stop
            } else {
                step matches CommandStep::Refuse(e) && e.code == ErrorCode::MalformedFrame
                    && e.detail is None && described_as(f, e.message@)
            },
        },
{
    match next {
        Ok(ClientMessage::Request(request)) => CommandStep::Answer(request),
        Ok(ClientMessage::Hello(_)) => CommandStep::Refuse(
            ProtocolError::new(
                ErrorCode::MalformedFrame,
                owned("the handshake happens once, at the start of a connection"),
            ),
        ),
        Err(error) => {
            if error.is_disconnect() {
                CommandStep::Stop
            } else {
                CommandStep::Refuse(frame_refusal(&error))
            }
        },
    }
}

/// The parts of a parsed command that decide who performs it.
#[derive(Debug, Clone, Copy, PartialEq, Eq, Structural)]
pub enum Requested {
    /// `start_recording`, which a recorder on its way out refuses.
    StartRecording,
    /// `shutdown`, which the server performs itself.
    Shutdown(Shutdown),
    /// Any other command, which the application performs.
    Other,
}

/// Who answers a request.
#[derive(Debug)]
pub enum Dispatch {
    /// Nobody performs it: it is answered with this refusal.
    Refuse(ProtocolError),
    /// The server decides this shutdown itself.
    DecideShutdown(Shutdown),
    /// The application performs it.
    Perform,
}

/// Who answers a request that was parsed into `parsed`, or refused by the
/// parser.
///
/// A recorder that has shut its door refuses `start_recording` with
/// `shutting_down`; `shutdown` never reaches the application.
pub fn dispatch(parsed: Result<Requested, ProtocolError>, shutdown: &ShutdownRequest) -> (who:
    Dispatch)
    ensures
        match parsed {
            Err(e) => who == Dispatch::Refuse(e),
            Ok(Requested::StartRecording) => if shutdown.closed_to_recordings() {
                who matches Dispatch::Refuse(e) && e.code == ErrorCode::ShuttingDown && e.message@
                    == "this recorder has been asked to exit and will not start a recording"@
            } else {
                who is Perform
            },
            Ok(Requested::Shutdown(request)) => who == Dispatch::DecideShutdown(request),
            Ok(Requested::Other) => who is Perform,
        },
{
    match parsed {
        Err(refusal) => Dispatch::Refuse(refusal),
        Ok(Requested::StartRecording) => {
            if shutdown.is_shutting_down() {
                Dispatch::Refuse(
                    ProtocolError::new(
                        ErrorCode::ShuttingDown,
                        owned("this recorder has been asked to exit and will not start a recording"),
                    ),
                )
            } else {
                Dispatch::Perform
            }
        },
        Ok(Requested::Shutdown(request)) => Dispatch::DecideShutdown(request),
        Ok(Requested::Other) => Dispatch::Perform,
    }
}

/// Whether a shutdown is accepted while the recorder is in `status`: always,
/// unless it is recording and the request did not say it may finish the
/// recording.
pub open spec fn shutdown_accepted(status: RecorderStatus, request: Shutdown) -> bool {
    !(status is Recording && !request.finalise_recording)
}

/// The sentence a shutdown that would end a recording unasked is refused with.
pub open spec fn still_recording_text(target: Seq<char>, output: Seq<char>) -> Seq<char> {
    "`"@ + target + "` is being recorded to "@ + output
        + "; ask again with `finalise_recording` to finish that file and exit"@
}

/// What a shutdown request is answered with.
#[derive(Debug)]
pub enum ShutdownAnswer {
    /// Refused: the recorder keeps serving.
    Refused(ProtocolError),
    /// Accepted: the reply names the recording that will be finished, if any,
    /// and once it is written the listener is to stop.
    Accepted(Option<ActiveRecording>),
}

/// Decides a shutdown, once the door is shut and the status has been read.
///
/// A recording is the whole of the decision: a recorder asked to exit while it
/// is recording refuses unless the request said it may finish the recording,
/// and names what it is recording and how to proceed; a refused shutdown opens
/// the door again, leaving the recorder exactly as it was. An accepted one
/// names the recording that will be finished and keeps the door shut.
pub fn accept_shutdown(shutdown: &mut ShutdownRequest, status: RecorderStatus, request: Shutdown) -> (answer:
    ShutdownAnswer)
    requires
        old(shutdown).closed_to_recordings(),
    ensures
        final(shutdown).requested() == old(shutdown).requested(),
        shutdown_accepted(status, request) ==> final(shutdown).closed_to_recordings() && answer
            == ShutdownAnswer::Accepted(match status {
                RecorderStatus::Recording(active) => Some(active),
                _ => None,
            }),
        !shutdown_accepted(status, request) ==> !final(shutdown).closed_to_recordings() && (
        answer matches ShutdownAnswer::Refused(e) && e.code == ErrorCode::AlreadyRecording
            && (status matches RecorderStatus::Recording(active) && e.message@ == still_recording_text(
            active.target@,
            active.output@,
        ))),
{
    match status {
        RecorderStatus::Recording(active) => {
            if request.finalise_recording {
                ShutdownAnswer::Accepted(Some(active))
            } else {
                shutdown.abandon();
                let mut message = owned("`");
                message.append(active.target.as_str());
                message.append("` is being recorded to ");
                message.append(active.output.as_str());
                message.append(
                    "; ask again with `finalise_recording` to finish that file and exit",
                );
                ShutdownAnswer::Refused(ProtocolError::new(ErrorCode::AlreadyRecording, message))
            }
        },
        _ => ShutdownAnswer::Accepted(None),
    }
}

/// Whether an events connection opens with the recorder's current state: it
/// does when it subscribed to `status`.
pub fn opens_with_status(streams: &Vec<EventStream>) -> (opens: bool)
    ensures
        opens == names_stream(streams@, EventStream::Status),
{
    subscribes_to(streams, &EventStream::Status)
}

/// Whether an event goes to a subscriber of `streams`: it does when the event
/// belongs to a stream and the subscriber asked for that stream. An event this
/// build cannot place goes to nobody.
pub fn delivers_to(event: &Event, streams: &Vec<EventStream>) -> (delivered: bool)
    ensures
        delivered == match event.stream_of() {
            Some(stream) => names_stream(streams@, stream),
            None => false,
        },
{
    match event.stream() {
        Some(stream) => subscribes_to(streams, &stream),
        None => false,
    }
}

/// How handing an event to a subscriber went.
#[derive(Debug, Clone, Copy, PartialEq, Eq, Structural)]
pub enum Delivery {
    /// It was queued.
    Queued,
    /// The subscriber's queue was full, and the event was dropped for it.
    QueueFull,
    /// The subscriber has gone.
    Gone,
}

/// Whether a subscriber stays subscribed after a delivery: one that has gone
/// is forgotten, and one that is too far behind loses the event and stays.
pub fn keeps_subscriber(delivery: Delivery) -> (kept: bool)
    ensures
        kept == !(delivery is Gone),
{
    !matches!(delivery, Delivery::Gone)
}

/// Once a shutdown has been decided, whether a recording may start is its
/// answer: an accepted shutdown keeps the door shut, so [`dispatch`] refuses
/// `start_recording` with `shutting_down`; a refused one opens it again, so
/// `start_recording` reaches the application exactly as before. Neither
/// decision asks the listener to stop.
pub proof fn lemma_a_decided_shutdown_governs_new_recordings(
    before: ShutdownRequest,
    after: ShutdownRequest,
    status: RecorderStatus,
    request: Shutdown,
)
    requires
        before.closed_to_recordings(),
        after.requested() == before.requested(),
        shutdown_accepted(status, request) ==> after.closed_to_recordings(),
        !shutdown_accepted(status, request) ==> !after.closed_to_recordings(),
    ensures
        shutdown_accepted(status, request) <==> after.closed_to_recordings(),
        status is Recording && !request.finalise_recording ==> !after.closed_to_recordings(),
        !(status is Recording) ==> after.closed_to_recordings(),
        request.finalise_recording ==> after.closed_to_recordings(),
        after.requested() == before.requested(),
{
}

/// Subscribing to events, from the handshake to what is delivered. The
/// handshake [`crate::client::hello`] writes for an events connection asks,
/// at the one version this build speaks, for exactly the streams given; the
/// recorder welcomes it exactly when it names at least one stream and every
/// one of them can be delivered, so asking this build for `metrics` is
/// refused. A welcome is read by the client as a welcome naming each stream
/// asked for once, in the order first asked, and a refusal as that refusal.
pub proof fn lemma_a_subscription_gets_what_it_asked_for<R>(
    sent: ClientMessage,
    name: Seq<char>,
    version: Seq<char>,
    streams: Seq<EventStream>,
    identity: PeerIdentity,
    features: Seq<String>,
    answer: HelloAnswer,
)
    requires
        greets(sent, name, version, ConnectionRole::Events, streams),
        sent matches ClientMessage::Hello(h) && answers_hello(h, identity, features, answer),
    ensures
        sent matches ClientMessage::Hello(h) && h.protocol_version == PROTOCOL_VERSION && h.role
            == ConnectionRole::Events && h.streams@ == streams,
        answer is Welcome <==> streams.len() > 0 && all_deliverable(streams),
        streams.contains(EventStream::Metrics) ==> answer is Refuse,
        answer matches HelloAnswer::Welcome(w) ==> handshake_reading(ServerMessage::<R>::Welcome(w))
            == HandshakeAnswer::<R>::Welcomed(w) && w.role == ConnectionRole::Events && w.streams@
            == first_occurrences(streams),
        answer matches HelloAnswer::Refuse(e) ==> handshake_reading(ServerMessage::<R>::Refused(e))
            == HandshakeAnswer::<R>::Refused(e),
{
    assert(speaks(PROTOCOL_VERSION));
    if streams.contains(EventStream::Metrics) {
        let j = choose|j: int| 0 <= j < streams.len() && streams[j] == EventStream::Metrics;
        assert(!deliverable(streams[j]));
    }
}

} // verus!
