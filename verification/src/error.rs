//! What the recorder says when it will not do what it was asked.
//!
//! Every refusal is a [`ProtocolError`]: a stable, machine-readable
//! [`ErrorCode`], one sentence for a person, and for the two codes that have
//! any, the machine-readable particulars in an [`ErrorDetail`]. A code this
//! build has never heard of is kept verbatim as [`ErrorCode::Other`] rather
//! than failing the message that carried it.

use vstd::prelude::*;

use crate::text::{owned, same_text};

verus! {

/// `serde_json::Value`, carried opaquely where a message holds JSON this build
/// does not interpret.
#[verifier::external_type_specification]
#[verifier::external_body]
pub struct ExJsonValue(serde_json::Value);

/// `Clone` for `serde_json::Value`, so that what carries one can be cloned.
/// Nothing is claimed about the copy.
pub assume_specification[ <serde_json::Value as Clone>::clone ](value: &serde_json::Value) -> serde_json::Value;

/// The stable vocabulary of refusals.
#[derive(Debug, Clone, PartialEq, Eq)]
pub enum ErrorCode {
    /// `unsupported_protocol_version`: the version the client asked for is not
    /// one this recorder speaks.
    UnsupportedProtocolVersion,
    /// `handshake_required`: a request arrived before the handshake.
    HandshakeRequired,
    /// `malformed_frame`: the bytes on the connection were not a message.
    MalformedFrame,
    /// `unknown_command`: no command by that name exists in this build.
    UnknownCommand,
    /// `invalid_parameters`: the parameters do not describe something that
    /// could be done.
    InvalidParameters,
    /// `not_implemented`: the subsystem behind the command is not in this
    /// build.
    NotImplemented,
    /// `already_recording`: a recording is already running.
    AlreadyRecording,
    /// `not_recording`: there is nothing to stop.
    NotRecording,
    /// `target_not_found`: no window matched what was asked for.
    TargetNotFound,
    /// `recording_failed`: capture, encoding or muxing refused.
    RecordingFailed,
    /// `too_many_connections`: the recorder is serving as many connections as
    /// it will.
    TooManyConnections,
    /// `shutting_down`: the recorder has accepted a `shutdown` and will start
    /// nothing new.
    ShuttingDown,
    /// `internal`: the recorder is at fault.
    Internal,
    /// A code this build has never heard of, kept verbatim.
    Other(String),
}

/// The wire strings of the codes this build knows, in declaration order.
pub open spec fn known_error_code(name: Seq<char>) -> bool {
    ||| name == "unsupported_protocol_version"@
    ||| name == "handshake_required"@
    ||| name == "malformed_frame"@
    ||| name == "unknown_command"@
    ||| name == "invalid_parameters"@
    ||| name == "not_implemented"@
    ||| name == "already_recording"@
    ||| name == "not_recording"@
    ||| name == "target_not_found"@
    ||| name == "recording_failed"@
    ||| name == "too_many_connections"@
    ||| name == "shutting_down"@
    ||| name == "internal"@
}

impl ErrorCode {
    /// The wire string of this code.
    pub open spec fn wire(&self) -> Seq<char> {
        match self {
            ErrorCode::UnsupportedProtocolVersion => "unsupported_protocol_version"@,
            ErrorCode::HandshakeRequired => "handshake_required"@,
            ErrorCode::MalformedFrame => "malformed_frame"@,
            ErrorCode::UnknownCommand => "unknown_command"@,
            ErrorCode::InvalidParameters => "invalid_parameters"@,
            ErrorCode::NotImplemented => "not_implemented"@,
            ErrorCode::AlreadyRecording => "already_recording"@,
            ErrorCode::NotRecording => "not_recording"@,
            ErrorCode::TargetNotFound => "target_not_found"@,
            ErrorCode::RecordingFailed => "recording_failed"@,
            ErrorCode::TooManyConnections => "too_many_connections"@,
            ErrorCode::ShuttingDown => "shutting_down"@,
            ErrorCode::Internal => "internal"@,
            ErrorCode::Other(code) => code@,
        }
    }

    /// The known code a wire string names, if it names one.
    pub open spec fn known(name: Seq<char>) -> Option<ErrorCode> {
        if name == "unsupported_protocol_version"@ {
            Some(ErrorCode::UnsupportedProtocolVersion)
        } else if name == "handshake_required"@ {
            Some(ErrorCode::HandshakeRequired)
        } else if name == "malformed_frame"@ {
            Some(ErrorCode::MalformedFrame)
        } else if name == "unknown_command"@ {
            Some(ErrorCode::UnknownCommand)
        } else if name == "invalid_parameters"@ {
            Some(ErrorCode::InvalidParameters)
        } else if name == "not_implemented"@ {
            Some(ErrorCode::NotImplemented)
        } else if name == "already_recording"@ {
            Some(ErrorCode::AlreadyRecording)
        } else if name == "not_recording"@ {
            Some(ErrorCode::NotRecording)
        } else if name == "target_not_found"@ {
            Some(ErrorCode::TargetNotFound)
        } else if name == "recording_failed"@ {
            Some(ErrorCode::RecordingFailed)
        } else if name == "too_many_connections"@ {
            Some(ErrorCode::TooManyConnections)
        } else if name == "shutting_down"@ {
            Some(ErrorCode::ShuttingDown)
        } else if name == "internal"@ {
            Some(ErrorCode::Internal)
        } else {
            None
        }
    }

    /// The code a wire string names, keeping one this build does not know.
    pub open spec fn parsed(code: String) -> ErrorCode {
        match ErrorCode::known(code@) {
            Some(known) => known,
            None => ErrorCode::Other(code),
        }
    }

    /// The wire string.
    pub fn as_str(&self) -> (name: &str)
        ensures
            name@ == self.wire(),
    {
        match self {
            ErrorCode::UnsupportedProtocolVersion => "unsupported_protocol_version",
            ErrorCode::HandshakeRequired => "handshake_required",
            ErrorCode::MalformedFrame => "malformed_frame",
            ErrorCode::UnknownCommand => "unknown_command",
            ErrorCode::InvalidParameters => "invalid_parameters",
            ErrorCode::NotImplemented => "not_implemented",
            ErrorCode::AlreadyRecording => "already_recording",
            ErrorCode::NotRecording => "not_recording",
            ErrorCode::TargetNotFound => "target_not_found",
            ErrorCode::RecordingFailed => "recording_failed",
            ErrorCode::TooManyConnections => "too_many_connections",
            ErrorCode::ShuttingDown => "shutting_down",
            ErrorCode::Internal => "internal",
            ErrorCode::Other(code) => code.as_str(),
        }
    }

    /// The code a wire string names, keeping one this build does not know.
    pub fn from_wire(code: String) -> (parsed: ErrorCode)
        ensures
            parsed == ErrorCode::parsed(code),
    {
        if same_text(&code, "unsupported_protocol_version") {
            ErrorCode::UnsupportedProtocolVersion
        } else if same_text(&code, "handshake_required") {
            ErrorCode::HandshakeRequired
        } else if same_text(&code, "malformed_frame") {
            ErrorCode::MalformedFrame
        } else if same_text(&code, "unknown_command") {
            ErrorCode::UnknownCommand
        } else if same_text(&code, "invalid_parameters") {
            ErrorCode::InvalidParameters
        } else if same_text(&code, "not_implemented") {
            ErrorCode::NotImplemented
        } else if same_text(&code, "already_recording") {
            ErrorCode::AlreadyRecording
        } else if same_text(&code, "not_recording") {
            ErrorCode::NotRecording
        } else if same_text(&code, "target_not_found") {
            ErrorCode::TargetNotFound
        } else if same_text(&code, "recording_failed") {
            ErrorCode::RecordingFailed
        } else if same_text(&code, "too_many_connections") {
            ErrorCode::TooManyConnections
        } else if same_text(&code, "shutting_down") {
            ErrorCode::ShuttingDown
        } else if same_text(&code, "internal") {
            ErrorCode::Internal
        } else {
            ErrorCode::Other(code)
        }
    }

    /// The wire string, as an owned string: a code this build did not know
    /// goes back out exactly as it came in.
    pub fn into_wire(self) -> (name: String)
        ensures
            name@ == self.wire(),
    {
        match self {
            ErrorCode::Other(code) => code,
            known => owned(known.as_str()),
        }
    }
}

impl From<String> for ErrorCode {
    /// The code a wire string names, keeping one this build does not know.
    fn from(code: String) -> (parsed: ErrorCode) {
        ErrorCode::from_wire(code)
    }
}

impl vstd::std_specs::convert::FromSpecImpl<String> for ErrorCode {
    open spec fn obeys_from_spec() -> bool {
        true
    }

    open spec fn from_spec(code: String) -> ErrorCode {
        ErrorCode::parsed(code)
    }
}

/// Reading a wire string and writing it back out gives the same string, for
/// every string: a known code is spelled as it was read, and an unknown one is
/// kept verbatim.
pub proof fn lemma_error_code_wire_round_trip(code: String)
    ensures
        ErrorCode::parsed(code).wire() == code@,
{
}

/// The machine-readable particulars of the refusals that have any.
#[derive(Debug, Clone, PartialEq, Eq)]
pub enum ErrorDetail {
    /// Which versions this recorder actually speaks.
    UnsupportedProtocolVersion {
        /// What the client asked for.
        requested: u32,
        /// Every version the recorder would have accepted.
        supported: Vec<u32>,
        /// The recorder's own build version.
        recorder_version: String,
    },
    /// Which subsystem is missing, and where it is being built.
    NotImplemented {
        /// The subsystem in the user's words.
        subsystem: String,
        /// The milestone that builds it.
        milestone: String,
        /// The issue that tracks it.
        tracking_issue: u32,
    },
    /// A detail this build has never heard of, kept exactly as it arrived.
    Other(serde_json::Value),
}

/// A refusal, in the form the desktop application renders.
#[derive(Debug, Clone, PartialEq, Eq)]
pub struct ProtocolError {
    /// What kind of refusal this is.
    pub code: ErrorCode,
    /// One sentence for a person.
    pub message: String,
    /// The particulars, for the codes that have any.
    pub detail: Option<ErrorDetail>,
}

/// The sentence a missing subsystem is refused with.
pub open spec fn not_in_this_build(subsystem: Seq<char>) -> Seq<char> {
    subsystem + " is not in this build"@
}

impl ProtocolError {
    /// A refusal with a code and a message and nothing else.
    pub fn new(code: ErrorCode, message: String) -> (error: ProtocolError)
        ensures
            error == (ProtocolError { code, message, detail: None }),
    {
        ProtocolError { code, message, detail: None }
    }

    /// The same refusal, with the machine-readable particulars attached.
    pub fn with_detail(self, detail: ErrorDetail) -> (error: ProtocolError)
        ensures
            error == (ProtocolError { detail: Some(detail), ..self }),
    {
        ProtocolError { detail: Some(detail), ..self }
    }

    /// The refusal a command whose subsystem this build does not contain gets:
    /// it names the subsystem, the milestone that builds it and the issue that
    /// tracks it.
    pub fn not_implemented(subsystem: &str, milestone: &str, tracking_issue: u32) -> (error:
        ProtocolError)
        ensures
            error.code == ErrorCode::NotImplemented,
            error.message@ == not_in_this_build(subsystem@),
            error.detail matches Some(ErrorDetail::NotImplemented { subsystem: s, milestone: m, tracking_issue: t })
                && s@ == subsystem@ && m@ == milestone@ && t == tracking_issue,
    {
        let message = owned(subsystem).concat(" is not in this build");
        ProtocolError::new(ErrorCode::NotImplemented, message).with_detail(
            ErrorDetail::NotImplemented {
                subsystem: owned(subsystem),
                milestone: owned(milestone),
                tracking_issue,
            },
        )
    }

    /// The sentence and the code, as a log line shows them.
    pub fn describe(&self) -> (text: String)
        ensures
            text@ == self.message@ + " ("@ + self.code.wire() + ")"@,
    {
        let mut text = self.message.clone();
        text.append(" (");
        text.append(self.code.as_str());
        text.append(")");
        text
    }
}

/// The names of the known codes: their lengths and first characters, which
/// between them tell every pair apart.
proof fn lemma_known_error_names()
    ensures
        "unsupported_protocol_version"@.len() == 28 && "unsupported_protocol_version"@[0] == 'u',
        "handshake_required"@.len() == 18 && "handshake_required"@[0] == 'h',
        "malformed_frame"@.len() == 15 && "malformed_frame"@[0] == 'm',
        "unknown_command"@.len() == 15 && "unknown_command"@[0] == 'u',
        "invalid_parameters"@.len() == 18 && "invalid_parameters"@[0] == 'i',
        "not_implemented"@.len() == 15 && "not_implemented"@[0] == 'n',
        "already_recording"@.len() == 17 && "already_recording"@[0] == 'a',
        "not_recording"@.len() == 13 && "not_recording"@[0] == 'n',
        "target_not_found"@.len() == 16 && "target_not_found"@[0] == 't',
        "recording_failed"@.len() == 16 && "recording_failed"@[0] == 'r',
        "too_many_connections"@.len() == 20 && "too_many_connections"@[0] == 't',
        "shutting_down"@.len() == 13 && "shutting_down"@[0] == 's',
        "internal"@.len() == 8 && "internal"@[0] == 'i',
{
    reveal_strlit("unsupported_protocol_version");
    reveal_strlit("handshake_required");
    reveal_strlit("malformed_frame");
    reveal_strlit("unknown_command");
    reveal_strlit("invalid_parameters");
    reveal_strlit("not_implemented");
    reveal_strlit("already_recording");
    reveal_strlit("not_recording");
    reveal_strlit("target_not_found");
    reveal_strlit("recording_failed");
    reveal_strlit("too_many_connections");
    reveal_strlit("shutting_down");
    reveal_strlit("internal");
}

/// A known code survives a trip through its wire string, and so does an
/// unknown one whose name is not one this build knows.
pub proof fn lemma_error_code_parse_round_trip(code: ErrorCode)
    requires
        code matches ErrorCode::Other(name) ==> !known_error_code(name@),
    ensures
        code !is Other ==> ErrorCode::known(code.wire()) == Some(code),
        code matches ErrorCode::Other(name) ==> ErrorCode::parsed(name) == code,
{
    lemma_known_error_names();
}

} // verus!
