//! What the recorder is doing, and what it did.
//!
//! [`RecorderStatus`] is the one vocabulary here that does not tolerate a
//! stranger: a state this build cannot read fails the message that carried it,
//! because a window showing "idle" for a recorder doing something else would be
//! a lie. [`EndReason`], by contrast, keeps a reason it has never heard of.

use vstd::prelude::*;

use crate::text::{owned, same_text};

verus! {

/// What the recorder is doing right now.
#[derive(Debug, Clone, PartialEq, Eq)]
pub enum RecorderStatus {
    /// Not recording, and not watching for a game to record.
    Idle,
    /// Watching for a catalogued game to launch, and not recording.
    Watching(Watching),
    /// Recording.
    Recording(ActiveRecording),
}

/// A recorder waiting for a game, perhaps inside a sitting that is waiting out
/// its restart grace.
#[derive(Debug, Clone, PartialEq, Eq)]
pub struct Watching {
    /// The sitting still open, if there is one.
    pub session: Option<Box<SessionSummary>>,
}

/// The recording in progress.
#[derive(Debug, Clone, PartialEq, Eq)]
pub struct ActiveRecording {
    /// Identifies this recording in later requests and events.
    pub recording_id: String,
    /// The file being written.
    pub output: String,
    /// What is being recorded, in words.
    pub target: String,
    /// How long it has been recording, in milliseconds.
    pub elapsed_ms: u64,
    /// How many seconds of replay buffer this recording keeps, if any.
    pub replay_seconds: Option<u32>,
    /// The sitting this recording belongs to, if it belongs to one.
    pub session: Option<Box<SessionSummary>>,
}

/// A sitting: one game played, and the files recorded while it was.
#[derive(Debug, Clone, PartialEq, Eq)]
pub struct SessionSummary {
    /// Identifies the sitting.
    pub session_id: String,
    /// The catalogue's identifier for the game, where it attributed one.
    pub game_id: Option<String>,
    /// The game's name, where the catalogue attributed one.
    pub game_name: Option<String>,
    /// When the sitting began.
    pub started_at: String,
    /// When it ended, for one that has.
    pub ended_at: Option<String>,
    /// Why it ended, kept verbatim.
    pub end_reason: Option<String>,
    /// The files of the sitting, in the order they were started.
    pub recordings: Vec<SessionRecording>,
}

/// One file of a sitting.
#[derive(Debug, Clone, PartialEq, Eq)]
pub struct SessionRecording {
    /// Where this file falls in its sitting, counting from one.
    pub session_index: u32,
    /// The file.
    pub output: String,
    /// How the recording of it went, once it is finished.
    pub outcome: Option<String>,
    /// Why the file ended, once it has.
    pub end_reason: Option<String>,
    /// How long it is, once it is finished.
    pub duration_ms: Option<u64>,
}

impl Default for Watching {
    fn default() -> (watching: Watching)
        ensures
            watching.session is None,
    {
        Watching { session: None }
    }
}

impl Default for SessionSummary {
    fn default() -> (summary: SessionSummary)
        ensures
            summary.session_id@ == Seq::<char>::empty(),
            summary.game_id is None,
            summary.game_name is None,
            summary.started_at@ == Seq::<char>::empty(),
            summary.ended_at is None,
            summary.end_reason is None,
            summary.recordings@ == Seq::<SessionRecording>::empty(),
    {
        SessionSummary {
            session_id: String::new(),
            game_id: None,
            game_name: None,
            started_at: String::new(),
            ended_at: None,
            end_reason: None,
            recordings: Vec::new(),
        }
    }
}

impl Default for SessionRecording {
    fn default() -> (recording: SessionRecording)
        ensures
            recording.session_index == 0,
            recording.output@ == Seq::<char>::empty(),
            recording.outcome is None,
            recording.end_reason is None,
            recording.duration_ms is None,
    {
        SessionRecording {
            session_index: 0,
            output: String::new(),
            outcome: None,
            end_reason: None,
            duration_ms: None,
        }
    }
}

impl RecorderStatus {
    /// The sitting this state belongs to, if any.
    pub open spec fn sitting(&self) -> Option<SessionSummary> {
        match self {
            RecorderStatus::Idle => None,
            RecorderStatus::Watching(watching) => match watching.session {
                Some(session) => Some(*session),
                None => None,
            },
            RecorderStatus::Recording(recording) => match recording.session {
                Some(session) => Some(*session),
                None => None,
            },
        }
    }

    /// Whether a recording is in progress.
    pub fn is_recording(&self) -> (recording: bool)
        ensures
            recording == (self is Recording),
    {
        matches!(self, RecorderStatus::Recording(_))
    }

    /// The sitting this state belongs to, whether or not anything is being
    /// recorded: a sitting waiting out its restart grace still names its game.
    pub fn session(&self) -> (session: Option<&SessionSummary>)
        ensures
            session is Some <==> self.sitting() is Some,
            session matches Some(s) ==> *s == self.sitting()->0,
    {
        match self {
            RecorderStatus::Idle => None,
            RecorderStatus::Watching(watching) => match &watching.session {
                Some(session) => Some(&**session),
                None => None,
            },
            RecorderStatus::Recording(recording) => match &recording.session {
                Some(session) => Some(&**session),
                None => None,
            },
        }
    }
}

/// A finished export.
#[derive(Debug, Clone, PartialEq, Eq)]
pub struct ExportSummary {
    /// The recording that was read.
    pub source: String,
    /// The file that was written.
    pub destination: String,
    /// How long the written file is, in milliseconds.
    pub duration_ms: u64,
    /// How many packets were copied.
    pub packets: u64,
    /// How many bytes were written.
    pub bytes: u64,
    /// How long the export took, in milliseconds.
    pub elapsed_ms: u64,
    /// Whether nothing of the recording was lost on the way.
    pub lossless: bool,
    /// What was lost, in words, for an export that was not lossless.
    pub losses: Vec<String>,
}

/// How far an export has got.
#[derive(Debug, Clone, PartialEq, Eq)]
pub struct ExportProgress {
    /// The recording being read.
    pub source: String,
    /// The file being written.
    pub destination: String,
    /// How much of the recording has been written, in milliseconds.
    pub written_ms: u64,
    /// How long the recording is, where it declares a duration.
    pub total_ms: Option<u64>,
    /// How many packets have been copied.
    pub packets: u64,
    /// How many bytes have been written.
    pub bytes: u64,
}

/// The numbers an export's fraction done is the quotient of: how much has been
/// written, never more than the whole, and the whole; [`None`] when there is
/// nothing to divide by.
pub open spec fn progress(written_ms: u64, total_ms: Option<u64>) -> Option<(u64, u64)> {
    match total_ms {
        None => None,
        Some(total) => if total == 0 {
            None
        } else if written_ms <= total {
            Some((written_ms, total))
        } else {
            Some((total, total))
        },
    }
}

impl ExportProgress {
    /// The two numbers the fraction done is the quotient of: how much has been
    /// written, never more than the whole, and the whole.
    ///
    /// [`None`] when there is nothing to divide by: a recording that declares
    /// no duration, or one that declares nought.
    pub fn progress_parts(&self) -> (parts: Option<(u64, u64)>)
        ensures
            parts == progress(self.written_ms, self.total_ms),
    {
        match self.total_ms {
            None => None,
            Some(total) => {
                if total == 0 {
                    None
                } else if self.written_ms <= total {
                    Some((self.written_ms, total))
                } else {
                    Some((total, total))
                }
            },
        }
    }
}

/// An export's fraction done is never a division by nought, never below nought
/// and never above one; it is one once everything declared has been written,
/// and there is one exactly when the recording declares a duration above
/// nought.
pub proof fn lemma_progress_is_a_fraction(written_ms: u64, total_ms: Option<u64>)
    ensures
        progress(written_ms, total_ms) is Some <==> (total_ms matches Some(t) && t > 0),
        progress(written_ms, total_ms) matches Some((done, whole)) ==> 0 <= done <= whole && whole
            > 0,
        progress(written_ms, total_ms) matches Some((done, whole)) ==> (done == whole <==> written_ms
            >= whole),
{
}

/// Why a recording ended.
#[derive(Debug, Clone, PartialEq, Eq)]
pub enum EndReason {
    /// `stopped`: somebody asked.
    Stopped,
    /// `target_lost`: the window went away.
    TargetLost,
    /// `target_resized`: the window changed size.
    TargetResized,
    /// A reason this build has never heard of, kept verbatim.
    Other(String),
}

impl EndReason {
    /// The wire string of this reason.
    pub open spec fn wire(&self) -> Seq<char> {
        match self {
            EndReason::Stopped => "stopped"@,
            EndReason::TargetLost => "target_lost"@,
            EndReason::TargetResized => "target_resized"@,
            EndReason::Other(reason) => reason@,
        }
    }

    /// The known reason a wire string names, if it names one.
    pub open spec fn known(name: Seq<char>) -> Option<EndReason> {
        if name == "stopped"@ {
            Some(EndReason::Stopped)
        } else if name == "target_lost"@ {
            Some(EndReason::TargetLost)
        } else if name == "target_resized"@ {
            Some(EndReason::TargetResized)
        } else {
            None
        }
    }

    /// The reason a wire string names, keeping one this build does not know.
    pub open spec fn parsed(reason: String) -> EndReason {
        match EndReason::known(reason@) {
            Some(known) => known,
            None => EndReason::Other(reason),
        }
    }

    /// The wire string.
    pub fn as_str(&self) -> (name: &str)
        ensures
            name@ == self.wire(),
    {
        match self {
            EndReason::Stopped => "stopped",
            EndReason::TargetLost => "target_lost",
            EndReason::TargetResized => "target_resized",
            EndReason::Other(reason) => reason.as_str(),
        }
    }

    /// The reason a wire string names, keeping one this build does not know.
    pub fn from_wire(reason: String) -> (parsed: EndReason)
        ensures
            parsed == EndReason::parsed(reason),
    {
        if same_text(&reason, "stopped") {
            EndReason::Stopped
        } else if same_text(&reason, "target_lost") {
            EndReason::TargetLost
        } else if same_text(&reason, "target_resized") {
            EndReason::TargetResized
        } else {
            EndReason::Other(reason)
        }
    }

    /// The wire string, as an owned string.
    pub fn into_wire(self) -> (name: String)
        ensures
            name@ == self.wire(),
    {
        match self {
            EndReason::Other(reason) => reason,
            known => owned(known.as_str()),
        }
    }
}

impl From<String> for EndReason {
    /// The reason a wire string names, keeping one this build does not know.
    fn from(reason: String) -> (parsed: EndReason) {
        EndReason::from_wire(reason)
    }
}

impl vstd::std_specs::convert::FromSpecImpl<String> for EndReason {
    open spec fn obeys_from_spec() -> bool {
        true
    }

    open spec fn from_spec(reason: String) -> EndReason {
        EndReason::parsed(reason)
    }
}

/// Reading an end reason and writing it back out gives the same string, for
/// every string.
pub proof fn lemma_end_reason_wire_round_trip(reason: String)
    ensures
        EndReason::parsed(reason).wire() == reason@,
{
}

/// A known end reason survives a trip through its wire string, and an unknown
/// one keeps its name.
pub proof fn lemma_end_reason_parse_round_trip(reason: EndReason)
    requires
        reason matches EndReason::Other(name) ==> EndReason::known(name@) is None,
    ensures
        reason !is Other ==> EndReason::known(reason.wire()) == Some(reason),
        reason matches EndReason::Other(name) ==> EndReason::parsed(name) == reason,
{
    reveal_strlit("stopped");
    reveal_strlit("target_lost");
    reveal_strlit("target_resized");
    assert("stopped"@.len() == 7);
    assert("target_lost"@.len() == 11);
    assert("target_resized"@.len() == 14);
}

} // verus!
