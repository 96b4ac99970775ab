//! Whether there is a recorder to talk to at all: finding one, starting one,
//! and how long to wait before starting a replacement.
//!
//! The waiting, the spawning and the connecting are done by the caller; what is
//! decided here is what each observation means and what to do next
//! ([`RecorderSearch`]), how a loader refusal is told from a recorder that ran
//! and exited ([`loader_refusal`]), and the backoff a lost recorder is
//! restarted on ([`RestartPolicy::delay_before`]).

use vstd::prelude::*;
use vstd::arithmetic::power2::{pow2, lemma_pow2_strictly_increases, lemma_pow2_unfold, lemma2_to64};

use crate::error::ProtocolError;
use crate::message::{PeerIdentity, Welcome};

verus! {

/// `std::path::PathBuf`, carried opaquely as the recorder executable's path.
#[verifier::external_type_specification]
#[verifier::external_body]
pub struct ExPathBuf(std::path::PathBuf);

/// `Clone` for `std::path::PathBuf`. Nothing is claimed about the copy.
pub assume_specification[ <std::path::PathBuf as Clone>::clone ](path: &std::path::PathBuf) -> std::path::PathBuf;

/// The longest span a [`Delay`] can hold, in nanoseconds: `u64::MAX` whole
/// seconds and 999,999,999 nanoseconds, as for `std::time::Duration`.
pub const MAX_DELAY_NANOS: u128 = 18446744073709551615999999999;

/// A span of time, to the nanosecond.
#[derive(Debug, Clone, Copy, PartialEq, Eq, Structural, PartialOrd, Ord, Hash)]
pub struct Delay {
    nanos: u128,
}

impl Delay {
    /// Never longer than [`MAX_DELAY_NANOS`].
    #[verifier::type_invariant]
    spec fn bounded(self) -> bool {
        self.nanos <= MAX_DELAY_NANOS
    }
}

impl View for Delay {
    type V = nat;

    /// The span, in nanoseconds.
    closed spec fn view(&self) -> nat {
        self.nanos as nat
    }
}

impl Delay {
    /// No time at all.
    pub fn zero() -> (d: Delay)
        ensures
            d@ == 0,
    {
        Delay { nanos: 0 }
    }

    /// A whole number of seconds.
    pub fn from_secs(secs: u64) -> (d: Delay)
        ensures
            d@ == secs * 1_000_000_000,
    {
        Delay { nanos: secs as u128 * 1_000_000_000 }
    }

    /// A whole number of milliseconds.
    pub fn from_millis(millis: u64) -> (d: Delay)
        ensures
            d@ == millis * 1_000_000,
    {
        Delay { nanos: millis as u128 * 1_000_000 }
    }

    /// Whole seconds and a part of a second.
    pub fn new(secs: u64, subsec_nanos: u32) -> (d: Delay)
        requires
            subsec_nanos < 1_000_000_000,
        ensures
            d@ == secs * 1_000_000_000 + subsec_nanos,
    {
        Delay { nanos: secs as u128 * 1_000_000_000 + subsec_nanos as u128 }
    }

    /// The span in nanoseconds.
    pub fn as_nanos(&self) -> (nanos: u128)
        ensures
            nanos == self@,
            nanos <= MAX_DELAY_NANOS,
    {
        proof {
            use_type_invariant(self);
        }
        self.nanos
    }

    /// The whole seconds of the span.
    pub fn as_secs(&self) -> (secs: u64)
        ensures
            secs == self@ / 1_000_000_000,
    {
        proof {
            use_type_invariant(self);
        }
        (self.nanos / 1_000_000_000) as u64
    }

    /// The part of a second left over after the whole seconds, in nanoseconds.
    pub fn subsec_nanos(&self) -> (nanos: u32)
        ensures
            nanos == self@ % 1_000_000_000,
            nanos < 1_000_000_000,
    {
        (self.nanos % 1_000_000_000) as u32
    }

    /// The span `factor` times over, or [`None`] if that is longer than a
    /// span can be.
    pub fn checked_mul(&self, factor: u32) -> (product: Option<Delay>)
        ensures
            self@ * factor <= MAX_DELAY_NANOS ==> (product matches Some(p) && p@ == self@ * factor),
            self@ * factor > MAX_DELAY_NANOS ==> product is None,
    {
        proof {
            use_type_invariant(self);
            assert(self.nanos * factor <= MAX_DELAY_NANOS * 4294967295) by (nonlinear_arith)
                requires
                    self.nanos <= MAX_DELAY_NANOS,
                    factor <= 4294967295,
            ;
        }
        let product = self.nanos * factor as u128;
        if product <= MAX_DELAY_NANOS {
            Some(Delay { nanos: product })
        } else {
            None
        }
    }

    /// The shorter of two spans.
    pub fn min(self, other: Delay) -> (shorter: Delay)
        ensures
            shorter@ == if self@ <= other@ {
                self@
            } else {
                other@
            },
    {
        if self.nanos <= other.nanos {
            self
        } else {
            other
        }
    }
}

/// The shorter of two lengths.
pub open spec fn shorter(a: nat, b: nat) -> nat {
    if a <= b {
        a
    } else {
        b
    }
}

/// What to do when a recorder stops without being asked to: a bounded number
/// of attempts, each further apart than the last.
#[derive(Debug, Clone, Copy, PartialEq, Eq, Structural)]
pub struct RestartPolicy {
    /// How many consecutive replacements to start before giving up.
    pub attempts: u32,
    /// How long to wait before the first replacement.
    pub first_delay: Delay,
    /// The longest wait between replacements, once doubling has reached it.
    pub maximum_delay: Delay,
    /// How long a recorder must stay reachable before the attempt counter is
    /// reset.
    pub settled_after: Delay,
}

impl Default for RestartPolicy {
    /// Four attempts at 1, 2, 4 and 8 seconds, resetting after a minute up.
    fn default() -> (policy: RestartPolicy)
        ensures
            policy.attempts == 4,
            policy.first_delay@ == 1_000_000_000,
            policy.maximum_delay@ == 30_000_000_000,
            policy.settled_after@ == 60_000_000_000,
    {
        RestartPolicy {
            attempts: 4,
            first_delay: Delay::from_secs(1),
            maximum_delay: Delay::from_secs(30),
            settled_after: Delay::from_secs(60),
        }
    }
}

/// The wait before consecutive attempt `attempt`, counting from one, under
/// `policy`: the first delay doubled for each attempt before it, capped at the
/// maximum; [`None`] for attempt zero and once the attempts are used up.
pub open spec fn restart_delay(policy: RestartPolicy, attempt: u32) -> Option<nat> {
    if attempt == 0 || attempt > policy.attempts {
        None
    } else {
        let doublings: nat = if attempt - 1 <= 31 {
            (attempt - 1) as nat
        } else {
            31
        };
        Some(shorter(policy.first_delay@ * pow2(doublings), policy.maximum_delay@))
    }
}

/// Two to the power `e`, for `e` up to 31.
fn power_of_two(e: u32) -> (p: u32)
    requires
        e <= 31,
    ensures
        p == pow2(e as nat),
{
    let mut p: u32 = 1;
    let mut k: u32 = 0;
    proof {
        lemma2_to64();
    }
    while k < e
        invariant
            k <= e <= 31,
            p == pow2(k as nat),
        decreases e - k,
    {
        proof {
            lemma2_to64();
            if k < 30 {
                lemma_pow2_strictly_increases(k as nat, 30);
            }
            lemma_pow2_unfold((k + 1) as nat);
        }
        p = p * 2;
        k = k + 1;
    }
    p
}

impl RestartPolicy {
    /// Never start a replacement; report the loss and stop there.
    pub fn never() -> (policy: RestartPolicy)
        ensures
            policy.attempts == 0,
            policy.first_delay@ == 0,
            policy.maximum_delay@ == 0,
            policy.settled_after@ == 0,
    {
        RestartPolicy {
            attempts: 0,
            first_delay: Delay::zero(),
            maximum_delay: Delay::zero(),
            settled_after: Delay::zero(),
        }
    }

    /// How long to wait before consecutive attempt number `attempt`, counting
    /// from one, or [`None`] once the attempts are used up. Attempt zero is not
    /// an attempt.
    pub fn delay_before(&self, attempt: u32) -> (delay: Option<Delay>)
        ensures
            delay is Some <==> restart_delay(*self, attempt) is Some,
            delay matches Some(d) ==> d@ == restart_delay(*self, attempt)->0,
    {
        if attempt == 0 || attempt > self.attempts {
            return None;
        }
        let doublings: u32 = if attempt - 1 <= 31 {
            attempt - 1
        } else {
            31
        };
        let factor = power_of_two(doublings);
        proof {
            use_type_invariant(&self.maximum_delay);
        }
        let delay = match self.first_delay.checked_mul(factor) {
            Some(delay) => delay,
            None => self.maximum_delay,
        };
        Some(delay.min(self.maximum_delay))
    }
}

/// No wait is ever longer than the maximum.
pub proof fn lemma_delay_never_exceeds_the_maximum(policy: RestartPolicy, attempt: u32)
    requires
        restart_delay(policy, attempt) is Some,
    ensures
        restart_delay(policy, attempt)->0 <= policy.maximum_delay@,
{
}

/// There is a wait for exactly the attempts the policy allows, counted from
/// one: none before the first and none after the last.
pub proof fn lemma_attempts_are_bounded(policy: RestartPolicy, attempt: u32)
    ensures
        restart_delay(policy, attempt) is Some <==> 1 <= attempt <= policy.attempts,
{
}

/// The first replacement waits the first delay, or the maximum if that is
/// shorter.
pub proof fn lemma_first_attempt_waits_the_first_delay(policy: RestartPolicy)
    requires
        policy.attempts >= 1,
    ensures
        restart_delay(policy, 1) == Some(shorter(policy.first_delay@, policy.maximum_delay@)),
{
    lemma2_to64();
    assert(pow2(0) == 1);
    assert(policy.first_delay@ * pow2(0) == policy.first_delay@);
}

/// Each wait is at least as long as the one before it.
pub proof fn lemma_delays_never_shrink(policy: RestartPolicy, earlier: u32, later: u32)
    requires
        1 <= earlier <= later <= policy.attempts,
    ensures
        restart_delay(policy, earlier)->0 <= restart_delay(policy, later)->0,
{
    let e1: nat = if earlier - 1 <= 31 {
        (earlier - 1) as nat
    } else {
        31
    };
    let e2: nat = if later - 1 <= 31 {
        (later - 1) as nat
    } else {
        31
    };
    if e1 < e2 {
        lemma_pow2_strictly_increases(e1, e2);
    }
    assert(policy.first_delay@ * pow2(e1) <= policy.first_delay@ * pow2(e2)) by (nonlinear_arith)
        requires
            pow2(e1) <= pow2(e2),
    ;
}

/// Until the cap is reached, each wait is twice the one before it.
pub proof fn lemma_delays_double_until_capped(policy: RestartPolicy, attempt: u32)
    requires
        1 <= attempt < policy.attempts,
        attempt <= 31,
        policy.first_delay@ * pow2(attempt as nat) <= policy.maximum_delay@,
    ensures
        restart_delay(policy, (attempt + 1) as u32)->0 == 2 * restart_delay(policy, attempt)->0,
{
    let e = (attempt - 1) as nat;
    lemma_pow2_unfold(attempt as nat);
    lemma_pow2_strictly_increases(e, attempt as nat);
    assert(policy.first_delay@ * pow2(attempt as nat) == 2 * (policy.first_delay@ * pow2(e)))
        by (nonlinear_arith)
        requires
            pow2(attempt as nat) == 2 * pow2(e),
    ;
    assert(policy.first_delay@ * pow2(e) <= policy.first_delay@ * pow2(attempt as nat))
        by (nonlinear_arith)
        requires
            pow2(e) < pow2(attempt as nat),
    ;
}

/// `STATUS_DLL_NOT_FOUND`: a library the executable imports was not found, so
/// Windows ended the process before its first instruction.
pub const STATUS_DLL_NOT_FOUND: u32 = 0xC000_0135;

/// `STATUS_ENTRYPOINT_NOT_FOUND`: a library was found but lacks a function the
/// executable imports.
pub const STATUS_ENTRYPOINT_NOT_FOUND: u32 = 0xC000_0139;

/// Whether an exit status is Windows saying it would not load the executable,
/// and which refusal it was.
///
/// The loader's `NTSTATUS` arrives as a signed exit code, so it is read back as
/// the unsigned status it is. Only the two loader refusals are recognised.
pub fn loader_refusal(code: Option<i32>) -> (refusal: Option<u32>)
    ensures
        match code {
            None => refusal is None,
            Some(c) => if c as u32 == STATUS_DLL_NOT_FOUND || c as u32 == STATUS_ENTRYPOINT_NOT_FOUND {
                refusal == Some(c as u32)
            } else {
                refusal is None
            },
        },
{
    match code {
        None => None,
        Some(c) => {
            let status = c as u32;
            if status == STATUS_DLL_NOT_FOUND || status == STATUS_ENTRYPOINT_NOT_FOUND {
                Some(status)
            } else {
                None
            }
        },
    }
}

/// The name Windows gives a loader refusal.
pub fn loader_status_name(status: u32) -> (name: &'static str)
    ensures
        status == STATUS_ENTRYPOINT_NOT_FOUND ==> name@ == "STATUS_ENTRYPOINT_NOT_FOUND"@,
        status != STATUS_ENTRYPOINT_NOT_FOUND ==> name@ == "STATUS_DLL_NOT_FOUND"@,
{
    if status == STATUS_ENTRYPOINT_NOT_FOUND {
        "STATUS_ENTRYPOINT_NOT_FOUND"
    } else {
        "STATUS_DLL_NOT_FOUND"
    }
}

/// What a supervisor needs in order to find, start and watch a recorder.
#[derive(Debug, Clone)]
pub struct SupervisorSettings {
    /// The name of the endpoint the recorder listens on.
    pub endpoint: String,
    /// The `clipped-recorder` executable to start.
    pub executable: std::path::PathBuf,
    /// How this process introduces itself in a handshake.
    pub client: PeerIdentity,
    /// How long a recorder that has just been started is given to begin
    /// listening.
    pub startup_timeout: Delay,
    /// What to do when a recorder stops without being asked to.
    pub restart: RestartPolicy,
}

impl SupervisorSettings {
    /// Settings for `executable` at `endpoint`, with the defaults for
    /// everything else: ten seconds to start, and the default restart policy.
    pub fn new(endpoint: String, executable: std::path::PathBuf, client: PeerIdentity) -> (settings:
        SupervisorSettings)
        ensures
            settings.endpoint == endpoint,
            settings.executable == executable,
            settings.client == client,
            settings.startup_timeout@ == 10_000_000_000,
            settings.restart.attempts == 4,
            settings.restart.first_delay@ == 1_000_000_000,
            settings.restart.maximum_delay@ == 30_000_000_000,
            settings.restart.settled_after@ == 60_000_000_000,
    {
        SupervisorSettings {
            endpoint,
            executable,
            client,
            startup_timeout: Delay::from_secs(10),
            restart: RestartPolicy::default(),
        }
    }
}

/// Which recorder this process ended up talking to, and how.
#[derive(Debug, Clone, PartialEq, Eq)]
pub struct Attachment {
    /// The process identifier of the recorder serving the endpoint.
    pub recorder_process_id: u32,
    /// What that recorder said it can do, from its welcome.
    pub features: Vec<String>,
    /// How this process came to be talking to it.
    pub origin: AttachmentOrigin,
}

/// How a supervisor came to be talking to the recorder it is talking to.
#[derive(Debug, Clone, Copy, PartialEq, Eq, Structural)]
pub enum AttachmentOrigin {
    /// A recorder was already listening. This process started nothing.
    Existing,
    /// This process started the recorder it is talking to.
    Started,
    /// This process started a recorder, and another that was starting at the
    /// same moment took the endpoint first.
    LostTheRace {
        /// The process that was started here and exited.
        started_process_id: u32,
    },
}

/// What a supervisor does next while making sure a recorder is listening.
#[derive(Debug)]
pub enum SearchStep {
    /// Ask the endpoint whether a recorder is listening.
    Probe,
    /// Nothing is listening and nothing has been started: start a recorder.
    StartRecorder,
    /// The recorder started here has not answered: see whether it has exited.
    CheckExit,
    /// Wait a moment, then probe again.
    WaitThenProbe,
    /// This is the recorder to talk to.
    Attached(Attachment),
    /// Windows refused to load the recorder started here; this is the status.
    NotLoadable(u32),
    /// The recorder started here never listened; its exit code if it exited.
    NeverListened(Option<i32>),
    /// A recorder is listening and refused this build's handshake, with this.
    /// Nothing is started in its place: two recorders would race for one
    /// endpoint, and the one that lost would be the one recording.
    Incompatible(ProtocolError),
    /// The endpoint could not be reached, for the reason given.
    Unreachable(String),
}

/// What asking the endpoint who serves it came back with.
#[derive(Debug)]
pub enum Probed {
    /// Nothing is listening.
    NothingListening,
    /// A recorder accepted the handshake with `welcome`, and its process is
    /// `process_id`.
    Welcomed {
        /// What it said about itself.
        welcome: Welcome,
        /// The process serving the endpoint.
        process_id: u32,
    },
    /// A recorder is there, and refused the handshake.
    Refused(ProtocolError),
    /// The endpoint could not be reached for another reason, said here.
    Unreachable(String),
}

/// How a supervisor that has started `started`, if anything, came to be
/// talking to process `process_id`.
pub open spec fn origin_for(started: Option<u32>, process_id: u32) -> AttachmentOrigin {
    match started {
        None => AttachmentOrigin::Existing,
        Some(s) => if process_id == s {
            AttachmentOrigin::Started
        } else {
            AttachmentOrigin::LostTheRace { started_process_id: s }
        },
    }
}

/// The search for a recorder to talk to: attach by preference, start by
/// necessity, and report which of the two happened.
#[derive(Debug)]
pub struct RecorderSearch {
    started: Option<u32>,
}

impl RecorderSearch {
    /// The process started by this search, if it has started one.
    pub closed spec fn started_process(&self) -> Option<u32> {
        self.started
    }

    /// A search that has started nothing yet. Its first step is to probe.
    pub fn new() -> (search: RecorderSearch)
        ensures
            search.started_process() is None,
    {
        RecorderSearch { started: None }
    }

    /// The process this search started, if any.
    pub fn started(&self) -> (started: Option<u32>)
        ensures
            started == self.started_process(),
    {
        self.started
    }

    /// What a probe found: the process serving the endpoint and what it said it
    /// can do, or [`None`] if nothing is listening.
    ///
    /// A recorder that answers is attached to: as one that was already there,
    /// if this search started nothing; as the one started here, if the process
    /// identifiers agree; and otherwise as the winner of a race another
    /// supervisor started at the same moment.
    pub fn after_probe(&self, found: Option<(u32, Vec<String>)>) -> (step: SearchStep)
        ensures
            match found {
                Some((pid, features)) => (step matches SearchStep::Attached(attachment)
                    && attachment.recorder_process_id == pid
                    && attachment.features == features
                    && attachment.origin == match self.started_process() {
                        None => AttachmentOrigin::Existing,
                        Some(started) => if pid == started {
                            AttachmentOrigin::Started
                        } else {
                            AttachmentOrigin::LostTheRace { started_process_id: started }
                        },
                    }),
                None => match self.started_process() {
                    None => step is StartRecorder,
                    Some(_) => step is CheckExit,
                },
            },
    {
        match found {
            Some((recorder_process_id, features)) => {
                let origin = match self.started {
                    None => AttachmentOrigin::Existing,
                    Some(started_process_id) => {
                        if recorder_process_id == started_process_id {
                            AttachmentOrigin::Started
                        } else {
                            AttachmentOrigin::LostTheRace { started_process_id }
                        }
                    },
                };
                SearchStep::Attached(Attachment { recorder_process_id, features, origin })
            },
            None => match self.started {
                None => SearchStep::StartRecorder,
                Some(_) => SearchStep::CheckExit,
            },
        }
    }

    /// What a probe's answer means. A recorder that welcomed the handshake is
    /// attached to, with the features its welcome names, as
    /// [`Self::after_probe`] attaches; nothing listening means starting one,
    /// or checking on the one started; a recorder that refused the handshake
    /// is incompatible, and one that could not be reached is reported as that,
    /// and neither starts anything.
    pub fn after_answer(&self, probed: Probed) -> (step: SearchStep)
        ensures
            match probed {
                Probed::Welcomed { welcome, process_id } => step matches SearchStep::Attached(
                    attachment,
                ) && attachment.recorder_process_id == process_id && attachment.features
                    == welcome.features && attachment.origin == origin_for(
                    self.started_process(),
                    process_id,
                ),
                Probed::NothingListening => match self.started_process() {
                    None => step is StartRecorder,
                    Some(_) => step is CheckExit,
                },
                Probed::Refused(refusal) => step == SearchStep::Incompatible(refusal),
                Probed::Unreachable(reason) => step == SearchStep::Unreachable(reason),
            },
    {
        match probed {
            Probed::Welcomed { welcome, process_id } => self.after_probe(
                Some((process_id, welcome.features)),
            ),
            Probed::NothingListening => self.after_probe(None),
            Probed::Refused(refusal) => SearchStep::Incompatible(refusal),
            Probed::Unreachable(reason) => SearchStep::Unreachable(reason),
        }
    }

    /// A recorder was started, as process `process_id`. The next step is to
    /// probe for it.
    pub fn after_start(&mut self, process_id: u32) -> (step: SearchStep)
        requires
            old(self).started_process() is None,
        ensures
            final(self).started_process() == Some(process_id),
            step is Probe,
    {
        self.started = Some(process_id);
        SearchStep::Probe
    }

    /// Whether the recorder started here has exited, with its exit code if so,
    /// and whether the time it was given to start has run out.
    ///
    /// A recorder the loader refused is reported as that rather than as one
    /// that started and vanished; one that is still running when time is up is
    /// left running and reported as never having listened.
    pub fn after_exit_check(&self, exited: Option<Option<i32>>, out_of_time: bool) -> (step:
        SearchStep)
        requires
            self.started_process() is Some,
        ensures
            match exited {
                Some(code) => match code {
                    Some(c) => if c as u32 == STATUS_DLL_NOT_FOUND || c as u32
                        == STATUS_ENTRYPOINT_NOT_FOUND {
                        step == SearchStep::NotLoadable(c as u32)
                    } else {
                        step == SearchStep::NeverListened(Some(c))
                    },
                    None => step == SearchStep::NeverListened(None),
                },
                None => if out_of_time {
                    step == SearchStep::NeverListened(None)
                } else {
                    step is WaitThenProbe
                },
            },
    {
        match exited {
            Some(code) => match loader_refusal(code) {
                Some(status) => SearchStep::NotLoadable(status),
                None => SearchStep::NeverListened(code),
            },
            None => {
                if out_of_time {
                    SearchStep::NeverListened(None)
                } else {
                    SearchStep::WaitThenProbe
                }
            },
        }
    }
}

} // verus!
