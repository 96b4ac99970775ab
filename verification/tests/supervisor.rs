use clipped_ipc::supervisor::{
    loader_refusal, loader_status_name, AttachmentOrigin, Delay, Probed, RecorderSearch,
    RestartPolicy, SearchStep, SupervisorSettings,
};
use clipped_ipc::{ConnectionRole, ErrorCode, PeerIdentity, ProtocolError, Welcome, PROTOCOL_VERSION};

#[test]
fn the_default_policy_backs_off_and_then_gives_up() {
    let policy = RestartPolicy::default();

    assert_eq!(policy.delay_before(1), Some(Delay::from_secs(1)));
    assert_eq!(policy.delay_before(2), Some(Delay::from_secs(2)));
    assert_eq!(policy.delay_before(3), Some(Delay::from_secs(4)));
    assert_eq!(policy.delay_before(4), Some(Delay::from_secs(8)));
    assert_eq!(
        policy.delay_before(5),
        None,
        "a restart loop that never ends is worse than a recorder that is down and says so"
    );
}

#[test]
fn the_delay_never_exceeds_the_maximum() {
    let policy = RestartPolicy {
        attempts: 20,
        first_delay: Delay::from_secs(1),
        maximum_delay: Delay::from_secs(5),
        settled_after: Delay::from_secs(60),
    };

    for attempt in 1..=20 {
        let delay = policy.delay_before(attempt).expect("within the attempts");
        assert!(
            delay <= Delay::from_secs(5),
            "attempt {attempt} would wait {delay:?}"
        );
    }
    // And it does reach the cap rather than stopping short of it.
    assert_eq!(policy.delay_before(20), Some(Delay::from_secs(5)));
}

#[test]
fn a_policy_that_never_restarts_offers_no_first_attempt() {
    assert_eq!(RestartPolicy::never().delay_before(1), None);
}

#[test]
fn attempt_zero_is_not_an_attempt() {
    assert_eq!(RestartPolicy::default().delay_before(0), None);
}

#[test]
fn a_first_delay_too_long_to_double_waits_the_maximum() {
    let policy = RestartPolicy {
        attempts: 40,
        first_delay: Delay::new(u64::MAX, 999_999_999),
        maximum_delay: Delay::from_secs(30),
        settled_after: Delay::from_secs(60),
    };
    assert_eq!(policy.delay_before(2), Some(Delay::from_secs(30)));
    assert_eq!(policy.delay_before(40), Some(Delay::from_secs(30)));
}

#[test]
fn doubling_stops_growing_after_thirty_one_doublings() {
    let policy = RestartPolicy {
        attempts: 40,
        first_delay: Delay::from_millis(1),
        maximum_delay: Delay::new(u64::MAX, 0),
        settled_after: Delay::from_secs(60),
    };
    let thirty_second = policy.delay_before(32).expect("within the attempts");
    assert_eq!(thirty_second.as_nanos(), 2_147_483_648 * 1_000_000);
    assert_eq!(policy.delay_before(40), Some(thirty_second));
}

#[test]
fn a_delay_keeps_its_seconds_and_its_part_of_a_second() {
    let delay = Delay::new(3, 250_000_000);
    assert_eq!(delay.as_secs(), 3);
    assert_eq!(delay.subsec_nanos(), 250_000_000);
    assert_eq!(delay.as_nanos(), 3_250_000_000);
    assert_eq!(Delay::from_millis(1_500), Delay::new(1, 500_000_000));
    assert_eq!(Delay::from_secs(2).checked_mul(3), Some(Delay::from_secs(6)));
    assert_eq!(Delay::new(u64::MAX, 0).checked_mul(2), None);
}

#[test]
fn settings_start_with_ten_seconds_and_the_default_policy() {
    let settings = SupervisorSettings::new(
        "clipped-recorder.test".to_owned(),
        std::path::PathBuf::from("clipped-recorder.exe"),
        PeerIdentity { name: "clipped-desktop".to_owned(), version: "0.1.0".to_owned() },
    );
    assert_eq!(settings.startup_timeout, Delay::from_secs(10));
    assert_eq!(settings.restart, RestartPolicy::default());
    assert_eq!(settings.endpoint, "clipped-recorder.test");
}

#[test]
fn only_the_two_loader_refusals_are_recognised() {
    // STATUS_DLL_NOT_FOUND arrives as a negative exit code.
    assert_eq!(loader_refusal(Some(-1_073_741_515)), Some(0xC000_0135));
    assert_eq!(loader_refusal(Some(-1_073_741_511)), Some(0xC000_0139));
    assert_eq!(loader_refusal(Some(1)), None);
    assert_eq!(loader_refusal(None), None);
    assert_eq!(loader_status_name(0xC000_0139), "STATUS_ENTRYPOINT_NOT_FOUND");
    assert_eq!(loader_status_name(0xC000_0135), "STATUS_DLL_NOT_FOUND");
}

#[test]
fn a_recorder_already_listening_is_attached_to_and_nothing_is_started() {
    let search = RecorderSearch::new();
    match search.after_probe(Some((4242, vec!["recording".to_owned()]))) {
        SearchStep::Attached(attachment) => {
            assert_eq!(attachment.recorder_process_id, 4242);
            assert_eq!(attachment.origin, AttachmentOrigin::Existing);
            assert_eq!(attachment.features, vec!["recording".to_owned()]);
        }
        other => panic!("expected an attachment, got {other:?}"),
    }
}

#[test]
fn nothing_listening_starts_a_recorder_and_then_waits_for_it() {
    let mut search = RecorderSearch::new();
    assert!(matches!(search.after_probe(None), SearchStep::StartRecorder));
    assert!(matches!(search.after_start(100), SearchStep::Probe));
    assert!(matches!(search.after_probe(None), SearchStep::CheckExit));
    assert!(matches!(search.after_exit_check(None, false), SearchStep::WaitThenProbe));
    match search.after_probe(Some((100, Vec::new()))) {
        SearchStep::Attached(attachment) => assert_eq!(attachment.origin, AttachmentOrigin::Started),
        other => panic!("expected an attachment, got {other:?}"),
    }
}

#[test]
fn a_recorder_another_supervisor_started_first_is_reported_as_a_lost_race() {
    let mut search = RecorderSearch::new();
    let _ = search.after_start(100);
    match search.after_probe(Some((200, Vec::new()))) {
        SearchStep::Attached(attachment) => {
            assert_eq!(attachment.recorder_process_id, 200);
            assert_eq!(
                attachment.origin,
                AttachmentOrigin::LostTheRace { started_process_id: 100 }
            );
        }
        other => panic!("expected an attachment, got {other:?}"),
    }
}

#[test]
fn a_recorder_the_loader_refused_is_told_from_one_that_exited() {
    let mut search = RecorderSearch::new();
    let _ = search.after_start(100);
    assert!(matches!(
        search.after_exit_check(Some(Some(-1_073_741_515)), false),
        SearchStep::NotLoadable(0xC000_0135)
    ));
    assert!(matches!(
        search.after_exit_check(Some(Some(3)), false),
        SearchStep::NeverListened(Some(3))
    ));
    assert!(matches!(
        search.after_exit_check(None, true),
        SearchStep::NeverListened(None)
    ));
}

#[test]
fn a_recorder_that_refuses_the_handshake_is_incompatible_and_nothing_is_started() {
    let search = RecorderSearch::new();
    let refusal = ProtocolError::new(ErrorCode::UnsupportedProtocolVersion, "too old".to_owned());
    match search.after_answer(Probed::Refused(refusal.clone())) {
        SearchStep::Incompatible(got) => assert_eq!(got, refusal),
        other => panic!("expected incompatibility, got {other:?}"),
    }
    assert_eq!(search.started(), None);

    match search.after_answer(Probed::Unreachable("access is denied".to_owned())) {
        SearchStep::Unreachable(reason) => assert_eq!(reason, "access is denied"),
        other => panic!("expected an unreachable endpoint, got {other:?}"),
    }
    assert!(matches!(search.after_answer(Probed::NothingListening), SearchStep::StartRecorder));
}

#[test]
fn a_recorder_that_welcomes_the_handshake_is_attached_with_its_features() {
    let search = RecorderSearch::new();
    let welcome = Welcome {
        protocol_version: PROTOCOL_VERSION,
        recorder: PeerIdentity { name: "clipped-recorder".to_owned(), version: "0.1.0".to_owned() },
        role: ConnectionRole::Control,
        features: vec!["recording".to_owned(), "shutdown".to_owned()],
        streams: Vec::new(),
    };
    match search.after_answer(Probed::Welcomed { welcome, process_id: 77 }) {
        SearchStep::Attached(attachment) => {
            assert_eq!(attachment.recorder_process_id, 77);
            assert_eq!(attachment.origin, AttachmentOrigin::Existing);
            assert_eq!(attachment.features, vec!["recording".to_owned(), "shutdown".to_owned()]);
        }
        other => panic!("expected an attachment, got {other:?}"),
    }
}
