use clipped_ipc::status::{
    ExportProgress, SessionRecording, SessionSummary, Watching,
};
use clipped_ipc::{ActiveRecording, EndReason, RecorderStatus};

fn a_sitting() -> SessionSummary {
    SessionSummary {
        session_id: "cs2-20260811-201400".to_owned(),
        game_id: Some("cs2".to_owned()),
        game_name: Some("Counter-Strike 2".to_owned()),
        started_at: "2026-08-11T20:14:00+01:00".to_owned(),
        ended_at: None,
        end_reason: None,
        recordings: vec![SessionRecording {
            session_index: 1,
            output: r"D:\clips\cs2-20260811-201400-01.mkv".to_owned(),
            outcome: Some("recorded".to_owned()),
            end_reason: Some("stopped".to_owned()),
            duration_ms: Some(1_800_000),
        }],
    }
}

#[test]
fn an_unknown_end_reason_keeps_its_name() {
    let reason = EndReason::from_wire("display_disconnected".to_owned());
    assert_eq!(reason, EndReason::Other("display_disconnected".to_owned()));
    assert_eq!(reason.into_wire(), "display_disconnected");
}

#[test]
fn known_end_reasons_have_their_wire_strings() {
    for (reason, wire) in [
        (EndReason::Stopped, "stopped"),
        (EndReason::TargetLost, "target_lost"),
        (EndReason::TargetResized, "target_resized"),
    ] {
        assert_eq!(reason.as_str(), wire);
        assert_eq!(EndReason::from_wire(wire.to_owned()), reason);
    }
}

#[test]
fn an_export_fraction_is_none_when_there_is_nothing_to_divide_by() {
    let progress = |written_ms, total_ms| {
        ExportProgress {
            source: r"D:\clips\match.mkv".to_owned(),
            destination: r"D:\clips\match.mp4".to_owned(),
            written_ms,
            total_ms,
            packets: 1,
            bytes: 1,
        }
        .progress_parts()
        .map(|(done, whole)| done as f64 / whole as f64)
    };

    assert_eq!(progress(1_308_000, None), None);
    assert_eq!(progress(0, Some(0)), None);

    assert_eq!(progress(0, Some(6_540_000)), Some(0.0));
    assert_eq!(progress(1_635_000, Some(6_540_000)), Some(0.25));
    assert_eq!(progress(6_540_000, Some(6_540_000)), Some(1.0));
    assert_eq!(progress(6_600_000, Some(6_540_000)), Some(1.0));
}

#[test]
fn a_watching_recorder_is_not_recording_and_keeps_its_sitting() {
    let status = RecorderStatus::Watching(Watching { session: Some(Box::new(a_sitting())) });
    assert!(!status.is_recording());
    assert_eq!(
        status.session().and_then(|session| session.game_name.as_deref()),
        Some("Counter-Strike 2")
    );
    assert_eq!(RecorderStatus::Watching(Watching::default()).session(), None);
    assert_eq!(RecorderStatus::Idle.session(), None);
}

#[test]
fn a_recording_names_its_sitting() {
    let status = RecorderStatus::Recording(ActiveRecording {
        recording_id: "r-2".to_owned(),
        output: r"D:\clips\cs2-20260811-201400-02.mkv".to_owned(),
        target: "process 4242".to_owned(),
        elapsed_ms: 192_000,
        replay_seconds: None,
        session: Some(Box::new(a_sitting())),
    });
    assert!(status.is_recording());
    let session = status.session().expect("a recording in a sitting has one");
    assert_eq!(session.recordings.len(), 1);
    assert_eq!(session.session_id, "cs2-20260811-201400");
}

#[test]
fn an_unattributed_sitting_has_no_game() {
    let session = SessionSummary {
        session_id: "unattributed-20260811-201400".to_owned(),
        started_at: "2026-08-11T20:14:00+01:00".to_owned(),
        ..SessionSummary::default()
    };
    assert_eq!(session.game_id, None);
    assert_eq!(session.game_name, None);
    assert!(session.recordings.is_empty());
}
