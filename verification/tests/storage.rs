use clipped_ipc::storage::{GetStorage, RecordingList, StorageLimits, StorageRecording};

#[test]
fn limits_with_nothing_set_are_the_unlimited_ones_clipped_ships_with() {
    assert!(StorageLimits::default().is_unlimited());
    assert!(!StorageLimits {
        maximum_usage_bytes: Some(250_000_000_000),
        ..StorageLimits::default()
    }
    .is_unlimited());
}

#[test]
fn a_list_knows_whether_it_named_everything_it_counted() {
    let listed = RecordingList {
        total: 2,
        total_bytes: 30,
        recordings: vec![StorageRecording {
            recording_id: 1,
            path: r"D:\Clips\one.mkv".to_owned(),
            size_bytes: 20,
            started_at: "2026-08-16T10:00:00+01:00".to_owned(),
            protected_because: None,
        }],
    };

    assert!(!listed.is_complete(), "one of two is not all of them");
    assert!(
        RecordingList::default().is_complete(),
        "none of none is all of them"
    );
}

#[test]
fn a_request_with_no_parameters_asks_about_the_configured_limits() {
    let asked = GetStorage::default();
    assert_eq!(asked.limits, None);
}

#[test]
fn any_one_limit_makes_the_limits_limited() {
    for limits in [
        StorageLimits { minimum_free_space_bytes: Some(0), ..StorageLimits::default() },
        StorageLimits { maximum_age_days: Some(90), ..StorageLimits::default() },
    ] {
        assert!(!limits.is_unlimited(), "{limits:?}");
    }
}
