use wispr::session::{
    is_implausibly_small, recording_path, session_path, MAX_STAMP_SECS, MIN_PLAUSIBLE_FILE_SIZE,
};

#[test]
fn recording_path_joins_directory_stamp_and_extension() {
    assert_eq!(
        recording_path("/home/u/.cache/wispr", "20240229_235959"),
        "/home/u/.cache/wispr/recording_20240229_235959.wav"
    );
    assert_eq!(recording_path("", ""), "/recording_.wav");
    assert_eq!(recording_path("rel/dir", "x"), "rel/dir/recording_x.wav");
}

#[test]
fn session_path_at_the_start_of_1970() {
    assert_eq!(
        session_path("/tmp/wispr", 0),
        Some("/tmp/wispr/recording_19700101_000000.wav".to_string())
    );
}

#[test]
fn session_path_names_the_wall_clock_second() {
    // 1_700_000_000 s after the start of 1970 is 2023-11-14 22:13:20.
    assert_eq!(
        session_path("/tmp/wispr", 1_700_000_000),
        Some("/tmp/wispr/recording_20231114_221320.wav".to_string())
    );
    // 951_868_799 is 2000-02-29 23:59:59, the last second of a leap day.
    assert_eq!(
        session_path("d", 951_868_799),
        Some("d/recording_20000229_235959.wav".to_string())
    );
    assert_eq!(
        session_path("d", 951_868_800),
        Some("d/recording_20000301_000000.wav".to_string())
    );
}

#[test]
fn session_path_pads_every_field() {
    // 2001-02-03 04:05:06
    assert_eq!(
        session_path("d", 981_173_106),
        Some("d/recording_20010203_040506.wav".to_string())
    );
}

#[test]
fn session_path_at_the_end_of_9999() {
    assert_eq!(MAX_STAMP_SECS, 253_402_300_799);
    assert_eq!(
        session_path("d", MAX_STAMP_SECS),
        Some("d/recording_99991231_235959.wav".to_string())
    );
}

#[test]
fn session_path_outside_the_range_is_refused() {
    assert_eq!(session_path("d", -1), None);
    assert_eq!(session_path("d", MAX_STAMP_SECS + 1), None);
    assert_eq!(session_path("d", i64::MIN), None);
    assert_eq!(session_path("d", i64::MAX), None);
}

#[test]
fn file_below_100_bytes_is_implausibly_small() {
    assert_eq!(MIN_PLAUSIBLE_FILE_SIZE, 100);
    assert!(is_implausibly_small(0));
    assert!(is_implausibly_small(44));
    assert!(is_implausibly_small(99));
    assert!(!is_implausibly_small(100));
    assert!(!is_implausibly_small(u64::MAX));
}
