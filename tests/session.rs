use hts_recorder::clock::Timestamp;
use hts_recorder::recorder::{RecorderError, ScreenRecorder};

fn stamp(second: u32) -> Timestamp {
    Timestamp::new(2024, 3, 7, 9, 5, second)
}

#[test]
fn new_recorder_is_idle() {
    let r = ScreenRecorder::new();
    assert!(!r.is_recording());
    assert_eq!(r.get_frame_count(), 0);
    assert_eq!(r.get_output_path(), None);
    assert_eq!(r.get_recording_duration(100), None);
}

#[test]
fn start_returns_timestamped_subdirectory() {
    let mut r = ScreenRecorder::new();
    let p = r.start_recording_at("/tmp/out", &stamp(42), 10).unwrap();
    assert_eq!(p, "/tmp/out/recording_20240307_090542");
    assert!(r.is_recording());
    assert_eq!(r.get_output_path(), Some(p));
}

#[test]
fn start_joins_without_doubling_separator() {
    let mut r = ScreenRecorder::new();
    let p = r.start_recording_at("out/", &stamp(1), 0).unwrap();
    assert_eq!(p, "out/recording_20240307_090501");
    let mut r2 = ScreenRecorder::new();
    let bare = r2.start_recording_at("", &stamp(1), 0).unwrap();
    assert_eq!(bare, "recording_20240307_090501");
}

#[test]
fn second_start_fails_already_active() {
    let mut r = ScreenRecorder::new();
    let first = r.start_recording_at("d", &stamp(0), 0).unwrap();
    assert_eq!(r.start_recording_at("d", &stamp(5), 3), Err(RecorderError::AlreadyActive));
    assert_eq!(r.get_output_path(), Some(first));
}

#[test]
fn stop_while_idle_fails_not_active() {
    let mut r = ScreenRecorder::new();
    assert_eq!(r.stop_recording(), Err(RecorderError::NotActive));
    r.start_recording_at("d", &stamp(0), 0).unwrap();
    r.stop_recording().unwrap();
    assert_eq!(r.stop_recording(), Err(RecorderError::NotActive));
}

#[test]
fn stop_returns_directory_and_clears_state() {
    let mut r = ScreenRecorder::new();
    let p = r.start_recording_at("d", &stamp(0), 7).unwrap();
    let t = r.frame_task().unwrap();
    r.frame_written(&t);
    assert_eq!(r.stop_recording(), Ok(Some(p)));
    assert!(!r.is_recording());
    assert_eq!(r.get_frame_count(), 0);
    assert_eq!(r.get_output_path(), None);
    assert_eq!(r.get_recording_duration(9), None);
}

#[test]
fn duration_counts_seconds_since_start() {
    let mut r = ScreenRecorder::new();
    r.start_recording_at("d", &stamp(0), 100).unwrap();
    assert_eq!(r.get_recording_duration(100), Some(0));
    assert_eq!(r.get_recording_duration(163), Some(63));
    assert_eq!(r.get_recording_duration(50), Some(0));
}

#[test]
fn frames_numbered_from_one_without_gaps() {
    let mut r = ScreenRecorder::new();
    r.start_recording_at("s", &stamp(0), 0).unwrap();
    let t = r.frame_task().unwrap();
    assert_eq!(r.next_frame(&t), Some("s/recording_20240307_090500/frame_000001.png".to_string()));
    r.frame_written(&t);
    assert_eq!(r.next_frame(&t), Some("s/recording_20240307_090500/frame_000002.png".to_string()));
    r.frame_written(&t);
    assert_eq!(r.get_frame_count(), 2);
    assert_eq!(r.next_frame(&t), Some("s/recording_20240307_090500/frame_000003.png".to_string()));
}

#[test]
fn frame_count_resets_on_next_start() {
    let mut r = ScreenRecorder::new();
    r.start_recording_at("s", &stamp(0), 0).unwrap();
    let t = r.frame_task().unwrap();
    let mut last = 0;
    for _ in 0..3 {
        r.frame_written(&t);
        assert!(r.get_frame_count() >= last);
        last = r.get_frame_count();
    }
    assert_eq!(last, 3);
    r.stop_recording().unwrap();
    r.start_recording_at("s", &stamp(9), 0).unwrap();
    assert_eq!(r.get_frame_count(), 0);
}

#[test]
fn stale_task_stops_and_does_not_count() {
    let mut r = ScreenRecorder::new();
    r.start_recording_at("s", &stamp(0), 0).unwrap();
    let old_task = r.frame_task().unwrap();
    r.stop_recording().unwrap();
    assert_eq!(r.next_frame(&old_task), None);
    r.start_recording_at("s", &stamp(1), 0).unwrap();
    assert_eq!(r.next_frame(&old_task), None);
    r.frame_written(&old_task);
    assert_eq!(r.get_frame_count(), 0);
    assert!(r.frame_task().is_some());
}

#[test]
fn restart_in_same_second_gets_new_directory() {
    let mut r = ScreenRecorder::new();
    let a = r.start_recording_at("d", &stamp(3), 0).unwrap();
    r.stop_recording().unwrap();
    let b = r.start_recording_at("d", &stamp(3), 0).unwrap();
    r.stop_recording().unwrap();
    let c = r.start_recording_at("d", &stamp(3), 0).unwrap();
    assert_eq!(a, "d/recording_20240307_090503");
    assert_eq!(b, "d/recording_20240307_090503_2");
    assert_eq!(c, "d/recording_20240307_090503_3");
    r.stop_recording().unwrap();
    let e = r.start_recording_at("d", &stamp(4), 0).unwrap();
    assert_eq!(e, "d/recording_20240307_090504");
}

#[test]
fn capture_failure_on_third_of_five_ticks() {
    let mut r = ScreenRecorder::new();
    r.start_recording_at("s", &stamp(0), 0).unwrap();
    let t = r.frame_task().unwrap();
    let mut written = Vec::new();
    for tick in 1..=5 {
        let path = r.next_frame(&t).unwrap();
        assert!(r.is_recording());
        if tick == 3 {
            continue;
        }
        written.push(path);
        r.frame_written(&t);
    }
    assert!(r.is_recording());
    assert_eq!(r.get_frame_count(), 4);
    assert_eq!(
        written,
        vec![
            "s/recording_20240307_090500/frame_000001.png".to_string(),
            "s/recording_20240307_090500/frame_000002.png".to_string(),
            "s/recording_20240307_090500/frame_000003.png".to_string(),
            "s/recording_20240307_090500/frame_000004.png".to_string(),
        ]
    );
}

#[test]
fn start_with_clock_names_directory_by_local_time() {
    let mut r = ScreenRecorder::new();
    let p = r.start_recording("root", 5).unwrap();
    assert!(p.starts_with("root/recording_"));
    assert_eq!(p.len(), "root/recording_".len() + 15);
    assert_eq!(p.as_bytes()["root/recording_".len() + 8], b'_');
    assert_eq!(r.start_recording("root", 6), Err(RecorderError::AlreadyActive));
}

#[test]
fn error_messages() {
    assert_eq!(RecorderError::AlreadyActive.message(), "Already recording");
    assert_eq!(RecorderError::NotActive.message(), "Not recording");
    assert_eq!(RecorderError::ClockOutOfRange.message(), "Clock out of range");
}

#[test]
fn default_recorder_is_idle() {
    let r = ScreenRecorder::default();
    assert!(!r.is_recording());
    assert!(r.frame_task().is_none());
}
