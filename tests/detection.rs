use hts_recorder::capture::{find_title, snapshot_path, window_label};
use hts_recorder::clock::Timestamp;
use hts_recorder::detector::{find_pid, find_target, first_match_folded, ProcessMonitor};
use hts_recorder::models::{AppConfig, HTSConfig};
use hts_recorder::orchestrator::{get_recording_status, DetectionWatch, LoopAction, MonitorLoop};
use hts_recorder::recorder::ScreenRecorder;

fn strings(v: &[&str]) -> Vec<String> {
    v.iter().map(|s| s.to_string()).collect()
}

#[test]
fn detector_ignores_case() {
    let found = find_target(&strings(&["explorer.exe", "Kiwoom.exe"]), &strings(&["kiwoom.exe"]));
    assert_eq!(found, Some("Kiwoom.exe".to_string()));
}

#[test]
fn detector_matches_substring_and_reports_none() {
    let targets = strings(&["hable"]);
    assert_eq!(find_target(&strings(&["HABLE.EXE"]), &targets), Some("HABLE.EXE".to_string()));
    assert_eq!(find_target(&strings(&["bash", "init"]), &targets), None);
    assert_eq!(find_target(&strings(&[]), &targets), None);
    assert_eq!(find_target(&strings(&["a"]), &strings(&[])), None);
}

#[test]
fn detector_returns_first_match() {
    let found = find_target(&strings(&["x", "Ctrade.exe", "kiwoom.exe"]), &strings(&["kiwoom.exe", "ctrade"]));
    assert_eq!(found, Some("Ctrade.exe".to_string()));
}

#[test]
fn folded_match_is_exact() {
    assert_eq!(first_match_folded(&strings(&["abc", "xkiwoomy"]), &strings(&["kiwoom"])), Some(1));
    assert_eq!(first_match_folded(&strings(&["Kiwoom"]), &strings(&["kiwoom"])), None);
    assert_eq!(first_match_folded(&strings(&["abc"]), &strings(&[""])), Some(0));
}

#[test]
fn pid_lookup_ignores_case() {
    let procs = vec![(1u32, "init".to_string()), (42u32, "KOAStudio.exe".to_string())];
    assert_eq!(find_pid(&procs, "koastudio"), Some(42));
    assert_eq!(find_pid(&procs, "missing"), None);
}

#[test]
fn monitor_reports_absent_target() {
    let mut m = ProcessMonitor::new(strings(&["no-such-process-zq8x"]));
    assert_eq!(m.is_target_running(), None);
    assert_eq!(m.find_process_pid("no-such-process-zq8x"), None);
}

#[test]
fn orchestrator_edges_only() {
    let polls = [false, false, true, true, false];
    let mut lp = MonitorLoop::new();
    let actions: Vec<LoopAction> = polls.iter().map(|p| lp.step(*p)).collect();
    assert_eq!(
        actions,
        vec![LoopAction::Idle, LoopAction::Idle, LoopAction::StartRecording, LoopAction::Heartbeat, LoopAction::StopRecording]
    );
    assert_eq!(actions.iter().filter(|a| **a == LoopAction::StartRecording).count(), 1);
    assert_eq!(actions.iter().filter(|a| **a == LoopAction::StopRecording).count(), 1);
    assert!(!lp.is_active());
}

#[test]
fn detection_watch_reports_changes() {
    let mut w = DetectionWatch::new();
    assert!(!w.observe(None));
    assert!(w.observe(Some("Kiwoom.exe".to_string())));
    assert!(!w.observe(Some("Kiwoom.exe".to_string())));
    assert!(w.observe(Some("hable.exe".to_string())));
    assert!(w.observe(None));
}

#[test]
fn status_snapshot() {
    let mut r = ScreenRecorder::new();
    let s = get_recording_status(&r, None, 0);
    assert!(!s.is_recording && !s.hts_detected);
    assert_eq!(s.hts_name, None);
    assert_eq!(s.recording_duration, None);
    r.start_recording_at("d", &Timestamp::new(2024, 1, 1, 0, 0, 0), 10).unwrap();
    let s = get_recording_status(&r, Some("kiwoom.exe".to_string()), 25);
    assert!(s.is_recording && s.hts_detected);
    assert_eq!(s.hts_name, Some("kiwoom.exe".to_string()));
    assert_eq!(s.recording_duration, Some(15));
}

#[test]
fn default_configuration() {
    let h = HTSConfig::default();
    assert_eq!(h.process_names, strings(&["kiwoom.exe", "eFriend.exe", "Ctrade.exe", "KOAStudio.exe", "hable.exe"]));
    assert_eq!(h.window_titles.len(), 5);
    assert_eq!(h.check_interval_ms, 1000);
    let a = AppConfig::default();
    assert_eq!(a.output_dir, "./recordings");
    assert_eq!(a.fps, 30);
    assert!(!a.enable_ocr);
}

#[test]
fn window_labels_and_titles() {
    assert_eq!(window_label("Notes", 1920, 1080), "Notes (1920x1080)");
    assert_eq!(window_label("", 0, 7), " (0x7)");
    let titles = strings(&["Terminal", "영웅문 Global", "KB증권 HTS"]);
    assert_eq!(find_title(&titles, "kb"), Some(2));
    assert_eq!(find_title(&titles, "TERM"), Some(0));
    assert_eq!(find_title(&titles, "none"), None);
}

#[test]
fn snapshot_paths() {
    let ts = Timestamp::new(987, 12, 31, 23, 59, 58);
    assert_eq!(snapshot_path("shots", "screenshot", &ts), "shots/screenshot_09871231_235958.png");
}

#[test]
fn timestamp_compact_form() {
    let ts = Timestamp::new(2025, 1, 2, 3, 4, 5);
    assert!(ts.is_valid());
    assert_eq!(ts.to_compact(), "20250102_030405");
    assert!(!Timestamp::new(10000, 1, 1, 0, 0, 0).is_valid());
    assert!(!Timestamp::new(2025, 13, 1, 0, 0, 0).is_valid());
}

#[test]
fn monitor_finds_this_test_process() {
    let mut m = ProcessMonitor::new(strings(&["DETECTION"]));
    let found = m.is_target_running().unwrap();
    assert!(found.to_lowercase().contains("detection"));
    assert!(m.find_process_pid("Detection").is_some());
}
