//! Plain data exchanged with the shell: status snapshots, configuration and
//! trade records.
use vstd::prelude::*;
use crate::clock::Timestamp;

verus! {

/// What the shell is told about the recorder and the target.
#[derive(Clone, Debug)]
pub struct RecordingStatus {
    pub is_recording: bool,
    pub hts_detected: bool,
    pub hts_name: Option<String>,
    /// Elapsed seconds of the running session.
    pub recording_duration: Option<u64>,
}

/// The side of a trade.
#[derive(Clone, Copy, Debug, PartialEq, Eq, Structural)]
pub enum TradeAction {
    Buy,
    Sell,
    Unknown,
}

/// A trade seen on screen, with the screenshot that shows it.
#[derive(Clone, Debug)]
pub struct TradeEvent {
    pub action: TradeAction,
    /// When the trade was seen, in UTC.
    pub timestamp: Timestamp,
    pub screenshot_path: String,
    pub window_title: String,
}

/// Which application to watch for: process names and window titles that
/// identify it, and how often to look.
#[derive(Clone, Debug)]
pub struct HTSConfig {
    pub process_names: Vec<String>,
    pub window_titles: Vec<String>,
    pub check_interval_ms: u64,
}

impl Default for HTSConfig {
    /// The usual Korean trading terminals, checked once a second.
    fn default() -> (r: Self)
        ensures
            r.process_names@.len() == 5,
            r.process_names@[0]@ == "kiwoom.exe"@,
            r.process_names@[1]@ == "eFriend.exe"@,
            r.process_names@[2]@ == "Ctrade.exe"@,
            r.process_names@[3]@ == "KOAStudio.exe"@,
            r.process_names@[4]@ == "hable.exe"@,
            r.window_titles@.len() == 5,
            r.window_titles@[0]@ == "키움"@,
            r.window_titles@[1]@ == "영웅문"@,
            r.window_titles@[2]@ == "이베스트"@,
            r.window_titles@[3]@ == "키움"@,
            r.window_titles@[4]@ == "KB증권"@,
            r.check_interval_ms == 1000,
    {
        HTSConfig {
            process_names: vec![
                "kiwoom.exe".to_owned(),
                "eFriend.exe".to_owned(),
                "Ctrade.exe".to_owned(),
                "KOAStudio.exe".to_owned(),
                "hable.exe".to_owned(),
            ],
            window_titles: vec![
                "키움".to_owned(),
                "영웅문".to_owned(),
                "이베스트".to_owned(),
                "키움".to_owned(),
                "KB증권".to_owned(),
            ],
            check_interval_ms: 1000,
        }
    }
}

/// The application's whole configuration, replaced as one value.
#[derive(Clone, Debug)]
pub struct AppConfig {
    pub hts: HTSConfig,
    pub output_dir: String,
    pub fps: u32,
    pub enable_ocr: bool,
}

impl Default for AppConfig {
    /// The default targets, recordings under `./recordings`, 30 frames per
    /// second, no text recognition.
    fn default() -> (r: Self)
        ensures
            r.hts.process_names@.len() == 5,
            r.hts.process_names@[0]@ == "kiwoom.exe"@,
            r.hts.check_interval_ms == 1000,
            r.output_dir@ == "./recordings"@,
            r.fps == 30,
            !r.enable_ocr,
    {
        AppConfig {
            hts: HTSConfig::default(),
            output_dir: "./recordings".to_owned(),
            fps: 30,
            enable_ocr: false,
        }
    }
}

} // verus!
