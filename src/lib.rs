//! Detection-driven screen recording: the decisions behind watching for a
//! target process, running one capture session at a time, and naming what a
//! session writes.
pub mod text;
pub mod clock;
pub mod recorder;
pub mod detector;
pub mod models;
pub mod orchestrator;
pub mod capture;
