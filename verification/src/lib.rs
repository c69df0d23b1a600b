//! Core logic of a terminal resource monitor: threshold classification,
//! alert evaluation, dashboard rendering, and the monitor cycle policy.

pub mod alert;
pub mod bar;
pub mod clock;
pub mod config;
pub mod color;
pub mod cycle;
pub mod dashboard;
pub mod monitor;
pub mod paint;
pub mod procs;
pub mod sample;
pub mod severity;
pub mod textfmt;
pub mod toml_text;
pub mod usage;
