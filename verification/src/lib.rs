//! Verified core of the Maestro MIDI synthesizer host: configuration naming,
//! the MIDI gate that buffers events while the engine is down, the tempo
//! clock, and the decisions behind the daemon, driver and settings editor.

pub mod text;
pub mod fmt;
pub mod gate;
pub mod tempo;
pub mod system_cfg;
pub mod engine_cfg;
pub mod daemon;
pub mod midi_in;
pub mod driver;
pub mod output;
pub mod component;
pub mod ui_conv;
pub mod app_state;
pub mod quit;
pub mod integration;
pub mod editor;
pub mod sflist_ops;
pub mod sflist_files;
pub mod launch;
pub mod privileged;
pub mod watch;
pub mod sysinfo;
pub mod stats;
pub mod render_jobs;
pub mod logging;
