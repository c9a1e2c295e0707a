//! The System Integration page: what each probe of the installation shows,
//! and what each action runs or reports. Probing and running happen where the
//! page is wired up; these modules decide from what was observed.

pub mod item;
pub mod kdmapi;
pub mod libraries;
pub mod service;
pub mod winmm;
