//! Session orchestration for a multi-window audio player: the registry of
//! player sessions, the reconciliation of what each window shows against what
//! its playback engine reports, and the routing of menu, keyboard and
//! file-open requests to the right session.

pub mod text;
pub mod media_path;
pub mod playback;
pub mod session;
pub mod menu;
pub mod open_file;
pub mod shortcuts;
pub mod config;
pub mod orchestrator;
