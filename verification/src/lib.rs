//! Periodic backups of a source directory: when a backup is due, what it is called,
//! which old backups go, and in which order the service acts.
//!
//! Everything here decides; reading files, copying directories, waiting and printing are left
//! to the program around it.

pub mod backup;
pub mod clock;
pub mod config;
pub mod duration;
pub mod interval;
pub mod paths;
pub mod resource;
pub mod retention;
pub mod schedule;
pub mod service;
pub mod text;
pub mod version;
