//! A verified engine for a Windows temporary-file cleaner.
//!
//! The engine discovers removable locations from a fixed catalog, measures
//! them, decides what may be deleted, and produces a plain-text accounting.
//! All decision logic is verified; directory traversal is performed by the
//! `walkdir` crate behind narrow trusted wrappers, and the surrounding shell
//! performs the actual file removal, environment reads and presentation.

pub mod anchors;
pub mod catalog;
pub mod component;
pub mod disk;
pub mod paths;
pub mod removal;
pub mod report;
pub mod ui;
