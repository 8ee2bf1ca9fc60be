//! Local persistence and change notification for a small set of JSON documents.
//!
//! The crate decides; its caller performs. Every operation that touches the
//! disk is a small state machine that hands out one file-system command at a
//! time and is told how that command went. What the commands do to a
//! directory is modelled in [`storage`], and the laws of the subsystem are
//! proved against that model.

pub mod text;
pub mod kind;
pub mod command;
pub mod storage;
pub mod paths;
pub mod writer;
pub mod reader;
pub mod pause;
pub mod watcher;
pub mod json;
pub mod migrate;
pub mod migration;
pub mod backup;
pub mod archive;
pub mod notification;
pub mod system;
