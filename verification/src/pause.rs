//! The pause flag: one switch, shared between the side that writes and the
//! watcher, with which the first silences the second for a while.

use std::sync::atomic::{AtomicBool, Ordering};
use vstd::prelude::*;

verus! {

/// The shared state that controls the watcher.
///
/// The flag is read and written from several threads at once. Nothing but
/// the atomicity of each access is promised: a reader may see a value that a
/// writer has just replaced.
pub struct WatcherState {
    pub paused: AtomicBool,
}

impl WatcherState {
    /// A state in which the watcher is not paused.
    pub fn new() -> (state: Self) {
        Self { paused: AtomicBool::new(false) }
    }

    /// Pauses the watcher: from now on it drops what it sees.
    pub fn pause(&self) {
        self.paused.store(true, Ordering::SeqCst);
    }

    /// Lets the watcher report again.
    pub fn resume(&self) {
        self.paused.store(false, Ordering::SeqCst);
    }

    /// Whether the watcher is paused at this moment.
    pub fn is_paused(&self) -> (paused: bool) {
        self.paused.load(Ordering::SeqCst)
    }
}

} // verus!
