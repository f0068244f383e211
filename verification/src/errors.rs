//! Error taxonomy and the outcome of a `watch` call.
//!
//! Three kinds of failure exist: an I/O failure while observing or copying
//! the canonical artifact (recoverable, the host may poll again), a load
//! failure while mapping the copied artifact (recoverable at the next
//! detected change), and a missing lifecycle entry point (a build error of
//! the artifact, propagated as a hard failure).

use vstd::prelude::*;

verus! {

/// The five fixed lifecycle stages every loadable artifact must export.
#[derive(Clone, Copy, Debug, PartialEq, Eq, Structural)]
pub enum Stage {
    Init,
    Reload,
    Unload,
    Update,
    Finalize,
}

/// A filesystem failure, carrying the path the operation targeted and the
/// raw operating-system error code, so the host can log and decide whether
/// to keep polling.
#[derive(Debug)]
pub struct IoError {
    pub path: String,
    pub os_code: i32,
}

/// Why a load attempt failed: the copy of the canonical artifact to the
/// shadow path failed, or mapping the shadow copy into the process failed.
#[derive(Debug)]
pub enum LoadError {
    Copy(IoError),
    Mapping(IoError),
}

/// The loaded artifact does not export the entry point for the named stage.
#[derive(Clone, Copy, Debug, PartialEq, Eq, Structural)]
pub enum SymbolError {
    Missing(Stage),
}

/// Any failure a `watch` call can report.
#[derive(Debug)]
pub enum WatchError {
    Io(IoError),
    Load(LoadError),
    Symbol(SymbolError),
}

/// The outcome of one `watch` call, produced fresh every call.
#[derive(Debug)]
pub enum WatchResult {
    NoChange,
    Updated,
    Failed(WatchError),
}

} // verus!
