//! Hot-reload engine for a single native code artifact.
//!
//! A long-running host swaps in a freshly built shared library without
//! restarting, while a caller-owned state value survives the swap.  The
//! library holds the verified core: the swap state machine that decides when
//! to unload, release, load and reload (driven by the host, which performs
//! the actual file and loader operations and reports their outcomes back),
//! the derivation of the shadow path that the loader maps instead of the
//! canonical file, and the error taxonomy those decisions produce.

pub mod errors;
pub mod paths;
pub mod watchable;
pub mod watcher;

pub use errors::IoError;
pub use errors::LoadError;
pub use errors::Stage;
pub use errors::SymbolError;
pub use errors::WatchError;
pub use errors::WatchResult;
pub use watchable::Plugin;
pub use watchable::State;
pub use watchable::Watchable;
pub use watcher::Action;
pub use watcher::Event;
pub use watcher::Loaded;
pub use watcher::Phase;
pub use watcher::Watcher;
