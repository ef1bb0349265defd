//! A cache on disk that answers at once with what it has and leaves the
//! recomputation to a detached process.

pub mod config;
pub mod entry;
pub mod load;
pub mod paths;
pub mod refresh;

pub use self::config::{BuildError, Builder, Cache};
pub use self::entry::{Entry, Freshness};
pub use self::load::{Action, Event, Load, LoadError, Phase, Policy, ReadOutcome, TimeoutError};
pub use self::paths::Layout;
pub use self::refresh::{
    LockOutcome, Refresh, RefreshAction, RefreshError, RefreshEvent, RefreshOutcome, RefreshPhase,
};
