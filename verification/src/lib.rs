//! Building blocks for Alfred script-filter workflows.
//!
//! - [`cache`]: a cache on disk that serves the last known value at once
//!   while a detached process computes the next one.
//! - [`detach`]: running work in a process of its own, cut off from the
//!   caller.
//! - [`env`]: the variables that Alfred hands to a workflow.
//! - [`item`]: the rows that a script filter shows.
//! - [`cargo`], [`workflow`], [`plist`], [`logger`]: what the command line
//!   tool needs to set up, build and install a workflow.
//! - [`time`], [`text`]: spans of time and pieces of text.
//!
//! Nothing here touches the disk, the clock or the process table. Each
//! protocol is a state machine: it names the next outside step, and is told
//! how that step went.

pub mod cache;
pub mod cargo;
pub mod detach;
pub mod env;
pub mod item;
pub mod logger;
pub mod plist;
pub mod text;
pub mod time;
pub mod workflow;

pub use crate::item::{is_default, Data, Icon, IconInner, Item, Key, Kind, Modifier, Modifiers, Output, Text};
