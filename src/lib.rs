//! Native side of a webview bridge: handles with checked lifetimes, event queues
//! shared with engine callbacks, view attributes and script evaluation tickets.

pub mod error;
pub mod attributes;
pub mod boundary;
pub mod entries;
pub mod handle;
pub mod headers;
pub mod ipc;
pub mod queue;
pub mod events;
pub mod script;
pub mod text_box;
