//! Core engine of a file-mirroring daemon: it resolves a declarative set of
//! copy rules ("copysets") into watch registrations with effective event
//! masks, decides which initial reconciliation copies are needed, and
//! dispatches incoming filesystem events to the matching copy action.
//!
//! The engine itself performs no I/O: callers check the filesystem, register
//! watches and copy bytes, and hand the outcomes back as plain values.

pub mod config;
pub mod dispatch;
pub mod events;
pub mod pathstr;
pub mod resolve;
pub mod table;

pub use events::NotifyEvent;
