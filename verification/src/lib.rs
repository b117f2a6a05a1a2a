//! A clipboard history: every distinct piece of copied content is kept once,
//! ordered by the last time it was on the clipboard, and can be searched.
//!
//! - [`record`], [`codec`]: what is kept of a capture, and how it is shown.
//! - [`history`]: the history as a sequence of records, and what each
//!   operation makes of it.
//! - [`store`]: the store that holds the history and carries the operations
//!   out; [`capture`] and [`queries`] write to it and read from it.
//! - [`monitor`]: what to do about each change of the clipboard.
//! - [`rows`]: the persisted table, and how it is read back.
//! - [`selection`]: what a window that shows the history decides.
//! - [`matching`]: the substring search that the others share.
//! - [`laws`]: what holds of all of this, whatever is captured.
//! - [`outside`]: the calls into other crates, and what is taken on trust
//!   about them.
//!
//! The library does no input or output. Its caller reads the clipboard,
//! asks the system who has the focus, and keeps the table on disk.

pub mod capture;
pub mod codec;
pub mod history;
pub mod laws;
pub mod matching;
pub mod monitor;
pub mod outside;
pub mod queries;
pub mod record;
pub mod rows;
pub mod selection;
pub mod store;
