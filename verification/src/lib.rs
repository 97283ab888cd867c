//! The input side of a virtual terminal: a line discipline in the POSIX
//! manner, the sessions it works on, and a registry of live sessions.
//!
//! Bytes arriving from a transport are fed to a session with
//! [`session::Pty::consume`]. The discipline translates line endings, builds
//! lines in the session's cooked buffer, honours the editing, signal and
//! flow-control characters, and queues finished lines (or raw chunks, outside
//! canonical mode) for a reader. It never echoes or signals by itself: it
//! hands back [`event::ControlEvent`]s that say what a collaborator should do.
//!
//! Every function is stated against a mathematical model: the decoded modes
//! ([`attributes::Modes`]), the line state ([`discipline::Line`]) and the map
//! of sessions ([`registry::Registry`]'s view). What holds of every input is
//! proved over that model: no byte is invented or lost ([`accounting`]), the
//! queue holds whole lines or full chunks in the order in which they were
//! finished ([`framing`]), and sessions do not interfere ([`registry`]).
//!
//! The layout of the attributes is that of the `redox_termios` crate, and is
//! read from it ([`termios`]). Blocking, locking and transport are left to
//! the caller: a reader that finds a queue empty is told to wait.

pub mod accounting;
pub mod attributes;
pub mod discipline;
pub mod event;
pub mod framing;
pub mod registry;
pub mod session;
pub mod termios;
