//! What the line discipline asks of its collaborators.

use vstd::prelude::*;

verus! {

/// A request that the line discipline hands to a collaborator. The discipline
/// never echoes, signals or pauses by itself: it only says that it should be
/// done.
#[derive(Clone, Copy, Debug, PartialEq, Eq, Structural)]
pub enum ControlEvent {
    /// Echo this byte to the terminal.
    Echo(u8),
    /// Show that the last byte of the line was erased. Asked for only where
    /// an erasure did remove a byte.
    EchoErase,
    /// Erase the last word of the line.
    WordErase,
    /// Kill the line.
    KillLine,
    /// Reprint the line.
    Reprint,
    /// Deliver the interrupt signal.
    Interrupt,
    /// Deliver the quit signal.
    Quit,
    /// Deliver the suspend signal.
    Suspend,
    /// Resume transmission.
    Start,
    /// Pause transmission.
    Stop,
    /// Take the next byte literally.
    LiteralNext,
    /// Discard pending output.
    Discard,
}

/// What the discipline does with one input byte.
#[derive(Clone, Copy, Debug, PartialEq, Eq, Structural)]
pub enum Action {
    /// The byte is dropped: a carriage return under `igncr`.
    Ignore,
    /// The byte ends the line: it joins the line, and the line is queued.
    Terminate(u8),
    /// The byte is the end-of-file character: the line is queued as it is.
    EndOfFile,
    /// The byte is the erase character: the line loses its last byte.
    Erase,
    /// The byte is taken by a stage that only reports it.
    Report(ControlEvent),
    /// The byte, as translated, joins the line.
    Append(u8),
}

} // verus!
