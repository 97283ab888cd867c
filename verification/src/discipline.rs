//! The line discipline: what each input byte does to a line, as a
//! mathematical model and as executable code proved against it.
//!
//! A byte runs through a fixed order of stages. Translation comes first and
//! may drop the byte. Then the canonical, signal, flow-control and extended
//! stages each get the chance to take it; the first one that does decides its
//! [`Action`]. A byte that none takes joins the line. Whether a byte is taken
//! never depends on its value being zero: zero is a byte like any other, only
//! a control character of zero is never matched.

use vstd::prelude::*;
use crate::attributes::Modes;
use crate::event::{Action, ControlEvent};

verus! {

/// Line feed.
pub const LF: u8 = 0x0a;

/// Carriage return.
pub const CR: u8 = 0x0d;

/// The part of a session that the discipline works on.
pub struct Line {
    /// The line under construction.
    pub cooked: Seq<u8>,
    /// The finished lines and chunks, oldest first.
    pub outbound: Seq<Seq<u8>>,
}

/// A line together with the events emitted on the way to it.
pub struct Outcome {
    /// The line after the input.
    pub line: Line,
    /// The events, in the order of the bytes that caused them.
    pub events: Seq<ControlEvent>,
}

/// Whether `byte` is the control character `ch`. A character of zero is
/// unassigned and matches nothing.
pub open spec fn is_char(ch: u8, byte: u8) -> bool {
    ch != 0 && byte == ch
}

impl Line {
    /// The line after `action`.
    pub open spec fn apply(self, action: Action) -> Line {
        match action {
            Action::Ignore => self,
            Action::Report(_) => self,
            Action::Terminate(b) => Line {
                cooked: Seq::empty(),
                outbound: self.outbound.push(self.cooked.push(b)),
            },
            Action::EndOfFile => Line {
                cooked: Seq::empty(),
                outbound: self.outbound.push(self.cooked),
            },
            Action::Erase => Line {
                cooked: if self.cooked.len() > 0 {
                    self.cooked.drop_last()
                } else {
                    self.cooked
                },
                outbound: self.outbound,
            },
            Action::Append(b) => Line { cooked: self.cooked.push(b), outbound: self.outbound },
        }
    }
}

impl Modes {
    /// Input translation: `None` where the byte is dropped.
    pub open spec fn translate(self, byte: u8) -> Option<u8> {
        if byte == LF {
            if self.inlcr {
                Some(CR)
            } else {
                Some(LF)
            }
        } else if byte == CR {
            if self.igncr {
                None
            } else if self.icrnl {
                Some(LF)
            } else {
                Some(CR)
            }
        } else {
            Some(byte)
        }
    }

    /// The canonical stage: line ends, end of file and the editing
    /// characters. `None` where the stage lets the byte pass.
    pub open spec fn edit(self, byte: u8) -> Option<Action> {
        if !self.icanon {
            None
        } else if byte == LF {
            Some(Action::Terminate(byte))
        } else if is_char(self.eof, byte) {
            Some(Action::EndOfFile)
        } else if is_char(self.eol, byte) || is_char(self.eol2, byte) {
            Some(Action::Terminate(byte))
        } else if is_char(self.erase, byte) {
            Some(Action::Erase)
        } else if self.iexten && is_char(self.werase, byte) {
            Some(Action::Report(ControlEvent::WordErase))
        } else if self.iexten && is_char(self.kill, byte) {
            Some(Action::Report(ControlEvent::KillLine))
        } else if self.iexten && is_char(self.reprint, byte) {
            Some(Action::Report(ControlEvent::Reprint))
        } else {
            None
        }
    }

    /// The signal stage.
    pub open spec fn signal(self, byte: u8) -> Option<Action> {
        if !self.isig {
            None
        } else if is_char(self.intr, byte) {
            Some(Action::Report(ControlEvent::Interrupt))
        } else if is_char(self.quit, byte) {
            Some(Action::Report(ControlEvent::Quit))
        } else if is_char(self.susp, byte) {
            Some(Action::Report(ControlEvent::Suspend))
        } else {
            None
        }
    }

    /// The flow-control stage.
    pub open spec fn flow(self, byte: u8) -> Option<Action> {
        if !self.ixon {
            None
        } else if is_char(self.start, byte) {
            Some(Action::Report(ControlEvent::Start))
        } else if is_char(self.stop, byte) {
            Some(Action::Report(ControlEvent::Stop))
        } else {
            None
        }
    }

    /// The extended stage: literal-next and discard.
    pub open spec fn extended(self, byte: u8) -> Option<Action> {
        if !self.iexten {
            None
        } else if is_char(self.lnext, byte) {
            Some(Action::Report(ControlEvent::LiteralNext))
        } else if is_char(self.discard, byte) {
            Some(Action::Report(ControlEvent::Discard))
        } else {
            None
        }
    }

    /// What the discipline does with `byte`: the verdict of the first stage
    /// that takes it, in the order translation, canonical, signal, flow
    /// control, extended; a byte that no stage takes joins the line.
    pub open spec fn action(self, byte: u8) -> Action {
        match self.translate(byte) {
            None => Action::Ignore,
            Some(b) => {
                if let Some(a) = self.edit(b) {
                    a
                } else if let Some(a) = self.signal(b) {
                    a
                } else if let Some(a) = self.flow(b) {
                    a
                } else if let Some(a) = self.extended(b) {
                    a
                } else {
                    Action::Append(b)
                }
            },
        }
    }

    /// The event that `action` emits when the line under construction holds
    /// `cooked_len` bytes, if it emits one.
    pub open spec fn event(self, action: Action, cooked_len: nat) -> Option<ControlEvent> {
        match action {
            Action::Ignore => None,
            Action::EndOfFile => None,
            Action::Terminate(b) => {
                if self.echo || (b == LF && self.echonl) {
                    Some(ControlEvent::Echo(b))
                } else {
                    None
                }
            },
            Action::Erase => {
                if self.echoe && cooked_len > 0 {
                    Some(ControlEvent::EchoErase)
                } else {
                    None
                }
            },
            Action::Report(e) => Some(e),
            Action::Append(b) => {
                if self.echo {
                    Some(ControlEvent::Echo(b))
                } else {
                    None
                }
            },
        }
    }

    /// One byte of input.
    pub open spec fn step(self, before: Outcome, byte: u8) -> Outcome {
        let action = self.action(byte);
        Outcome {
            line: before.line.apply(action),
            events: match self.event(action, before.line.cooked.len()) {
                Some(e) => before.events.push(e),
                None => before.events,
            },
        }
    }

    /// A sequence of input bytes, one after the other.
    pub open spec fn feed(self, before: Outcome, bytes: Seq<u8>) -> Outcome
        decreases bytes.len(),
    {
        if bytes.len() == 0 {
            before
        } else {
            self.step(self.feed(before, bytes.drop_last()), bytes.last())
        }
    }

    /// The end of an input: outside canonical mode, a line that has reached
    /// the threshold is queued as one chunk.
    pub open spec fn release(self, line: Line) -> Line {
        if !self.icanon && line.cooked.len() >= self.vmin {
            Line { cooked: Seq::empty(), outbound: line.outbound.push(line.cooked) }
        } else {
            line
        }
    }

    /// A whole input: every byte in turn, then the release.
    pub open spec fn consume(self, line: Line, bytes: Seq<u8>) -> Outcome {
        let fed = self.feed(Outcome { line: line, events: Seq::empty() }, bytes);
        Outcome { line: self.release(fed.line), events: fed.events }
    }

    /// Input translation.
    pub fn translated(&self, byte: u8) -> (out: Option<u8>)
        ensures
            out == self.translate(byte),
    {
        if byte == LF {
            if self.inlcr {
                Some(CR)
            } else {
                Some(LF)
            }
        } else if byte == CR {
            if self.igncr {
                None
            } else if self.icrnl {
                Some(LF)
            } else {
                Some(CR)
            }
        } else {
            Some(byte)
        }
    }

    /// What the discipline does with `byte`.
    pub fn classify(&self, byte: u8) -> (action: Action)
        ensures
            action == self.action(byte),
    {
        let b = match self.translated(byte) {
            None => {
                return Action::Ignore;
            },
            Some(b) => b,
        };
        if self.icanon {
            if b == LF {
                return Action::Terminate(b);
            }
            if matches_char(self.eof, b) {
                return Action::EndOfFile;
            }
            if matches_char(self.eol, b) || matches_char(self.eol2, b) {
                return Action::Terminate(b);
            }
            if matches_char(self.erase, b) {
                return Action::Erase;
            }
            if self.iexten {
                if matches_char(self.werase, b) {
                    return Action::Report(ControlEvent::WordErase);
                }
                if matches_char(self.kill, b) {
                    return Action::Report(ControlEvent::KillLine);
                }
                if matches_char(self.reprint, b) {
                    return Action::Report(ControlEvent::Reprint);
                }
            }
        }
        if self.isig {
            if matches_char(self.intr, b) {
                return Action::Report(ControlEvent::Interrupt);
            }
            if matches_char(self.quit, b) {
                return Action::Report(ControlEvent::Quit);
            }
            if matches_char(self.susp, b) {
                return Action::Report(ControlEvent::Suspend);
            }
        }
        if self.ixon {
            if matches_char(self.start, b) {
                return Action::Report(ControlEvent::Start);
            }
            if matches_char(self.stop, b) {
                return Action::Report(ControlEvent::Stop);
            }
        }
        if self.iexten {
            if matches_char(self.lnext, b) {
                return Action::Report(ControlEvent::LiteralNext);
            }
            if matches_char(self.discard, b) {
                return Action::Report(ControlEvent::Discard);
            }
        }
        Action::Append(b)
    }

    /// The event that `action` emits, if any, when the line under
    /// construction holds `cooked_len` bytes.
    pub fn emitted(&self, action: Action, cooked_len: usize) -> (event: Option<ControlEvent>)
        ensures
            event == self.event(action, cooked_len as nat),
    {
        match action {
            Action::Ignore => None,
            Action::EndOfFile => None,
            Action::Terminate(b) => {
                if self.echo || (b == LF && self.echonl) {
                    Some(ControlEvent::Echo(b))
                } else {
                    None
                }
            },
            Action::Erase => {
                if self.echoe && cooked_len > 0 {
                    Some(ControlEvent::EchoErase)
                } else {
                    None
                }
            },
            Action::Report(e) => Some(e),
            Action::Append(b) => {
                if self.echo {
                    Some(ControlEvent::Echo(b))
                } else {
                    None
                }
            },
        }
    }
}

/// Input may arrive in pieces: feeding two inputs one after the other is
/// feeding them joined. Only the release at the end of an input, outside
/// canonical mode, depends on where an input ends.
pub proof fn input_may_arrive_in_pieces(
    modes: Modes,
    before: Outcome,
    first: Seq<u8>,
    second: Seq<u8>,
)
    ensures
        modes.feed(before, first + second) == modes.feed(modes.feed(before, first), second),
        modes.icanon ==> modes.release(modes.feed(before, first).line) == modes.feed(
            before,
            first,
        ).line,
    decreases second.len(),
{
    if second.len() == 0 {
        assert(first + second =~= first);
    } else {
        input_may_arrive_in_pieces(modes, before, first, second.drop_last());
        assert((first + second).drop_last() =~= first + second.drop_last());
        assert((first + second).last() == second.last());
    }
}

/// Whether `byte` is the control character `ch`.
pub fn matches_char(ch: u8, byte: u8) -> (hit: bool)
    ensures
        hit == is_char(ch, byte),
{
    ch != 0 && byte == ch
}

} // verus!
