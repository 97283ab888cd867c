//! Where the bytes go: the discipline neither invents nor loses a byte.
//!
//! Every input byte meets exactly one fate. It is *dropped* (a carriage
//! return under `igncr`), *taken* by a control stage (end of file, erase, or
//! a character that is only reported), or *kept*: it joins the line, as
//! translated. A kept byte stays in the session, in the line under
//! construction or in a queued entry, until an erasure removes it from the
//! line or a reader takes its entry. The proofs of this module state that
//! over the model of [`crate::discipline`].

use vstd::prelude::*;
use crate::attributes::Modes;
use crate::discipline::{Line, Outcome};
use crate::event::Action;

verus! {

/// The bytes of a queue, entry after entry.
pub open spec fn joined(queue: Seq<Seq<u8>>) -> Seq<u8>
    decreases queue.len(),
{
    if queue.len() == 0 {
        Seq::empty()
    } else {
        joined(queue.drop_last()) + queue.last()
    }
}

impl Line {
    /// Every byte that the session holds: the queued entries, oldest first,
    /// then the line under construction.
    pub open spec fn stream(self) -> Seq<u8> {
        joined(self.outbound) + self.cooked
    }
}

impl Modes {
    /// Whether `byte` is dropped.
    pub open spec fn drops(self, byte: u8) -> bool {
        self.action(byte) == Action::Ignore
    }

    /// Whether a control stage takes `byte`.
    pub open spec fn takes(self, byte: u8) -> bool {
        match self.action(byte) {
            Action::EndOfFile => true,
            Action::Erase => true,
            Action::Report(_) => true,
            _ => false,
        }
    }

    /// The byte that joins the line for `byte`, where one does.
    pub open spec fn keeps(self, byte: u8) -> Option<u8> {
        match self.action(byte) {
            Action::Terminate(b) => Some(b),
            Action::Append(b) => Some(b),
            _ => None,
        }
    }

    /// How many of `bytes` are dropped.
    pub open spec fn dropped(self, bytes: Seq<u8>) -> nat
        decreases bytes.len(),
    {
        if bytes.len() == 0 {
            0
        } else {
            self.dropped(bytes.drop_last()) + if self.drops(bytes.last()) {
                1nat
            } else {
                0nat
            }
        }
    }

    /// How many of `bytes` are taken by a control stage.
    pub open spec fn taken(self, bytes: Seq<u8>) -> nat
        decreases bytes.len(),
    {
        if bytes.len() == 0 {
            0
        } else {
            self.taken(bytes.drop_last()) + if self.takes(bytes.last()) {
                1nat
            } else {
                0nat
            }
        }
    }

    /// The bytes that join the line for `bytes`, in order.
    pub open spec fn kept(self, bytes: Seq<u8>) -> Seq<u8>
        decreases bytes.len(),
    {
        if bytes.len() == 0 {
            Seq::empty()
        } else {
            match self.keeps(bytes.last()) {
                Some(b) => self.kept(bytes.drop_last()).push(b),
                None => self.kept(bytes.drop_last()),
            }
        }
    }

    /// The line after `bytes`, before the release.
    pub open spec fn fed(self, line: Line, bytes: Seq<u8>) -> Line {
        self.feed(Outcome { line: line, events: Seq::empty() }, bytes).line
    }

    /// How many bytes the erasures among `bytes` remove from the line. An
    /// erasure that finds the line empty removes nothing.
    pub open spec fn erased(self, line: Line, bytes: Seq<u8>) -> nat
        decreases bytes.len(),
    {
        if bytes.len() == 0 {
            0
        } else {
            self.erased(line, bytes.drop_last()) + if self.action(bytes.last()) == Action::Erase
                && self.fed(line, bytes.drop_last()).cooked.len() > 0 {
                1nat
            } else {
                0nat
            }
        }
    }
}

/// Queueing an entry puts its bytes at the end of the queue's bytes.
pub proof fn joined_push(queue: Seq<Seq<u8>>, entry: Seq<u8>)
    ensures
        joined(queue.push(entry)) == joined(queue) + entry,
{
    assert(queue.push(entry).drop_last() =~= queue);
}

/// What one action does to the bytes that a session holds: a kept byte
/// joins them at the end, an erasure on a line that is not empty removes the
/// last of them, and nothing else changes them.
pub proof fn stream_after_action(line: Line, action: Action)
    ensures
        line.apply(action).stream() == match action {
            Action::Terminate(b) => line.stream().push(b),
            Action::Append(b) => line.stream().push(b),
            Action::Erase => if line.cooked.len() > 0 {
                line.stream().drop_last()
            } else {
                line.stream()
            },
            _ => line.stream(),
        },
{
    match action {
        Action::Terminate(b) => {
            joined_push(line.outbound, line.cooked.push(b));
            assert(line.apply(action).stream() =~= line.stream().push(b));
        },
        Action::Append(b) => {
            assert(line.apply(action).stream() =~= line.stream().push(b));
        },
        Action::EndOfFile => {
            joined_push(line.outbound, line.cooked);
            assert(line.apply(action).stream() =~= line.stream());
        },
        Action::Erase => {
            if line.cooked.len() > 0 {
                assert(line.apply(action).stream() =~= line.stream().drop_last());
            }
        },
        _ => {},
    }
}

/// The release at the end of an input moves bytes from the line to the
/// queue and changes none.
pub proof fn stream_after_release(modes: Modes, line: Line)
    ensures
        modes.release(line).stream() == line.stream(),
{
    if !modes.icanon && line.cooked.len() >= modes.vmin {
        joined_push(line.outbound, line.cooked);
        assert(modes.release(line).stream() =~= line.stream());
    }
}

/// Every input byte meets exactly one fate: it is dropped, taken by a
/// control stage, or kept.
pub proof fn every_byte_has_one_fate(modes: Modes, bytes: Seq<u8>)
    ensures
        modes.dropped(bytes) + modes.taken(bytes) + modes.kept(bytes).len() == bytes.len(),
    decreases bytes.len(),
{
    if bytes.len() > 0 {
        every_byte_has_one_fate(modes, bytes.drop_last());
    }
}

/// Conservation of bytes: after an input, the session holds what it held
/// before and the kept bytes, less the bytes that erasures removed.
pub proof fn bytes_are_conserved(modes: Modes, line: Line, bytes: Seq<u8>)
    ensures
        modes.consume(line, bytes).line.stream().len() + modes.erased(line, bytes)
            == line.stream().len() + modes.kept(bytes).len(),
{
    fed_bytes_are_conserved(modes, line, bytes);
    stream_after_release(modes, modes.fed(line, bytes));
}

/// Conservation of bytes, before the release.
proof fn fed_bytes_are_conserved(modes: Modes, line: Line, bytes: Seq<u8>)
    ensures
        modes.fed(line, bytes).stream().len() + modes.erased(line, bytes) == line.stream().len()
            + modes.kept(bytes).len(),
    decreases bytes.len(),
{
    if bytes.len() > 0 {
        fed_bytes_are_conserved(modes, line, bytes.drop_last());
        stream_after_action(modes.fed(line, bytes.drop_last()), modes.action(bytes.last()));
    }
}

/// Every input byte is accounted for: the bytes that the session holds
/// after an input, the dropped bytes, the taken bytes and the erased bytes
/// add up to the bytes that it held before and the bytes of the input.
pub proof fn every_byte_is_accounted_for(modes: Modes, line: Line, bytes: Seq<u8>)
    ensures
        modes.consume(line, bytes).line.stream().len() + modes.dropped(bytes) + modes.taken(bytes)
            + modes.erased(line, bytes) == line.stream().len() + bytes.len(),
{
    every_byte_has_one_fate(modes, bytes);
    bytes_are_conserved(modes, line, bytes);
}

/// Without an erasure that removes a byte, nothing is lost, doubled or
/// reordered: the session holds after an input what it held before, then the
/// kept bytes in the order of the input.
pub proof fn kept_bytes_stay_in_order(modes: Modes, line: Line, bytes: Seq<u8>)
    requires
        modes.erased(line, bytes) == 0,
    ensures
        modes.consume(line, bytes).line.stream() == line.stream() + modes.kept(bytes),
{
    fed_bytes_stay_in_order(modes, line, bytes);
    stream_after_release(modes, modes.fed(line, bytes));
}

/// Order of the kept bytes, before the release.
proof fn fed_bytes_stay_in_order(modes: Modes, line: Line, bytes: Seq<u8>)
    requires
        modes.erased(line, bytes) == 0,
    ensures
        modes.fed(line, bytes).stream() == line.stream() + modes.kept(bytes),
    decreases bytes.len(),
{
    if bytes.len() == 0 {
        assert(modes.fed(line, bytes).stream() =~= line.stream() + modes.kept(bytes));
    } else {
        fed_bytes_stay_in_order(modes, line, bytes.drop_last());
        let before = modes.fed(line, bytes.drop_last());
        stream_after_action(before, modes.action(bytes.last()));
        assert(modes.fed(line, bytes).stream() =~= line.stream() + modes.kept(bytes));
    }
}

} // verus!
