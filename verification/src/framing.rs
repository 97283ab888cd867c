//! What the queue holds: whole lines in canonical mode, chunks that have
//! reached the threshold outside it, and always in the order in which they
//! were finished.

use vstd::prelude::*;
use crate::attributes::Modes;
use crate::discipline::{is_char, Line, LF};
use crate::event::Action;

verus! {

impl Modes {
    /// Whether `byte` ends a line in canonical mode: a line feed, or one of
    /// the two extra end-of-line characters.
    pub open spec fn ends_line(self, byte: u8) -> bool {
        byte == LF || is_char(self.eol, byte) || is_char(self.eol2, byte)
    }

    /// Whether `bytes` hold no byte that ends a line.
    pub open spec fn is_open(self, bytes: Seq<u8>) -> bool {
        forall|i: int| 0 <= i < bytes.len() ==> !self.ends_line(#[trigger] bytes[i])
    }

    /// Whether `entry` is one whole line: it ends with a byte that ends a
    /// line, and holds no other such byte.
    pub open spec fn is_line(self, entry: Seq<u8>) -> bool {
        &&& entry.len() > 0
        &&& self.ends_line(entry.last())
        &&& self.is_open(entry.drop_last())
    }

    /// Whether `entry` is what canonical mode queues: a whole line, or, where
    /// an end-of-file character is assigned, a line cut short by end of file.
    pub open spec fn is_canonical_entry(self, entry: Seq<u8>) -> bool {
        self.is_line(entry) || (self.eof != 0 && self.is_open(entry))
    }
}

/// Whether `after` is `before` with entries added at the end.
pub open spec fn extends(after: Seq<Seq<u8>>, before: Seq<Seq<u8>>) -> bool {
    before.len() <= after.len() && after.take(before.len() as int) == before
}

/// The queue is first in, first out on the writing side: an input adds
/// entries at the end of the queue and changes none that is there.
pub proof fn queue_only_grows(modes: Modes, line: Line, bytes: Seq<u8>)
    ensures
        extends(modes.consume(line, bytes).line.outbound, line.outbound),
{
    fed_queue_only_grows(modes, line, bytes);
    let fed = modes.fed(line, bytes);
    assert(modes.release(fed).outbound.take(line.outbound.len() as int) =~= fed.outbound.take(
        line.outbound.len() as int,
    ));
}

proof fn fed_queue_only_grows(modes: Modes, line: Line, bytes: Seq<u8>)
    ensures
        extends(modes.fed(line, bytes).outbound, line.outbound),
    decreases bytes.len(),
{
    if bytes.len() == 0 {
        assert(line.outbound.take(line.outbound.len() as int) =~= line.outbound);
    } else {
        fed_queue_only_grows(modes, line, bytes.drop_last());
        let before = modes.fed(line, bytes.drop_last());
        let after = modes.fed(line, bytes);
        assert(after.outbound.take(line.outbound.len() as int) =~= before.outbound.take(
            line.outbound.len() as int,
        ));
    }
}

/// In canonical mode the line under construction never holds a byte that
/// ends a line, and every entry that an input queues is a whole line or a
/// line cut short by end of file.
pub proof fn canonical_entries_are_lines(modes: Modes, line: Line, bytes: Seq<u8>)
    requires
        modes.icanon,
        modes.is_open(line.cooked),
    ensures
        modes.is_open(modes.consume(line, bytes).line.cooked),
        forall|k: int|
            line.outbound.len() <= k < modes.consume(line, bytes).line.outbound.len()
                ==> modes.is_canonical_entry(#[trigger] modes.consume(line, bytes).line.outbound[k]),
{
    fed_entries_are_lines(modes, line, bytes);
}

proof fn fed_entries_are_lines(modes: Modes, line: Line, bytes: Seq<u8>)
    requires
        modes.icanon,
        modes.is_open(line.cooked),
    ensures
        modes.is_open(modes.fed(line, bytes).cooked),
        forall|k: int|
            line.outbound.len() <= k < modes.fed(line, bytes).outbound.len()
                ==> modes.is_canonical_entry(#[trigger] modes.fed(line, bytes).outbound[k]),
    decreases bytes.len(),
{
    if bytes.len() > 0 {
        fed_entries_are_lines(modes, line, bytes.drop_last());
        fed_queue_only_grows(modes, line, bytes.drop_last());
        let before = modes.fed(line, bytes.drop_last());
        let after = modes.fed(line, bytes);
        match modes.action(bytes.last()) {
            Action::Terminate(b) => {
                let entry = before.cooked.push(b);
                assert(entry.drop_last() =~= before.cooked);
                assert(modes.is_line(entry));
            },
            Action::EndOfFile => {},
            Action::Erase => {},
            Action::Append(b) => {},
            _ => {},
        }
        assert forall|k: int| line.outbound.len() <= k < after.outbound.len() implies modes.is_canonical_entry(
        #[trigger] after.outbound[k]) by {
            if k < before.outbound.len() {
                assert(after.outbound[k] == before.outbound[k]);
            }
        }
    }
}

/// Outside canonical mode an input queues at most one entry, at its end:
/// the whole line under construction, and only where that has reached the
/// threshold. A line that stays behind is shorter than the threshold.
pub proof fn raw_input_queues_one_chunk(modes: Modes, line: Line, bytes: Seq<u8>)
    requires
        !modes.icanon,
    ensures
        ({
            let fed = modes.fed(line, bytes);
            let after = modes.consume(line, bytes).line;
            &&& fed.outbound == line.outbound
            &&& fed.cooked.len() >= modes.vmin ==> after.cooked.len() == 0 && after.outbound
                == line.outbound.push(fed.cooked)
            &&& fed.cooked.len() < modes.vmin ==> after == fed
        }),
    decreases bytes.len(),
{
    if bytes.len() > 0 {
        raw_input_queues_one_chunk(modes, line, bytes.drop_last());
    }
}

} // verus!
