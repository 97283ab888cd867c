//! One logical terminal: its attributes, its window size, the line under
//! construction and the queue of finished lines.

use std::collections::VecDeque;
use vstd::prelude::*;
use crate::attributes::{Attributes, Modes, WindowSize};
use crate::discipline::{Line, Outcome};
use crate::event::{Action, ControlEvent};
use crate::framing::queue_only_grows;

verus! {

/// A session, as contracts see it.
pub struct PtyView {
    /// The handle that the session was created with.
    pub id: usize,
    /// The mode configuration.
    pub attr: Attributes,
    /// The geometry.
    pub winsize: WindowSize,
    /// The line under construction and the queue of finished lines.
    pub line: Line,
    /// The bytes that wait for delivery to the far side.
    pub inbound: Seq<u8>,
}

/// One logical terminal.
///
/// Attributes and window size change only through their setters. The line
/// and the queue change only through [`Pty::consume`] and [`Pty::drain`].
#[derive(Debug)]
pub struct Pty {
    id: usize,
    attr: Attributes,
    winsize: WindowSize,
    cooked: Vec<u8>,
    mosi: VecDeque<Vec<u8>>,
    miso: VecDeque<u8>,
}

/// The byte sequences that a queue holds, oldest first.
pub open spec fn entries(queue: Seq<Vec<u8>>) -> Seq<Seq<u8>> {
    queue.map_values(|entry: Vec<u8>| entry@)
}

impl View for Pty {
    type V = PtyView;

    closed spec fn view(&self) -> PtyView {
        PtyView {
            id: self.id,
            attr: self.attr,
            winsize: self.winsize,
            line: Line { cooked: self.cooked@, outbound: entries(self.mosi@) },
            inbound: self.miso@,
        }
    }
}

impl PtyView {
    /// A fresh session: nothing buffered, nothing queued.
    pub open spec fn is_fresh(self, id: usize) -> bool {
        &&& self.id == id
        &&& self.attr.is_default()
        &&& self.winsize.is_default()
        &&& self.line.cooked =~= Seq::empty()
        &&& self.line.outbound =~= Seq::empty()
        &&& self.inbound =~= Seq::empty()
    }

    /// This session with other attributes.
    pub open spec fn with_attr(self, attr: Attributes) -> PtyView {
        PtyView { attr: attr, ..self }
    }

    /// This session with another window size.
    pub open spec fn with_winsize(self, winsize: WindowSize) -> PtyView {
        PtyView { winsize: winsize, ..self }
    }

    /// This session with another line and queue.
    pub open spec fn with_line(self, line: Line) -> PtyView {
        PtyView { line: line, ..self }
    }

    /// The session after it has consumed `bytes`, and the events emitted.
    pub open spec fn consume(self, bytes: Seq<u8>) -> (PtyView, Seq<ControlEvent>) {
        let out = self.attr.modes().consume(self.line, bytes);
        (self.with_line(out.line), out.events)
    }

    /// The session after its oldest entry has left the queue. Without an
    /// entry the session stays as it is.
    pub open spec fn drained(self) -> PtyView {
        if self.line.outbound.len() > 0 {
            self.with_line(
                Line { cooked: self.line.cooked, outbound: self.line.outbound.drop_first() },
            )
        } else {
            self
        }
    }
}

/// Attributes that were set are the attributes in force: setting changes
/// them to exactly what was given and leaves the rest of the session alone,
/// and no input changes them.
pub proof fn attributes_stay_as_set(session: PtyView, attr: Attributes, bytes: Seq<u8>)
    ensures
        session.with_attr(attr).attr == attr,
        session.with_attr(attr).with_attr(session.attr) == session,
        session.with_attr(attr).consume(bytes).0.attr == attr,
        session.with_attr(attr).drained().attr == attr,
{
}

/// The window size that was set is the window size in force: setting
/// changes it to exactly what was given and leaves the rest of the session
/// alone, and no input changes it.
pub proof fn window_size_stays_as_set(session: PtyView, winsize: WindowSize, bytes: Seq<u8>)
    ensures
        session.with_winsize(winsize).winsize == winsize,
        session.with_winsize(winsize).with_winsize(session.winsize) == session,
        session.with_winsize(winsize).consume(bytes).0.winsize == winsize,
        session.with_winsize(winsize).drained().winsize == winsize,
{
}

/// A reader gets the entries in the order in which they were finished: an
/// input never changes which entry is the oldest of a queue that holds one,
/// and what follows the oldest entry follows it after the input too.
pub proof fn oldest_entry_stays_first(session: PtyView, bytes: Seq<u8>)
    requires
        session.line.outbound.len() > 0,
    ensures
        session.consume(bytes).0.line.outbound.len() > 0,
        session.consume(bytes).0.line.outbound[0] == session.line.outbound[0],
        session.consume(bytes).0.drained() == session.drained().consume(bytes).0,
{
    let modes = session.attr.modes();
    queue_only_grows(modes, session.line, bytes);
    let after = modes.consume(session.line, bytes).line;
    let n = session.line.outbound.len() as int;
    assert(after.outbound.take(n)[0] == after.outbound[0]);
    queue_shifts(modes, session.line, bytes);
}

/// The discipline does not look at the entries that are queued: without the
/// oldest entry before an input, the outcome is the same without it.
proof fn queue_shifts(modes: Modes, line: Line, bytes: Seq<u8>)
    requires
        line.outbound.len() > 0,
    ensures
        ({
            let rest = Line { cooked: line.cooked, outbound: line.outbound.drop_first() };
            let fed = modes.fed(line, bytes);
            let out = modes.consume(line, bytes).line;
            &&& fed.outbound.len() > 0
            &&& modes.fed(rest, bytes) == (Line {
                cooked: fed.cooked,
                outbound: fed.outbound.drop_first(),
            })
            &&& out.outbound.len() > 0
            &&& modes.consume(rest, bytes).line == (Line {
                cooked: out.cooked,
                outbound: out.outbound.drop_first(),
            })
        }),
    decreases bytes.len(),
{
    let rest = Line { cooked: line.cooked, outbound: line.outbound.drop_first() };
    if bytes.len() > 0 {
        queue_shifts(modes, line, bytes.drop_last());
        let before = modes.fed(line, bytes.drop_last());
        let action = modes.action(bytes.last());
        let shifted = Line { cooked: before.cooked, outbound: before.outbound.drop_first() };
        assert(shifted.apply(action).outbound =~= before.apply(action).outbound.drop_first());
    }
    let fed = modes.fed(line, bytes);
    let shifted = Line { cooked: fed.cooked, outbound: fed.outbound.drop_first() };
    assert(modes.release(shifted).outbound =~= modes.release(fed).outbound.drop_first());
}

impl Pty {
    /// A fresh session under the handle `id`, with the attributes and the
    /// window size of a fresh terminal.
    pub fn new(id: usize) -> (pty: Pty)
        ensures
            pty@.is_fresh(id),
    {
        Pty {
            id: id,
            attr: Attributes::default(),
            winsize: WindowSize::default(),
            cooked: Vec::new(),
            mosi: VecDeque::new(),
            miso: VecDeque::new(),
        }
    }

    /// The handle of this session.
    pub fn id(&self) -> (id: usize)
        ensures
            id == self@.id,
    {
        self.id
    }

    /// The attributes in force.
    pub fn attr(&self) -> (attr: Attributes)
        ensures
            attr == self@.attr,
    {
        self.attr
    }

    /// Replaces the attributes. Nothing is validated, and neither the line
    /// nor the queue is touched.
    pub fn set_attr(&mut self, attr: Attributes)
        ensures
            final(self)@ == old(self)@.with_attr(attr),
    {
        self.attr = attr;
    }

    /// The window size in force.
    pub fn winsize(&self) -> (winsize: WindowSize)
        ensures
            winsize == self@.winsize,
    {
        self.winsize
    }

    /// Replaces the window size.
    pub fn set_winsize(&mut self, winsize: WindowSize)
        ensures
            final(self)@ == old(self)@.with_winsize(winsize),
    {
        self.winsize = winsize;
    }

    /// Carries out `action` on the line and the queue.
    fn apply(&mut self, action: Action)
        ensures
            final(self)@ == old(self)@.with_line(old(self)@.line.apply(action)),
    {
        match action {
            Action::Ignore => {},
            Action::Report(_) => {},
            Action::Terminate(b) => {
                self.cooked.push(b);
                self.flush();
            },
            Action::EndOfFile => {
                self.flush();
            },
            Action::Erase => {
                let _ = self.cooked.pop();
            },
            Action::Append(b) => {
                self.cooked.push(b);
            },
        }
    }

    /// Queues a copy of the line under construction and empties the line.
    fn flush(&mut self)
        ensures
            final(self)@ == old(self)@.with_line(
                Line {
                    cooked: Seq::empty(),
                    outbound: old(self)@.line.outbound.push(old(self)@.line.cooked),
                },
            ),
    {
        let entry = self.cooked.clone();
        assert(entry@ =~= self.cooked@);
        self.mosi.push_back(entry);
        self.cooked.clear();
        assert(entries(self.mosi@) =~= entries(old(self).mosi@).push(old(self).cooked@));
    }

    /// Feeds `bytes` to the line discipline under the attributes in force.
    ///
    /// Every byte runs through the stages of the discipline in turn; then,
    /// outside canonical mode, a line that has reached the threshold is
    /// queued as one chunk. The requests to collaborators come back in the
    /// order of the bytes that caused them.
    pub fn consume(&mut self, bytes: &[u8]) -> (events: Vec<ControlEvent>)
        ensures
            final(self)@ == old(self)@.consume(bytes@).0,
            events@ == old(self)@.consume(bytes@).1,
    {
        let modes = self.attr.decode();
        let mut events: Vec<ControlEvent> = Vec::new();
        let ghost start = Outcome { line: self@.line, events: Seq::empty() };
        let mut i: usize = 0;
        while i < bytes.len()
            invariant
                0 <= i <= bytes.len(),
                modes == old(self)@.attr.modes(),
                self@ == old(self)@.with_line(self@.line),
                start == (Outcome { line: old(self)@.line, events: Seq::empty() }),
                (Outcome { line: self@.line, events: events@ }) == modes.feed(
                    start,
                    bytes@.take(i as int),
                ),
            decreases bytes.len() - i,
        {
            let action = modes.classify(bytes[i]);
            match modes.emitted(action, self.cooked.len()) {
                Some(e) => {
                    events.push(e);
                },
                None => {},
            }
            self.apply(action);
            proof {
                assert(bytes@.take(i + 1).drop_last() =~= bytes@.take(i as int));
                assert(bytes@.take(i + 1).last() == bytes@[i as int]);
            }
            i += 1;
        }
        assert(bytes@.take(i as int) =~= bytes@);
        if !modes.icanon && self.cooked.len() >= modes.vmin as usize {
            self.flush();
        }
        events
    }

    /// Takes the oldest entry out of the queue. `None` says that the queue
    /// is empty: the reader has to wait for the next entry.
    pub fn drain(&mut self) -> (entry: Option<Vec<u8>>)
        ensures
            final(self)@ == old(self)@.drained(),
            match entry {
                Some(bytes) => old(self)@.line.outbound.len() > 0 && bytes@
                    == old(self)@.line.outbound[0],
                None => old(self)@.line.outbound.len() == 0,
            },
    {
        let entry = self.mosi.pop_front();
        proof {
            if entry.is_some() {
                assert(entries(self.mosi@) =~= entries(old(self).mosi@).drop_first());
            }
        }
        entry
    }

    /// The line under construction.
    pub fn cooked(&self) -> (bytes: &[u8])
        ensures
            bytes@ == self@.line.cooked,
    {
        self.cooked.as_slice()
    }

    /// How many entries wait in the queue.
    pub fn pending(&self) -> (count: usize)
        ensures
            count == self@.line.outbound.len(),
    {
        self.mosi.len()
    }
}

} // verus!
