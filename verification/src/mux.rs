//! The decisions of the event loop.
//!
//! The loop blocks on two descriptors, reads, writes and draws; none of that
//! happens here. This module holds the rules: which sources a wake-up
//! services, how a byte from the shell changes the grid, what a display
//! event asks for, and, in [`Mux`], the order in which all of it is done.
//! The caller performs each [`Action`] and hands back the [`Event`] that
//! answers it.

use vstd::prelude::*;
use crate::error::Error;
use crate::grid::{Grid, Op};
use crate::term::Term;

verus! {

/// The byte that returns the cursor to column 0.
pub const CARRIAGE_RETURN: u8 = 13;

/// The byte that feeds a line.
pub const LINE_FEED: u8 = 10;

/// One piece of outside work that the loop is asked to do.
#[derive(Debug, Clone, Copy, PartialEq, Eq, Structural)]
pub enum Action {
    /// Block, with no timeout, until the pseudoterminal or the display is
    /// readable. Answered by [`Event::Ready`].
    Wait,
    /// Read one byte from the pseudoterminal. Answered by [`Event::Read`]
    /// where the read succeeds; a read that fails ends the session with its
    /// error and is never handed back.
    ReadPty,
    /// Take the next event from the display's queue, if there is one.
    /// Answered by [`Event::Display`].
    NextEvent,
    /// Draw the grid. Answered by [`Event::Done`].
    Redraw,
    /// Write this one byte to the pseudoterminal. Answered by
    /// [`Event::Done`].
    Write(u8),
    /// Leave the loop. The session has ended, and that is no error.
    Exit,
}

/// What a read of one byte from the pseudoterminal gave.
#[derive(Debug, Clone, Copy, PartialEq, Eq, Structural)]
pub enum PtyRead {
    /// The shell wrote this byte.
    Byte(u8),
    /// The shell is gone and the stream has ended.
    EndOfStream,
}

/// One event taken from the display's queue.
#[derive(Debug, PartialEq, Eq)]
pub enum DisplayEvent {
    /// A part of the window has to be drawn again.
    Exposure,
    /// A key was pressed; the bytes are what it stands for, in order.
    KeyPress(Vec<u8>),
    /// Anything else.
    Other,
}

/// The outcome of an [`Action`].
#[derive(Debug, PartialEq, Eq)]
pub enum Event {
    /// The wait is over; the flags say which sources are readable.
    Ready { pty: bool, display: bool },
    /// The read from the pseudoterminal returned.
    Read(PtyRead),
    /// The display's queue gave this event, or it was empty.
    Display(Option<DisplayEvent>),
    /// The redraw or the write has been done.
    Done,
}

impl PtyRead {
    /// What a read into a buffer of one byte gave, where the read succeeded.
    /// `count` is the number of bytes that the read reported and `byte` is
    /// the buffer after the read. A read of no byte is the end of the
    /// stream. A read that failed is no read at all: its failure is the
    /// caller's to report.
    pub open spec fn spec_of_read(count: usize, byte: u8) -> PtyRead {
        if count > 0 {
            PtyRead::Byte(byte)
        } else {
            PtyRead::EndOfStream
        }
    }

    /// What a read into a buffer of one byte gave, where the read succeeded.
    pub fn of_read(count: usize, byte: u8) -> (read: PtyRead)
        ensures
            read == PtyRead::spec_of_read(count, byte),
    {
        if count > 0 {
            PtyRead::Byte(byte)
        } else {
            PtyRead::EndOfStream
        }
    }
}

/// What a wake-up asks for, in order: a read from the pseudoterminal if it
/// is ready, then the display's queue if the display is ready. A source that
/// is not ready is not serviced.
pub open spec fn spec_service_plan(pty_ready: bool, display_ready: bool) -> Seq<Action> {
    (if pty_ready {
        seq![Action::ReadPty]
    } else {
        seq![]
    }) + (if display_ready {
        seq![Action::NextEvent]
    } else {
        seq![]
    })
}

/// What a wake-up asks for, in order.
pub fn service_plan(pty_ready: bool, display_ready: bool) -> (plan: Vec<Action>)
    ensures
        plan@ == spec_service_plan(pty_ready, display_ready),
{
    let mut plan: Vec<Action> = Vec::new();
    if pty_ready {
        plan.push(Action::ReadPty);
    }
    if display_ready {
        plan.push(Action::NextEvent);
    }
    plan
}

/// The grid operation that a byte from the shell stands for: a carriage
/// return, a line feed, or the byte itself as the next cell.
pub open spec fn op_of_byte(byte: u8) -> Op<char> {
    if byte == CARRIAGE_RETURN {
        Op::CarriageReturn
    } else if byte == LINE_FEED {
        Op::LineFeed
    } else {
        Op::Push(Some(byte as char))
    }
}

/// Applies one byte from the shell to the grid.
pub fn apply_byte(term: &mut Term<char>, byte: u8) -> (done: Result<(), Error>)
    requires
        old(term).wf(),
    ensures
        done is Ok,
        final(term).wf(),
        final(term)@ == old(term)@.apply(op_of_byte(byte)),
{
    if byte == CARRIAGE_RETURN {
        term.carriage_return();
        Ok(())
    } else if byte == LINE_FEED {
        term.line_feed();
        Ok(())
    } else {
        term.push_element(Some(byte as char))
    }
}

/// What follows a read from the pseudoterminal: a redraw after a byte, the
/// exit at the end of the stream.
pub open spec fn spec_after_read(read: PtyRead) -> Action {
    match read {
        PtyRead::Byte(_) => Action::Redraw,
        PtyRead::EndOfStream => Action::Exit,
    }
}

/// The grid after a read from the pseudoterminal: a byte is applied to it,
/// the end of the stream leaves it as it is.
pub open spec fn spec_grid_after_read(grid: Grid<char>, read: PtyRead) -> Grid<char> {
    match read {
        PtyRead::Byte(byte) => grid.apply(op_of_byte(byte)),
        PtyRead::EndOfStream => grid,
    }
}

/// Takes the result of a read from the pseudoterminal. A byte changes the
/// grid and asks for a redraw. The end of the stream leaves the grid as it
/// is and asks for the exit, and it is no error.
pub fn on_pty_read(term: &mut Term<char>, read: PtyRead) -> (next: Result<Action, Error>)
    requires
        old(term).wf(),
    ensures
        final(term).wf(),
        next == Ok::<Action, Error>(spec_after_read(read)),
        final(term)@ == spec_grid_after_read(old(term)@, read),
{
    match read {
        PtyRead::Byte(byte) => {
            match apply_byte(term, byte) {
                Ok(()) => Ok(Action::Redraw),
                Err(e) => Err(e),
            }
        },
        PtyRead::EndOfStream => Ok(Action::Exit),
    }
}

/// The first `count` bytes of `buf`, or all of it where it is shorter.
pub open spec fn spec_decoded(buf: Seq<u8>, count: nat) -> Seq<u8> {
    if count <= buf.len() {
        buf.take(count as int)
    } else {
        buf
    }
}

impl DisplayEvent {
    /// The bytes of a key press, or nothing for any other event.
    pub open spec fn bytes(self) -> Seq<u8> {
        match self {
            DisplayEvent::KeyPress(bytes) => bytes@,
            _ => Seq::empty(),
        }
    }

    /// The key press whose decoding filled the first `count` bytes of `buf`.
    pub fn key_press(buf: &[u8], count: usize) -> (event: DisplayEvent)
        ensures
            event is KeyPress,
            event.bytes() == spec_decoded(buf@, count as nat),
    {
        let mut bytes: Vec<u8> = Vec::new();
        let mut i: usize = 0;
        while i < count && i < buf.len()
            invariant
                i <= count,
                i <= buf@.len(),
                bytes@ == buf@.take(i as int),
            decreases buf@.len() - i,
        {
            bytes.push(buf[i]);
            i += 1;
        }
        DisplayEvent::KeyPress(bytes)
    }
}

/// What a display event asks for, in order: an exposure one redraw, a key
/// press one single-byte write for each of its bytes, first byte first, and
/// any other event nothing.
pub open spec fn spec_actions(event: DisplayEvent) -> Seq<Action> {
    match event {
        DisplayEvent::Exposure => seq![Action::Redraw],
        DisplayEvent::KeyPress(bytes) => Seq::new(bytes@.len(), |i: int| Action::Write(bytes@[i])),
        DisplayEvent::Other => seq![],
    }
}

/// What a display event asks the loop to do, in order.
pub fn on_display_event(event: &DisplayEvent) -> (actions: Vec<Action>)
    ensures
        actions@ == spec_actions(*event),
{
    let mut actions: Vec<Action> = Vec::new();
    match event {
        DisplayEvent::Exposure => {
            actions.push(Action::Redraw);
        },
        DisplayEvent::KeyPress(bytes) => {
            let mut i: usize = 0;
            while i < bytes.len()
                invariant
                    i <= bytes@.len(),
                    actions@ == Seq::new(i as nat, |k: int| Action::Write(bytes@[k])),
                decreases bytes@.len() - i,
            {
                actions.push(Action::Write(bytes[i]));
                i += 1;
            }
        },
        DisplayEvent::Other => {},
    }
    actions
}

/// One step of the loop on its abstract state: the agenda, whose first
/// action is the one being performed, and the grid.
///
/// The event answers the first action, which leaves the agenda, and what the
/// event asks for is done before the rest:
/// - after a wait, the ready sources are serviced;
/// - after a read, a byte is applied to the grid and the grid is drawn, and
///   the end of the stream replaces the whole agenda by the exit;
/// - after an event from the display, its redraw or its writes are done and
///   then the queue is asked again, so that the queue is drained before the
///   next wait; an empty queue asks for nothing;
/// - a finished redraw or write asks for nothing.
///
/// An event that does not answer the first action changes nothing, and
/// nothing answers the exit. When nothing is left to do, the loop waits.
pub open spec fn spec_step(agenda: Seq<Action>, grid: Grid<char>, event: Event) -> (
    Seq<Action>,
    Grid<char>,
) {
    let rest = agenda.skip(1);
    let (next, after) = match (agenda[0], event) {
        (Action::Wait, Event::Ready { pty, display }) => (
            spec_service_plan(pty, display) + rest,
            grid,
        ),
        (Action::ReadPty, Event::Read(PtyRead::Byte(byte))) => (
            seq![Action::Redraw] + rest,
            grid.apply(op_of_byte(byte)),
        ),
        (Action::ReadPty, Event::Read(PtyRead::EndOfStream)) => (seq![Action::Exit], grid),
        (Action::NextEvent, Event::Display(Some(queued))) => (
            spec_actions(queued) + seq![Action::NextEvent] + rest,
            grid,
        ),
        (Action::NextEvent, Event::Display(None)) => (rest, grid),
        (Action::Redraw, Event::Done) => (rest, grid),
        (Action::Write(_), Event::Done) => (rest, grid),
        _ => (agenda, grid),
    };
    (
        if next.len() == 0 {
            seq![Action::Wait]
        } else {
            next
        },
        after,
    )
}

/// The state of the loop after the events of `events`, first event first.
pub open spec fn spec_run(agenda: Seq<Action>, grid: Grid<char>, events: Seq<Event>) -> (
    Seq<Action>,
    Grid<char>,
)
    decreases events.len(),
{
    if events.len() == 0 {
        (agenda, grid)
    } else {
        let (before, shown) = spec_run(agenda, grid, events.drop_last());
        spec_step(before, shown, events.last())
    }
}

/// The control state of the event loop: what is left to do before the next
/// wait. Its view is the agenda; the first action of the agenda is the one
/// that the caller is performing.
#[derive(Debug)]
pub struct Mux {
    agenda: Vec<Action>,
}

impl View for Mux {
    type V = Seq<Action>;

    closed spec fn view(&self) -> Seq<Action> {
        self.agenda@
    }
}

impl Mux {
    /// There is always an action to perform.
    pub open spec fn wf(&self) -> bool {
        self@.len() > 0
    }

    /// A loop that is about to wait.
    pub fn new() -> (mux: Mux)
        ensures
            mux.wf(),
            mux@ == seq![Action::Wait],
    {
        let mut agenda: Vec<Action> = Vec::new();
        agenda.push(Action::Wait);
        Mux { agenda }
    }

    /// The action to perform now.
    pub fn action(&self) -> (action: Action)
        requires
            self.wf(),
        ensures
            action == self@[0],
    {
        self.agenda[0]
    }

    /// Takes the outcome of the action that was performed, changes the grid
    /// where the outcome is a byte from the shell, and returns the action to
    /// perform next.
    pub fn step(&mut self, term: &mut Term<char>, event: Event) -> (next: Result<Action, Error>)
        requires
            old(self).wf(),
            old(term).wf(),
        ensures
            final(self).wf(),
            final(term).wf(),
            (final(self)@, final(term)@) == spec_step(old(self)@, old(term)@, event),
            next == Ok::<Action, Error>(final(self)@[0]),
    {
        let current: Action = self.agenda[0];
        match current {
            Action::Wait => {
                if let Event::Ready { pty, display } = event {
                    self.agenda.remove(0);
                    let mut agenda = service_plan(pty, display);
                    agenda.append(&mut self.agenda);
                    self.agenda = agenda;
                }
            },
            Action::ReadPty => {
                if let Event::Read(read) = event {
                    match on_pty_read(term, read) {
                        Ok(Action::Exit) => {
                            let mut agenda: Vec<Action> = Vec::new();
                            agenda.push(Action::Exit);
                            self.agenda = agenda;
                        },
                        Ok(follow) => {
                            self.agenda.set(0, follow);
                        },
                        Err(e) => {
                            return Err(e);
                        },
                    }
                }
            },
            Action::NextEvent => {
                if let Event::Display(polled) = event {
                    match polled {
                        Some(queued) => {
                            let mut agenda = on_display_event(&queued);
                            agenda.append(&mut self.agenda);
                            self.agenda = agenda;
                        },
                        None => {
                            self.agenda.remove(0);
                        },
                    }
                }
            },
            Action::Redraw | Action::Write(_) => {
                if let Event::Done = event {
                    self.agenda.remove(0);
                }
            },
            Action::Exit => {},
        }
        if self.agenda.len() == 0 {
            self.agenda.push(Action::Wait);
        }
        Ok(self.agenda[0])
    }
}

/// `count` finished redraws or writes in a row.
pub open spec fn dones(count: nat) -> Seq<Event> {
    Seq::new(count, |i: int| Event::Done)
}

/// A step leaves an action to perform, and keeps the grid well formed and of
/// the same size.
pub proof fn lemma_step_keeps_shape(agenda: Seq<Action>, grid: Grid<char>, event: Event)
    requires
        agenda.len() > 0,
        grid.wf(),
    ensures
        spec_step(agenda, grid, event).0.len() > 0,
        spec_step(agenda, grid, event).1.wf(),
        spec_step(agenda, grid, event).1.width == grid.width,
        spec_step(agenda, grid, event).1.height == grid.height,
{
}

/// When the read from the pseudoterminal meets the end of the stream, the
/// loop asks for the exit and for nothing else, and the grid stays as it is.
pub proof fn lemma_end_of_stream_exits(agenda: Seq<Action>, grid: Grid<char>)
    requires
        agenda.len() > 0,
        agenda[0] == Action::ReadPty,
    ensures
        spec_step(agenda, grid, Event::Read(PtyRead::EndOfStream)) == (seq![Action::Exit], grid),
{
}

/// Once the loop asks for the exit it asks for nothing else, whatever events
/// it is given, and the grid no longer changes.
pub proof fn lemma_exit_is_final(grid: Grid<char>, events: Seq<Event>)
    ensures
        spec_run(seq![Action::Exit], grid, events) == (seq![Action::Exit], grid),
    decreases events.len(),
{
    if events.len() > 0 {
        lemma_exit_is_final(grid, events.drop_last());
    }
}

/// An event from the display's queue is served in full before the queue is
/// asked again: the loop asks for each action of the event in turn, as the
/// one before it is done, and then for the next event of the queue. For a
/// key press these actions are the writes of its bytes, one byte each, first
/// byte first. The grid does not change.
pub proof fn lemma_display_event_is_served(
    agenda: Seq<Action>,
    grid: Grid<char>,
    queued: DisplayEvent,
    done: nat,
)
    requires
        agenda.len() > 0,
        agenda[0] == Action::NextEvent,
        done <= spec_actions(queued).len(),
    ensures
        spec_step(agenda, grid, Event::Display(Some(queued))) == (
            spec_actions(queued) + agenda,
            grid,
        ),
        spec_run(spec_actions(queued) + agenda, grid, dones(done)) == (
            (spec_actions(queued) + agenda).skip(done as int),
            grid,
        ),
        done < spec_actions(queued).len() ==> (spec_actions(queued) + agenda).skip(done as int)[0]
            == spec_actions(queued)[done as int],
        (spec_actions(queued) + agenda).skip(spec_actions(queued).len() as int) == agenda,
        queued is KeyPress && done < queued.bytes().len() ==> spec_actions(queued)[done as int]
            == Action::Write(queued.bytes()[done as int]),
    decreases done,
{
    if done > 0 {
        let before = (done - 1) as nat;
        lemma_display_event_is_served(agenda, grid, queued, before);
        assert(dones(done).drop_last() == dones(before));
    }
}

/// When both sources are ready, both are serviced before the next wait: the
/// byte from the shell is read, applied and drawn, and then the display's
/// queue is asked.
pub proof fn lemma_both_sources_are_serviced(grid: Grid<char>, byte: u8)
    ensures
        spec_run(
            seq![Action::Wait],
            grid,
            seq![
                Event::Ready { pty: true, display: true },
                Event::Read(PtyRead::Byte(byte)),
                Event::Done,
            ],
        ) == (seq![Action::NextEvent], grid.apply(op_of_byte(byte))),
{
    let first = Event::Ready { pty: true, display: true };
    let second = Event::Read(PtyRead::Byte(byte));
    let events = seq![first, second, Event::Done];
    let start = seq![Action::Wait];
    assert(events.drop_last() == seq![first, second]);
    assert(seq![first, second].drop_last() == seq![first]);
    assert(seq![first].drop_last() == Seq::<Event>::empty());
    assert(spec_run(start, grid, Seq::<Event>::empty()) == (start, grid));
    let one = spec_step(start, grid, first);
    assert(spec_run(start, grid, seq![first]) == one);
    let two = spec_step(one.0, one.1, second);
    assert(spec_run(start, grid, seq![first, second]) == two);
}

} // verus!
