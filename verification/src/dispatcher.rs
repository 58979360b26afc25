//! The one ordered channel into which both sources of signals are routed.
//!
//! Console control events arrive on a thread that the system starts for each
//! of them, the request to close the hidden window arrives on the worker
//! thread. Both are turned into `Signal` values here, filtered by the set that
//! the session was asked to trap, and queued for the one consumer.

use crate::signal::{Signal, SignalSet};
use std::collections::VecDeque;
use vstd::prelude::*;

verus! {

/// What the consumer gets when it asks for the next signal.
#[derive(Clone, Copy, Debug, PartialEq, Eq, Structural)]
pub enum Delivery {
    /// The signal that has waited longest.
    Signal(Signal),
    /// None waits, and more may come: the consumer is to wait.
    Empty,
    /// None waits and none will come: the dispatcher is closed.
    Closed,
}

/// What happens to a dispatcher: the operations of its producers and of its
/// consumer.
pub enum Operation {
    /// The console control handler was called with this event.
    ConsoleEvent(u32),
    /// The window procedure was called with this message.
    WindowMessage(u32),
    /// The consumer asked for the next signal.
    Next,
    /// The session closed the dispatcher.
    Close,
}

/// The state of a dispatcher: the signals that it lets through, those that
/// wait for the consumer, oldest first, and whether it is closed.
pub struct Channel {
    pub requested: Set<Signal>,
    pub pending: Seq<Signal>,
    pub closed: bool,
}

impl Channel {
    /// An open channel for `requested` in which nothing waits.
    pub open spec fn new(requested: Set<Signal>) -> Channel {
        Channel { requested, pending: Seq::empty(), closed: false }
    }

    /// The channel after `signal` was pushed: it waits behind the others,
    /// unless the channel is closed, where the push changes nothing.
    pub open spec fn push(self, signal: Signal) -> Channel {
        if self.closed {
            self
        } else {
            Channel { pending: self.pending.push(signal), ..self }
        }
    }

    /// Whether the channel lets `signal` through: whether it is one, and one
    /// of those requested.
    pub open spec fn admits(self, signal: Option<Signal>) -> bool {
        signal matches Some(s) && self.requested.contains(s)
    }

    /// The channel after a source reported `signal`: pushed where admitted,
    /// dropped otherwise.
    pub open spec fn route(self, signal: Option<Signal>) -> Channel {
        if self.admits(signal) {
            self.push(signal->0)
        } else {
            self
        }
    }

    /// The channel after the consumer took what `next` hands out.
    pub open spec fn advance(self) -> Channel {
        if self.pending.len() > 0 {
            Channel { pending: self.pending.drop_first(), ..self }
        } else {
            self
        }
    }

    /// What the consumer is handed when it asks now.
    pub open spec fn next(self) -> Delivery {
        if self.pending.len() > 0 {
            Delivery::Signal(self.pending[0])
        } else if self.closed {
            Delivery::Closed
        } else {
            Delivery::Empty
        }
    }

    /// The channel once closed: what waits stays, nothing more gets in.
    pub open spec fn close(self) -> Channel {
        Channel { closed: true, ..self }
    }

    /// The channel after one operation.
    pub open spec fn apply(self, operation: Operation) -> Channel {
        match operation {
            Operation::ConsoleEvent(event) => self.route(Signal::of_console_event(event)),
            Operation::WindowMessage(message) => self.route(Signal::of_window_message(message)),
            Operation::Next => self.advance(),
            Operation::Close => self.close(),
        }
    }

    /// The channel after a run of operations.
    pub open spec fn run(self, operations: Seq<Operation>) -> Channel
        decreases operations.len(),
    {
        if operations.len() == 0 {
            self
        } else {
            self.run(operations.drop_last()).apply(operations.last())
        }
    }

    /// The signals handed to the consumer in the course of a run, in the
    /// order in which it got them.
    pub open spec fn delivered(self, operations: Seq<Operation>) -> Seq<Signal>
        decreases operations.len(),
    {
        if operations.len() == 0 {
            Seq::empty()
        } else {
            let before = self.delivered(operations.drop_last());
            match (operations.last(), self.run(operations.drop_last()).next()) {
                (Operation::Next, Delivery::Signal(signal)) => before.push(signal),
                _ => before,
            }
        }
    }

    /// The signal that an operation reports to the channel, if it reports one.
    pub open spec fn reported(operation: Operation) -> Option<Signal> {
        match operation {
            Operation::ConsoleEvent(event) => Signal::of_console_event(event),
            Operation::WindowMessage(message) => Signal::of_window_message(message),
            _ => None,
        }
    }

    /// The signals that a run of operations lets into the channel while it is
    /// open, in the order of the events that stand for them.
    pub open spec fn admitted(self, operations: Seq<Operation>) -> Seq<Signal>
        decreases operations.len(),
    {
        if operations.len() == 0 {
            Seq::empty()
        } else {
            let before = self.admitted(operations.drop_last());
            let signal = Channel::reported(operations.last());
            if self.admits(signal) && !self.run(operations.drop_last()).closed {
                before.push(signal->0)
            } else {
                before
            }
        }
    }
}

/// A run of operations changes neither the set of requested signals nor
/// reopens a closed channel.
proof fn lemma_run_keeps_requested(channel: Channel, operations: Seq<Operation>)
    ensures
        channel.run(operations).requested == channel.requested,
        channel.closed ==> channel.run(operations).closed,
    decreases operations.len(),
{
    if operations.len() > 0 {
        lemma_run_keeps_requested(channel, operations.drop_last());
    }
}

/// Only requested signals reach the consumer. Whatever events the two
/// sources report, in whatever order, every signal that a dispatcher made for
/// `requested` hands out is one of `requested`, and so is every signal that
/// still waits in it.
pub proof fn lemma_only_requested_signals_delivered(
    requested: Set<Signal>,
    operations: Seq<Operation>,
)
    ensures
        forall|i: int|
            0 <= i < Channel::new(requested).delivered(operations).len() ==> requested.contains(
                #[trigger] Channel::new(requested).delivered(operations)[i],
            ),
        forall|i: int|
            0 <= i < Channel::new(requested).run(operations).pending.len()
                ==> requested.contains(#[trigger] Channel::new(requested).run(operations).pending[i]),
    decreases operations.len(),
{
    let start = Channel::new(requested);
    if operations.len() > 0 {
        let earlier = operations.drop_last();
        lemma_only_requested_signals_delivered(requested, earlier);
        lemma_run_keeps_requested(start, earlier);
        let before = start.run(earlier);
        let after = start.run(operations);
        assert forall|i: int| 0 <= i < after.pending.len() implies requested.contains(
            #[trigger] after.pending[i],
        ) by {
            match operations.last() {
                Operation::Next => {
                    if before.pending.len() > 0 {
                        assert(after.pending[i] == before.pending[i + 1]);
                    }
                },
                Operation::Close => {},
                _ => {
                    if i < before.pending.len() {
                        assert(after.pending[i] == before.pending[i]);
                    }
                },
            }
        }
        assert forall|i: int| 0 <= i < start.delivered(operations).len() implies requested.contains(
            #[trigger] start.delivered(operations)[i],
        ) by {
            if i < start.delivered(earlier).len() {
                assert(start.delivered(operations)[i] == start.delivered(earlier)[i]);
            } else {
                assert(start.delivered(operations)[i] == before.pending[0]);
            }
        }
    }
}

/// Nothing is lost, doubled or reordered. The signals admitted while the
/// dispatcher was open are, in the order of their events, those that the
/// consumer was handed followed by those that still wait.
pub proof fn lemma_signals_keep_their_order(requested: Set<Signal>, operations: Seq<Operation>)
    ensures
        Channel::new(requested).delivered(operations) + Channel::new(requested).run(
            operations,
        ).pending == Channel::new(requested).admitted(operations),
    decreases operations.len(),
{
    let start = Channel::new(requested);
    if operations.len() > 0 {
        let earlier = operations.drop_last();
        lemma_signals_keep_their_order(requested, earlier);
        lemma_run_keeps_requested(start, earlier);
        let before = start.run(earlier);
        match operations.last() {
            Operation::Next => {
                if before.pending.len() > 0 {
                    assert(start.delivered(earlier).push(before.pending[0])
                        + before.pending.drop_first() == start.delivered(earlier)
                        + before.pending);
                }
            },
            Operation::Close => {},
            _ => {
                let signal = Channel::reported(operations.last());
                if start.admits(signal) && !before.closed {
                    assert(start.delivered(earlier) + before.pending.push(signal->0) == (
                    start.delivered(earlier) + before.pending).push(signal->0));
                }
            },
        }
    }
}

/// A request to close the window yields one `CloseWindow` signal, and no
/// other message yields any: on an open dispatcher that was asked for
/// `CloseWindow`, the request puts exactly that one signal behind those that
/// wait.
pub proof fn lemma_close_request_yields_one_signal(channel: Channel, message: u32)
    requires
        channel.requested.contains(Signal::CloseWindow),
        !channel.closed,
    ensures
        message == crate::signal::WM_CLOSE ==> channel.apply(Operation::WindowMessage(message))
            == (Channel { pending: channel.pending.push(Signal::CloseWindow), ..channel }),
        message != crate::signal::WM_CLOSE ==> channel.apply(Operation::WindowMessage(message))
            == channel,
{
}

/// The queue of signals between the two sources and the consumer.
pub struct SignalDispatcher {
    requested: SignalSet,
    queue: VecDeque<Signal>,
    closed: bool,
}

impl View for SignalDispatcher {
    type V = Channel;

    closed spec fn view(&self) -> Channel {
        Channel { requested: self.requested@, pending: self.queue@, closed: self.closed }
    }
}

impl SignalDispatcher {
    /// An open dispatcher for the signals in `requested`, with nothing queued.
    pub fn new(requested: SignalSet) -> (dispatcher: SignalDispatcher)
        ensures
            dispatcher@ == Channel::new(requested@),
    {
        SignalDispatcher { requested, queue: VecDeque::new(), closed: false }
    }

    /// Queues `signal` behind those that wait. Never fails and never waits;
    /// on a closed dispatcher the signal is accepted and dropped.
    pub fn push(&mut self, signal: Signal)
        ensures
            final(self)@ == old(self)@.push(signal),
    {
        if !self.closed {
            self.queue.push_back(signal);
        }
    }

    /// Hands out the signal that has waited longest, if one waits. Where none
    /// does, says whether more may come.
    pub fn next(&mut self) -> (delivery: Delivery)
        ensures
            delivery == old(self)@.next(),
            final(self)@ == old(self)@.advance(),
    {
        match self.queue.pop_front() {
            Some(signal) => Delivery::Signal(signal),
            None => if self.closed {
                Delivery::Closed
            } else {
                Delivery::Empty
            },
        }
    }

    /// Closes the dispatcher: a consumer that finds nothing queued is told so
    /// and no longer waits. Closing twice is closing once.
    pub fn close(&mut self)
        ensures
            final(self)@ == old(self)@.close(),
    {
        self.closed = true;
    }

    /// Tells whether the dispatcher is closed.
    pub fn is_closed(&self) -> (closed: bool)
        ensures
            closed == self@.closed,
    {
        self.closed
    }

    /// The number of signals that wait.
    pub fn len(&self) -> (count: usize)
        ensures
            count == self@.pending.len(),
    {
        self.queue.len()
    }

    /// Takes a console control event from the handler. The event is queued
    /// if it stands for a requested signal, and dropped otherwise. Returns
    /// whether it stood for one, which is what the handler answers the system.
    pub fn on_console_event(&mut self, event: u32) -> (handled: bool)
        ensures
            final(self)@ == old(self)@.apply(Operation::ConsoleEvent(event)),
            handled == old(self)@.admits(Signal::of_console_event(event)),
    {
        self.route(Signal::from_console_ctrl_event(event))
    }

    /// Takes a window message from the window procedure. The request to close
    /// is queued as `CloseWindow` if that signal is requested. Returns whether
    /// the message is consumed: the request to close always is, so that none
    /// but the window's owner destroys it; every other message is left to the
    /// default procedure.
    pub fn on_window_message(&mut self, message: u32) -> (consumed: bool)
        ensures
            final(self)@ == old(self)@.apply(Operation::WindowMessage(message)),
            consumed == (message == crate::signal::WM_CLOSE),
    {
        let signal = Signal::from_window_message(message);
        self.route(signal);
        signal.is_some()
    }

    fn route(&mut self, signal: Option<Signal>) -> (admitted: bool)
        ensures
            final(self)@ == old(self)@.route(signal),
            admitted == old(self)@.admits(signal),
    {
        match signal {
            Some(s) => {
                if self.requested.contains(s) {
                    self.push(s);
                    true
                } else {
                    false
                }
            },
            None => false,
        }
    }
}

} // verus!
