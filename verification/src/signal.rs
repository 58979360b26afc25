//! The signals that a process can trap, and sets of them.

use vstd::prelude::*;

verus! {

/// The console control event that Ctrl-C raises.
pub const CTRL_C_EVENT: u32 = 0;

/// The console control event that Ctrl-Break raises.
pub const CTRL_BREAK_EVENT: u32 = 1;

/// The console control event raised when the console is closed.
pub const CTRL_CLOSE_EVENT: u32 = 2;

/// The console control event raised when the user logs off.
pub const CTRL_LOGOFF_EVENT: u32 = 5;

/// The console control event raised when the system shuts down.
pub const CTRL_SHUTDOWN_EVENT: u32 = 6;

/// The window message that asks a window to close.
pub const WM_CLOSE: u32 = 0x0010;

/// A request to end the process, whichever way the system delivered it.
#[derive(Clone, Copy, Debug, PartialEq, Eq, Hash, Structural)]
pub enum Signal {
    /// Ctrl-C was pressed in the console.
    CtrlC,
    /// Ctrl-Break was pressed in the console.
    CtrlBreak,
    /// The hidden window was asked to close.
    CloseWindow,
}

impl Signal {
    /// The signal that a console control event stands for. The events of
    /// closing, logging off and shutting down stand for none.
    pub open spec fn of_console_event(event: u32) -> Option<Signal> {
        if event == CTRL_C_EVENT {
            Some(Signal::CtrlC)
        } else if event == CTRL_BREAK_EVENT {
            Some(Signal::CtrlBreak)
        } else {
            None
        }
    }

    /// The signal that a window message stands for: only the request to
    /// close stands for one.
    pub open spec fn of_window_message(message: u32) -> Option<Signal> {
        if message == WM_CLOSE {
            Some(Signal::CloseWindow)
        } else {
            None
        }
    }

    /// Reads a console control event as a signal.
    pub fn from_console_ctrl_event(event: u32) -> (signal: Option<Signal>)
        ensures
            signal == Signal::of_console_event(event),
    {
        if event == CTRL_C_EVENT {
            Some(Signal::CtrlC)
        } else if event == CTRL_BREAK_EVENT {
            Some(Signal::CtrlBreak)
        } else {
            None
        }
    }

    /// Reads a window message as a signal.
    pub fn from_window_message(message: u32) -> (signal: Option<Signal>)
        ensures
            signal == Signal::of_window_message(message),
    {
        if message == WM_CLOSE {
            Some(Signal::CloseWindow)
        } else {
            None
        }
    }
}

/// A set of signals: those that a session was asked to trap.
#[derive(Clone, Copy, Debug)]
pub struct SignalSet {
    ctrl_c: bool,
    ctrl_break: bool,
    close_window: bool,
}

impl View for SignalSet {
    type V = Set<Signal>;

    closed spec fn view(&self) -> Set<Signal> {
        Set::new(
            |signal: Signal|
                match signal {
                    Signal::CtrlC => self.ctrl_c,
                    Signal::CtrlBreak => self.ctrl_break,
                    Signal::CloseWindow => self.close_window,
                },
        )
    }
}

impl SignalSet {
    /// The set that holds no signal.
    pub fn empty() -> (set: SignalSet)
        ensures
            set@ == Set::<Signal>::empty(),
    {
        SignalSet { ctrl_c: false, ctrl_break: false, close_window: false }
    }

    /// The set of the signals that occur in `signals`.
    pub fn from_slice(signals: &[Signal]) -> (set: SignalSet)
        ensures
            set@ == signals@.to_set(),
    {
        let mut set = SignalSet::empty();
        let mut i: usize = 0;
        while i < signals.len()
            invariant
                i <= signals.len(),
                set@ == signals@.take(i as int).to_set(),
            decreases signals.len() - i,
        {
            proof {
                let before = signals@.take(i as int);
                let after = signals@.take(i + 1);
                assert(after == before.push(signals@[i as int]));
                assert forall|s: Signal| after.to_set().contains(s) <==> before.to_set().insert(
                    signals@[i as int],
                ).contains(s) by {
                    if after.contains(s) {
                        let k = choose|k: int| 0 <= k < after.len() && after[k] == s;
                        if k < before.len() {
                            assert(before[k] == s);
                        }
                    }
                    if before.contains(s) {
                        let k = choose|k: int| 0 <= k < before.len() && before[k] == s;
                        assert(after[k] == s);
                    }
                    assert(after[i as int] == signals@[i as int]);
                }
                assert(after.to_set() == before.to_set().insert(signals@[i as int]));
            }
            set.insert(signals[i]);
            i += 1;
        }
        proof {
            assert(signals@.take(i as int) == signals@);
        }
        set
    }

    /// Puts `signal` into the set.
    pub fn insert(&mut self, signal: Signal)
        ensures
            final(self)@ == old(self)@.insert(signal),
    {
        match signal {
            Signal::CtrlC => {
                self.ctrl_c = true;
            },
            Signal::CtrlBreak => {
                self.ctrl_break = true;
            },
            Signal::CloseWindow => {
                self.close_window = true;
            },
        }
    }

    /// Tells whether `signal` is in the set.
    pub fn contains(&self, signal: Signal) -> (found: bool)
        ensures
            found == self@.contains(signal),
    {
        match signal {
            Signal::CtrlC => self.ctrl_c,
            Signal::CtrlBreak => self.ctrl_break,
            Signal::CloseWindow => self.close_window,
        }
    }
}

} // verus!
