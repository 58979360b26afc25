//! The deciding core of a trap for the signals that ask a Windows process
//! to end.
//!
//! Such signals come two ways. Ctrl-C and Ctrl-Break come as console control
//! events, on a thread that the system starts for the purpose; the request to
//! close comes as a message to a window, which is why a hidden window is kept
//! on a worker thread. This crate holds everything that is decided on the
//! way: what each return value of the system means, how the hidden window is
//! created and destroyed, what the worker and the session do in which order,
//! which signals are let through, and in which order they reach the consumer.
//!
//! The crate itself calls nothing. Its state machines name the call that is
//! due and take what the call returned; the caller makes the calls, runs the
//! threads and waits.

pub mod dispatcher;
pub mod protocol;
pub mod session;
pub mod signal;
pub mod text;
pub mod window;
pub mod windows;
pub mod worker;
