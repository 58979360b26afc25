//! What the state machines of this library ask of their surroundings, and
//! what they are told in return.
//!
//! A machine never calls the operating system. It names the call that is due
//! as a `Request`; whoever drives the machine makes the call and hands back a
//! `Reply` with what the call returned, unread. Every decision on what was
//! returned is the machine's.

use crate::windows::{ErrorCode, ModuleHandle};
use vstd::prelude::*;

verus! {

/// A reference to the hidden window. It names the window and owns nothing:
/// it is good for posting messages as long as the window exists.
#[derive(Clone, Copy, Debug, PartialEq, Eq, Hash, Structural)]
pub struct WindowHandle {
    pub hwnd: usize,
}

/// A registered window class: the name that the system gave it and the
/// module under which it is registered.
#[derive(Clone, Copy, Debug, PartialEq, Eq, Hash, Structural)]
pub struct WindowClass {
    pub atom: u16,
    pub instance: ModuleHandle,
}

/// A message as the system takes it from a thread's queue.
#[derive(Clone, Copy, Debug, PartialEq, Eq, Hash, Structural)]
pub struct Message {
    /// The window that the message is for, zero for the thread itself.
    pub window: usize,
    /// What the message says.
    pub message: u32,
    pub wparam: usize,
    pub lparam: isize,
    /// When the message was posted.
    pub time: u32,
    /// Where the cursor was then.
    pub x: i32,
    pub y: i32,
}

/// What a worker that is up tells the session: how to reach it.
#[derive(Clone, Copy, Debug, PartialEq, Eq, Hash, Structural)]
pub struct WorkerReady {
    /// The thread whose queue takes the stop message.
    pub thread_id: u32,
    /// The message that ends the worker's loop.
    pub stop_message: u32,
    /// The hidden window.
    pub window: WindowHandle,
}

/// What a machine asks for.
#[derive(Clone, Copy, Debug, PartialEq, Eq)]
pub enum Request {
    /// Ask for the handle of the running module.
    GetModuleHandle,
    /// Register the window class under `instance`: named by the window
    /// identifier, bound to the window procedure, with no style, icon,
    /// cursor, brush, menu or extra bytes.
    RegisterClass { instance: ModuleHandle },
    /// Create a window of `class` with the given styles and geometry, titled
    /// with the window identifier, without parent or menu.
    CreateWindow {
        class: WindowClass,
        style: u32,
        extended_style: u32,
        x: i32,
        y: i32,
        width: i32,
        height: i32,
    },
    /// Destroy the window.
    DestroyWindow { window: WindowHandle },
    /// Unregister the class.
    UnregisterClass { class: WindowClass },
    /// Wait for the next message of the calling thread, whatever its window.
    GetMessage,
    /// Show the message to the caller's callback.
    Notify { message: Message },
    /// Translate the message's virtual keys.
    TranslateMessage { message: Message },
    /// Hand the message to the procedure of its window.
    DispatchMessage { message: Message },
    /// Register the name of the stop message, and so learn its identifier.
    RegisterStopMessage,
    /// Ask for the identifier of the calling thread.
    GetCurrentThreadId,
    /// Tell the session how the worker's start went.
    Report { report: Result<WorkerReady, ErrorCode> },
    /// Add the console control handler to the process's list, or remove it.
    SetConsoleCtrlHandler { add: bool },
    /// Start the worker thread.
    SpawnWorker,
    /// Wait for the worker's report.
    AwaitWorker,
    /// Post a message to the queue of a thread.
    PostThreadMessage { thread_id: u32, identifier: u32, wparam: usize, lparam: isize },
    /// Wait until the worker thread has ended.
    JoinWorker,
    /// Close the dispatcher.
    CloseDispatcher,
}

/// What a machine is told. Where a call can fail, `last_error` is the
/// calling thread's last error code, read right after the call.
#[derive(Clone, Copy, Debug, PartialEq, Eq)]
pub enum Reply {
    /// The request was carried out; nothing that it returned is read.
    Done,
    /// The status of a call that returns zero when it fails.
    Status { status: i32, last_error: u32 },
    /// The handle that a call returned, null when it failed.
    Handle { raw: usize, last_error: u32 },
    /// The class name that registration returned, zero when it failed.
    Atom { atom: u16, last_error: u32 },
    /// The identifier that a call returned, zero when it failed.
    Identifier { identifier: u32, last_error: u32 },
    /// The status of message retrieval and the message that it stored.
    Retrieved { status: i32, message: Message, last_error: u32 },
    /// The worker's report.
    Worker { report: Result<WorkerReady, ErrorCode> },
}

/// Whether `reply` is of the kind that answers `request`.
pub open spec fn answers(request: Request, reply: Reply) -> bool {
    match request {
        Request::GetModuleHandle | Request::CreateWindow { .. } => reply is Handle,
        Request::RegisterClass { .. } => reply is Atom,
        Request::RegisterStopMessage | Request::GetCurrentThreadId => reply is Identifier,
        Request::GetMessage => reply is Retrieved,
        Request::SetConsoleCtrlHandler { .. } | Request::PostThreadMessage { .. } => reply
            is Status,
        Request::AwaitWorker => reply is Worker,
        Request::DestroyWindow { .. }
        | Request::UnregisterClass { .. }
        | Request::Notify { .. }
        | Request::TranslateMessage { .. }
        | Request::DispatchMessage { .. }
        | Request::Report { .. }
        | Request::SpawnWorker
        | Request::JoinWorker
        | Request::CloseDispatcher => reply is Done,
    }
}

/// Tells whether `reply` is of the kind that answers `request`.
pub fn is_answer(request: &Request, reply: &Reply) -> (fits: bool)
    ensures
        fits == answers(*request, *reply),
{
    match request {
        Request::GetModuleHandle | Request::CreateWindow { .. } => matches!(reply, Reply::Handle { .. }),
        Request::RegisterClass { .. } => matches!(reply, Reply::Atom { .. }),
        Request::RegisterStopMessage | Request::GetCurrentThreadId => matches!(
            reply,
            Reply::Identifier { .. }
        ),
        Request::GetMessage => matches!(reply, Reply::Retrieved { .. }),
        Request::SetConsoleCtrlHandler { .. } | Request::PostThreadMessage { .. } => matches!(
            reply,
            Reply::Status { .. }
        ),
        Request::AwaitWorker => matches!(reply, Reply::Worker { .. }),
        Request::DestroyWindow { .. }
        | Request::UnregisterClass { .. }
        | Request::Notify { .. }
        | Request::TranslateMessage { .. }
        | Request::DispatchMessage { .. }
        | Request::Report { .. }
        | Request::SpawnWorker
        | Request::JoinWorker
        | Request::CloseDispatcher => matches!(reply, Reply::Done),
    }
}

} // verus!
