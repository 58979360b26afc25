//! The hidden window: an invisible window of no size that exists only so
//! that its thread has a message loop, through which a request to close
//! arrives.
//!
//! A `Window` is a state machine. `new` starts the creation of the window,
//! `run_event_loop` its message loop and `destroy` its destruction; in
//! between, `request` names the call that is due and `resume` takes what the
//! call returned.

use crate::protocol::{answers, Message, Reply, Request, WindowClass, WindowHandle};
use crate::text::{to_wide, wide_string};
use crate::windows::{get_module_handle, ErrorCode, ModuleHandle};
use vstd::prelude::*;

verus! {

/// The name of the window class and the title of the window, as a wide
/// string. It is the same in every session of every process.
pub fn window_identifier() -> (name: Vec<u16>)
    ensures
        name@ == wide_string("RUST_WINSIG"@),
{
    to_wide("RUST_WINSIG")
}

/// Where the message loop stands with the message that it retrieved last.
#[derive(Clone, Copy, Debug, PartialEq, Eq)]
pub enum LoopStage {
    /// The loop waits for a message.
    Retrieving,
    /// A message came and is shown to the caller's callback.
    Notifying { message: Message },
    /// The callback has seen the message; its keys are translated.
    Translating { message: Message },
    /// The message goes to the procedure of its window.
    Dispatching { message: Message },
}

/// The states of the hidden window.
///
/// The window is not created in the first four, created from `Created` to
/// `DestroyingWindow`, and gone in the others.
#[derive(Clone, Copy, Debug, PartialEq, Eq)]
pub enum WindowState {
    /// Nothing exists; the module handle is asked for.
    ResolvingModule,
    /// The module is known; the class is being registered.
    RegisteringClass { instance: ModuleHandle },
    /// The class is registered; the window is being created under it.
    CreatingWindow { class: WindowClass },
    /// The window could not be created; its class is being unregistered.
    ReleasingClass { class: WindowClass, error: ErrorCode },
    /// Creation failed with `error`. Nothing exists.
    Failed { error: ErrorCode },
    /// The window exists and no loop runs. `exit` says how the loop ended
    /// if it has run.
    Created { class: WindowClass, window: WindowHandle, exit: Option<Result<i32, ErrorCode>> },
    /// The loop runs. It ends when the system says so, and on the message
    /// `stop` where one is given.
    Looping { class: WindowClass, window: WindowHandle, stop: Option<u32>, stage: LoopStage },
    /// The window is being destroyed.
    DestroyingWindow { class: WindowClass, window: WindowHandle },
    /// The window is destroyed; its class is being unregistered.
    UnregisteringClass { class: WindowClass },
    /// Window and class are gone.
    Destroyed,
}

/// The exit code that a message carries when it ends the loop: its first
/// parameter, cut to 32 bits.
pub open spec fn exit_code(message: Message) -> i32 {
    message.wparam as i32
}

impl WindowClass {
    /// The outcome of registering the class under `instance`: the class, or
    /// the error where the system gave it no name and returned zero.
    pub fn new(atom: u16, instance: ModuleHandle, last_error: u32) -> (outcome: Result<
        WindowClass,
        ErrorCode,
    >)
        ensures
            outcome == if atom == 0 {
                Err::<WindowClass, ErrorCode>(ErrorCode { code: last_error })
            } else {
                Ok(WindowClass { atom, instance })
            },
    {
        if atom == 0 {
            Err(ErrorCode { code: last_error })
        } else {
            Ok(WindowClass { atom, instance })
        }
    }
}

impl WindowState {
    /// The call that is due in this state, if one is.
    pub open spec fn request(self) -> Option<Request> {
        match self {
            WindowState::ResolvingModule => Some(Request::GetModuleHandle),
            WindowState::RegisteringClass { instance } => Some(Request::RegisterClass { instance }),
            WindowState::CreatingWindow { class } => Some(
                Request::CreateWindow {
                    class,
                    style: 0,
                    extended_style: 0,
                    x: 0,
                    y: 0,
                    width: 0,
                    height: 0,
                },
            ),
            WindowState::ReleasingClass { class, .. } => Some(Request::UnregisterClass { class }),
            WindowState::Failed { .. } => None,
            WindowState::Created { .. } => None,
            WindowState::Looping { stage, .. } => Some(
                match stage {
                    LoopStage::Retrieving => Request::GetMessage,
                    LoopStage::Notifying { message } => Request::Notify { message },
                    LoopStage::Translating { message } => Request::TranslateMessage { message },
                    LoopStage::Dispatching { message } => Request::DispatchMessage { message },
                },
            ),
            WindowState::DestroyingWindow { window, .. } => Some(Request::DestroyWindow { window }),
            WindowState::UnregisteringClass { class } => Some(Request::UnregisterClass { class }),
            WindowState::Destroyed => None,
        }
    }

    /// The state that follows when the call that is due returned `reply`.
    ///
    /// Creation goes on while the calls succeed and ends in `Failed` with the
    /// error of the first that does not; a class that was registered by then
    /// is unregistered first. The loop shows each message to the callback,
    /// then translates and dispatches it, and ends after the stop message,
    /// when the system says that the thread is to quit, or when retrieval
    /// fails. What destruction and unregistration return is not read: each
    /// is tried once, and the next step follows whatever came of it.
    pub open spec fn after(self, reply: Reply) -> WindowState {
        match (self, reply) {
            (WindowState::ResolvingModule, Reply::Handle { raw, last_error }) => if raw == 0 {
                WindowState::Failed { error: ErrorCode { code: last_error } }
            } else {
                WindowState::RegisteringClass { instance: ModuleHandle { raw } }
            },
            (WindowState::RegisteringClass { instance }, Reply::Atom { atom, last_error }) => if atom
                == 0 {
                WindowState::Failed { error: ErrorCode { code: last_error } }
            } else {
                WindowState::CreatingWindow { class: WindowClass { atom, instance } }
            },
            (WindowState::CreatingWindow { class }, Reply::Handle { raw, last_error }) => if raw
                == 0 {
                WindowState::ReleasingClass { class, error: ErrorCode { code: last_error } }
            } else {
                WindowState::Created { class, window: WindowHandle { hwnd: raw }, exit: None }
            },
            (WindowState::ReleasingClass { error, .. }, Reply::Done) => WindowState::Failed {
                error,
            },
            (
                WindowState::Looping { class, window, stop, stage: LoopStage::Retrieving },
                Reply::Retrieved { status, message, last_error },
            ) => if status > 0 {
                WindowState::Looping {
                    class,
                    window,
                    stop,
                    stage: LoopStage::Notifying { message },
                }
            } else if status == 0 {
                WindowState::Created { class, window, exit: Some(Ok(exit_code(message))) }
            } else {
                WindowState::Created {
                    class,
                    window,
                    exit: Some(Err(ErrorCode { code: last_error })),
                }
            },
            (
                WindowState::Looping { class, window, stop, stage: LoopStage::Notifying { message } },
                Reply::Done,
            ) => WindowState::Looping {
                class,
                window,
                stop,
                stage: LoopStage::Translating { message },
            },
            (
                WindowState::Looping {
                    class,
                    window,
                    stop,
                    stage: LoopStage::Translating { message },
                },
                Reply::Done,
            ) => WindowState::Looping {
                class,
                window,
                stop,
                stage: LoopStage::Dispatching { message },
            },
            (
                WindowState::Looping {
                    class,
                    window,
                    stop,
                    stage: LoopStage::Dispatching { message },
                },
                Reply::Done,
            ) => if stop == Some(message.message) {
                WindowState::Created { class, window, exit: Some(Ok(exit_code(message))) }
            } else {
                WindowState::Looping { class, window, stop, stage: LoopStage::Retrieving }
            },
            (WindowState::DestroyingWindow { class, .. }, Reply::Done) => {
                WindowState::UnregisteringClass { class }
            },
            (WindowState::UnregisteringClass { .. }, Reply::Done) => WindowState::Destroyed,
            _ => self,
        }
    }

    /// The state in which the loop of a created window starts.
    pub open spec fn looping(self, stop: Option<u32>) -> WindowState {
        match self {
            WindowState::Created { class, window, .. } => WindowState::Looping {
                class,
                window,
                stop,
                stage: LoopStage::Retrieving,
            },
            _ => self,
        }
    }

    /// The state in which the destruction of a created window starts.
    pub open spec fn destroying(self) -> WindowState {
        match self {
            WindowState::Created { class, window, .. } => WindowState::DestroyingWindow {
                class,
                window,
            },
            _ => self,
        }
    }

    /// The class that is registered in this state and not yet handed back.
    pub open spec fn class(self) -> Option<WindowClass> {
        match self {
            WindowState::CreatingWindow { class }
            | WindowState::ReleasingClass { class, .. }
            | WindowState::Created { class, .. }
            | WindowState::Looping { class, .. }
            | WindowState::DestroyingWindow { class, .. }
            | WindowState::UnregisteringClass { class } => Some(class),
            _ => None,
        }
    }

    /// The window that exists in this state.
    pub open spec fn window(self) -> Option<WindowHandle> {
        match self {
            WindowState::Created { window, .. }
            | WindowState::Looping { window, .. }
            | WindowState::DestroyingWindow { window, .. } => Some(window),
            _ => None,
        }
    }

    /// Whether the handles in this state name something: none of them is null.
    pub open spec fn well_formed(self) -> bool {
        &&& self matches WindowState::RegisteringClass { instance } ==> instance.raw != 0
        &&& self.class() matches Some(class) ==> class.atom != 0 && class.instance.raw != 0
        &&& self.window() matches Some(window) ==> window.hwnd != 0
    }

    /// Whether the machine has come to rest for good: creation failed, or
    /// the window is destroyed.
    pub open spec fn is_final(self) -> bool {
        self is Failed || self is Destroyed
    }

    /// At most how many more steps creation or destruction takes before the
    /// machine rests. The loop is not counted: it runs as long as messages
    /// come.
    pub open spec fn steps_left(self) -> nat {
        match self {
            WindowState::ResolvingModule => 4,
            WindowState::RegisteringClass { .. } => 3,
            WindowState::CreatingWindow { .. } => 2,
            WindowState::ReleasingClass { .. } => 1,
            WindowState::DestroyingWindow { .. } => 2,
            WindowState::UnregisteringClass { .. } => 1,
            _ => 0,
        }
    }
}

/// What of the system's a window machine holds: a registered class, a window.
pub struct Holdings {
    pub class: Option<WindowClass>,
    pub window: Option<WindowHandle>,
}

impl Holdings {
    /// What is held once the system has answered `request` with `reply`: a
    /// class more where one was registered, a window more where one was
    /// created, and one less of each where it was handed back.
    pub open spec fn after(self, request: Request, reply: Reply) -> Holdings {
        match (request, reply) {
            (Request::RegisterClass { instance }, Reply::Atom { atom, .. }) => if atom != 0 {
                Holdings { class: Some(WindowClass { atom, instance }), ..self }
            } else {
                self
            },
            (Request::CreateWindow { .. }, Reply::Handle { raw, .. }) => if raw != 0 {
                Holdings { window: Some(WindowHandle { hwnd: raw }), ..self }
            } else {
                self
            },
            (Request::DestroyWindow { .. }, Reply::Done) => Holdings { window: None, ..self },
            (Request::UnregisterClass { .. }, Reply::Done) => Holdings { class: None, ..self },
            _ => self,
        }
    }
}

impl WindowState {
    /// What the machine holds in this state.
    pub open spec fn holdings(self) -> Holdings {
        Holdings { class: self.class(), window: self.window() }
    }
}

/// The machine keeps exact books. What it holds after a step is what it held
/// before, changed by what the call of that step did: it forgets nothing that
/// it was given, and what it hands back was its own.
pub proof fn lemma_window_keeps_books(state: WindowState, reply: Reply)
    requires
        state.request() matches Some(request) && answers(request, reply),
    ensures
        state.after(reply).holdings() == state.holdings().after(state.request()->0, reply),
        state.request() matches Some(Request::DestroyWindow { window }) ==> state.window() == Some(
            window,
        ),
        state.request() matches Some(Request::UnregisterClass { class }) ==> state.class() == Some(
            class,
        ),
{
}

/// Nothing is left behind, and the window never outlives its class. A
/// machine at rest for good holds neither class nor window, so a creation
/// that failed has unregistered what it had registered; and wherever a window
/// is held, so is its class, so the window is destroyed first.
pub proof fn lemma_window_leaves_nothing(state: WindowState)
    ensures
        state.is_final() ==> state.class() is None && state.window() is None,
        state.window() is Some ==> state.class() is Some,
        state.request() is None <==> state.is_final() || state is Created,
{
}

/// Creation and destruction come to rest: outside the loop, each answer
/// leaves fewer steps than there were, and where none is left the machine
/// asks for nothing.
pub proof fn lemma_window_comes_to_rest(state: WindowState, reply: Reply)
    requires
        !(state is Looping),
    ensures
        state.request() is None <==> state.steps_left() == 0,
        state.request() matches Some(request) && answers(request, reply) ==> state.after(
            reply,
        ).steps_left() < state.steps_left(),
{
}

/// No step makes a handle null: a state with sound handles is followed by
/// one, whatever the system answers.
pub proof fn lemma_window_stays_well_formed(state: WindowState, reply: Reply, stop: Option<u32>)
    requires
        state.well_formed(),
    ensures
        state.after(reply).well_formed(),
        state.looping(stop).well_formed(),
        state.destroying().well_formed(),
{
}

/// The hidden window and the class under which it is registered.
#[derive(Clone, Copy, Debug)]
pub struct Window {
    state: WindowState,
}

impl View for Window {
    type V = WindowState;

    closed spec fn view(&self) -> WindowState {
        self.state
    }
}

impl Window {
    /// Starts the creation of the hidden window. The first call that is due
    /// asks for the module handle.
    pub fn new() -> (window: Window)
        ensures
            window@ == WindowState::ResolvingModule,
    {
        Window { state: WindowState::ResolvingModule }
    }

    /// The state of the window.
    pub fn state(&self) -> (state: WindowState)
        ensures
            state == self@,
    {
        self.state
    }

    /// The call that is due, if one is.
    pub fn request(&self) -> (request: Option<Request>)
        ensures
            request == self@.request(),
    {
        match self.state {
            WindowState::ResolvingModule => Some(Request::GetModuleHandle),
            WindowState::RegisteringClass { instance } => Some(Request::RegisterClass { instance }),
            WindowState::CreatingWindow { class } => Some(
                Request::CreateWindow {
                    class,
                    style: 0,
                    extended_style: 0,
                    x: 0,
                    y: 0,
                    width: 0,
                    height: 0,
                },
            ),
            WindowState::ReleasingClass { class, .. } => Some(Request::UnregisterClass { class }),
            WindowState::Failed { .. } => None,
            WindowState::Created { .. } => None,
            WindowState::Looping { stage, .. } => Some(
                match stage {
                    LoopStage::Retrieving => Request::GetMessage,
                    LoopStage::Notifying { message } => Request::Notify { message },
                    LoopStage::Translating { message } => Request::TranslateMessage { message },
                    LoopStage::Dispatching { message } => Request::DispatchMessage { message },
                },
            ),
            WindowState::DestroyingWindow { window, .. } => Some(Request::DestroyWindow { window }),
            WindowState::UnregisteringClass { class } => Some(Request::UnregisterClass { class }),
            WindowState::Destroyed => None,
        }
    }

    /// Takes what the call that was due returned, and moves on.
    pub fn resume(&mut self, reply: Reply)
        requires
            old(self)@.request() matches Some(request) && answers(request, reply),
        ensures
            final(self)@ == old(self)@.after(reply),
    {
        let next = match self.state {
            WindowState::ResolvingModule => match reply {
                Reply::Handle { raw, last_error } => match get_module_handle(raw, last_error) {
                    Ok(instance) => WindowState::RegisteringClass { instance },
                    Err(error) => WindowState::Failed { error },
                },
                _ => self.state,
            },
            WindowState::RegisteringClass { instance } => match reply {
                Reply::Atom { atom, last_error } => match WindowClass::new(
                    atom,
                    instance,
                    last_error,
                ) {
                    Ok(class) => WindowState::CreatingWindow { class },
                    Err(error) => WindowState::Failed { error },
                },
                _ => self.state,
            },
            WindowState::CreatingWindow { class } => match reply {
                Reply::Handle { raw, last_error } => if raw == 0 {
                    WindowState::ReleasingClass { class, error: ErrorCode { code: last_error } }
                } else {
                    WindowState::Created { class, window: WindowHandle { hwnd: raw }, exit: None }
                },
                _ => self.state,
            },
            WindowState::ReleasingClass { error, .. } => WindowState::Failed { error },
            WindowState::Looping { class, window, stop, stage } => match stage {
                LoopStage::Retrieving => match reply {
                    Reply::Retrieved { status, message, last_error } => if status > 0 {
                        WindowState::Looping {
                            class,
                            window,
                            stop,
                            stage: LoopStage::Notifying { message },
                        }
                    } else if status == 0 {
                        WindowState::Created {
                            class,
                            window,
                            exit: Some(Ok(message_exit_code(&message))),
                        }
                    } else {
                        WindowState::Created {
                            class,
                            window,
                            exit: Some(Err(ErrorCode { code: last_error })),
                        }
                    },
                    _ => self.state,
                },
                LoopStage::Notifying { message } => WindowState::Looping {
                    class,
                    window,
                    stop,
                    stage: LoopStage::Translating { message },
                },
                LoopStage::Translating { message } => WindowState::Looping {
                    class,
                    window,
                    stop,
                    stage: LoopStage::Dispatching { message },
                },
                LoopStage::Dispatching { message } => {
                    let stops = match stop {
                        Some(identifier) => identifier == message.message,
                        None => false,
                    };
                    if stops {
                        WindowState::Created {
                            class,
                            window,
                            exit: Some(Ok(message_exit_code(&message))),
                        }
                    } else {
                        WindowState::Looping { class, window, stop, stage: LoopStage::Retrieving }
                    }
                },
            },
            WindowState::DestroyingWindow { class, .. } => WindowState::UnregisteringClass {
                class,
            },
            WindowState::UnregisteringClass { .. } => WindowState::Destroyed,
            _ => self.state,
        };
        self.state = next;
    }

    /// Starts the message loop of a window that exists and has not run one.
    /// The loop ends after the message `stop`, where one is given, and when
    /// the system tells the thread to quit.
    pub fn run_event_loop(&mut self, stop: Option<u32>)
        requires
            old(self)@ matches WindowState::Created { exit: None, .. },
        ensures
            final(self)@ == old(self)@.looping(stop),
    {
        if let WindowState::Created { class, window, .. } = self.state {
            self.state = WindowState::Looping { class, window, stop, stage: LoopStage::Retrieving };
        }
    }

    /// Starts the destruction of a window that exists and runs no loop:
    /// first the window goes, then its class.
    pub fn destroy(&mut self)
        requires
            old(self)@ is Created,
        ensures
            final(self)@ == old(self)@.destroying(),
    {
        if let WindowState::Created { class, window, .. } = self.state {
            self.state = WindowState::DestroyingWindow { class, window };
        }
    }

    /// The handle of the window while it exists.
    pub fn handle(&self) -> (handle: Option<WindowHandle>)
        ensures
            handle == self@.window(),
    {
        match self.state {
            WindowState::Created { window, .. }
            | WindowState::Looping { window, .. }
            | WindowState::DestroyingWindow { window, .. } => Some(window),
            _ => None,
        }
    }
}

/// The exit code that `message` carries.
fn message_exit_code(message: &Message) -> (code: i32)
    ensures
        code == exit_code(*message),
{
    #[verifier::truncate]
    (message.wparam as i32)
}

} // verus!
