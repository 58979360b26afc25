//! The worker: what the thread does that owns the hidden window.
//!
//! The worker creates the window, registers the message that will stop it,
//! learns the identifier of its thread and reports both to the session. Then
//! it runs the window's message loop until the stop message arrives, destroys
//! the window and ends. If it cannot get that far it gives back what it had
//! got, and reports the error instead.

use crate::protocol::{answers, Message, Reply, Request, WorkerReady};
use crate::text::{to_wide, wide_string};
use crate::window::{exit_code, Holdings, LoopStage, Window, WindowState};
use crate::windows::{register_window_message, ErrorCode};
use vstd::prelude::*;

verus! {

/// The name under which the stop message is registered, as a wide string.
/// Whoever registers this name in the same desktop session is given the same
/// message identifier.
pub fn stop_message_name() -> (name: Vec<u16>)
    ensures
        name@ == wide_string("RUST_WINSIG_STOP"@),
{
    to_wide("RUST_WINSIG_STOP")
}

/// What the worker is doing.
#[derive(Clone, Copy, Debug, PartialEq, Eq)]
pub enum WorkerPhase {
    /// The window is being created.
    Creating,
    /// The window exists; the stop message is being registered.
    RegisteringStop,
    /// The stop message is known; the thread asks for its identifier.
    Identifying { stop_message: u32 },
    /// The session is told that the worker is up.
    Announcing { ready: WorkerReady },
    /// The message loop runs.
    Running,
    /// The window is being destroyed. `outcome` is how the worker will have
    /// ended; `announced` says whether the session was told that it was up.
    Closing { outcome: Result<i32, ErrorCode>, announced: bool },
    /// The session is told that the worker could not start.
    Failing { error: ErrorCode },
    /// The worker has ended: with the exit code of its loop, or with the
    /// error that stopped it.
    Exited { outcome: Result<i32, ErrorCode> },
}

/// The state of a worker: what it is doing, and the state of its window.
pub struct WorkerState {
    pub phase: WorkerPhase,
    pub window: WindowState,
}

impl WorkerState {
    /// The state in which every worker starts.
    pub open spec fn initial() -> WorkerState {
        WorkerState { phase: WorkerPhase::Creating, window: WindowState::ResolvingModule }
    }

    /// Whether phase and window agree: whether the window is in a state in
    /// which the worker can do what its phase says.
    pub open spec fn consistent(self) -> bool {
        match self.phase {
            WorkerPhase::Creating => {
                ||| self.window is ResolvingModule
                ||| self.window is RegisteringClass
                ||| self.window is CreatingWindow
                ||| self.window is ReleasingClass
            },
            WorkerPhase::RegisteringStop | WorkerPhase::Identifying { .. } => {
                self.window matches WindowState::Created { exit: None, .. }
            },
            WorkerPhase::Announcing { ready } => {
                &&& self.window matches WindowState::Created { exit: None, window, .. }
                &&& ready.window == window
            },
            WorkerPhase::Running => self.window is Looping,
            WorkerPhase::Closing { outcome, announced } => {
                &&& self.window is DestroyingWindow || self.window is UnregisteringClass
                &&& announced || outcome is Err
            },
            WorkerPhase::Failing { .. } | WorkerPhase::Exited { .. } => self.window.is_final(),
        }
    }

    /// Whether the session has had the worker's report: that it is up, or
    /// that it could not start.
    pub open spec fn has_reported(self) -> bool {
        match self.phase {
            WorkerPhase::Running | WorkerPhase::Exited { .. } => true,
            WorkerPhase::Closing { announced, .. } => announced,
            _ => false,
        }
    }

    /// At most how many more steps the worker takes before it has reported.
    pub open spec fn steps_to_report(self) -> nat {
        match self.phase {
            WorkerPhase::Creating => match self.window {
                WindowState::ResolvingModule => 7,
                WindowState::RegisteringClass { .. } => 6,
                WindowState::CreatingWindow { .. } => 5,
                _ => 2,
            },
            WorkerPhase::RegisteringStop => 4,
            WorkerPhase::Identifying { .. } => 2,
            WorkerPhase::Announcing { .. } => 1,
            WorkerPhase::Closing { announced: false, .. } => match self.window {
                WindowState::DestroyingWindow { .. } => 3,
                _ => 2,
            },
            WorkerPhase::Failing { .. } => 1,
            _ => 0,
        }
    }

    /// The call that is due in this state, if one is.
    pub open spec fn request(self) -> Option<Request> {
        match self.phase {
            WorkerPhase::Creating | WorkerPhase::Running | WorkerPhase::Closing { .. } => {
                self.window.request()
            },
            WorkerPhase::RegisteringStop => Some(Request::RegisterStopMessage),
            WorkerPhase::Identifying { .. } => Some(Request::GetCurrentThreadId),
            WorkerPhase::Announcing { ready } => Some(Request::Report { report: Ok(ready) }),
            WorkerPhase::Failing { error } => Some(Request::Report { report: Err(error) }),
            WorkerPhase::Exited { .. } => None,
        }
    }

    /// The state that follows when the call that is due returned `reply`.
    pub open spec fn after(self, reply: Reply) -> WorkerState {
        match self.phase {
            WorkerPhase::Creating => {
                let window = self.window.after(reply);
                let phase = match window {
                    WindowState::Created { .. } => WorkerPhase::RegisteringStop,
                    WindowState::Failed { error } => WorkerPhase::Failing { error },
                    _ => WorkerPhase::Creating,
                };
                WorkerState { phase, window }
            },
            WorkerPhase::RegisteringStop => match reply {
                Reply::Identifier { identifier, last_error } => if identifier == 0 {
                    WorkerState {
                        phase: WorkerPhase::Closing {
                            outcome: Err(ErrorCode { code: last_error }),
                            announced: false,
                        },
                        window: self.window.destroying(),
                    }
                } else {
                    WorkerState {
                        phase: WorkerPhase::Identifying { stop_message: identifier },
                        ..self
                    }
                },
                _ => self,
            },
            WorkerPhase::Identifying { stop_message } => match (reply, self.window) {
                (Reply::Identifier { identifier, .. }, WindowState::Created { window, .. }) => {
                    WorkerState {
                        phase: WorkerPhase::Announcing {
                            ready: WorkerReady { thread_id: identifier, stop_message, window },
                        },
                        ..self
                    }
                },
                _ => self,
            },
            WorkerPhase::Announcing { ready } => WorkerState {
                phase: WorkerPhase::Running,
                window: self.window.looping(Some(ready.stop_message)),
            },
            WorkerPhase::Running => {
                let window = self.window.after(reply);
                match window {
                    WindowState::Created { exit: Some(outcome), .. } => WorkerState {
                        phase: WorkerPhase::Closing { outcome, announced: true },
                        window: window.destroying(),
                    },
                    _ => WorkerState { phase: WorkerPhase::Running, window },
                }
            },
            WorkerPhase::Closing { outcome, announced } => {
                let window = self.window.after(reply);
                let phase = match (window, announced, outcome) {
                    (WindowState::Destroyed, false, Err(error)) => WorkerPhase::Failing { error },
                    (WindowState::Destroyed, _, _) => WorkerPhase::Exited { outcome },
                    _ => self.phase,
                };
                WorkerState { phase, window }
            },
            WorkerPhase::Failing { error } => WorkerState {
                phase: WorkerPhase::Exited { outcome: Err(error) },
                ..self
            },
            WorkerPhase::Exited { .. } => self,
        }
    }
}

impl WorkerState {
    /// The state after the calls that `replies` answer, one after the other.
    pub open spec fn run(self, replies: Seq<Reply>) -> WorkerState
        decreases replies.len(),
    {
        if replies.len() == 0 {
            self
        } else {
            self.run(replies.drop_last()).after(replies.last())
        }
    }

    /// Whether each of `replies` answers the call that is due when it comes.
    pub open spec fn answered_by(self, replies: Seq<Reply>) -> bool
        decreases replies.len(),
    {
        replies.len() == 0 || (self.answered_by(replies.drop_last()) && (self.run(
            replies.drop_last(),
        ).request() matches Some(request) && answers(request, replies.last())))
    }

    /// What the worker has been given and not handed back after `replies`,
    /// going by what the system answered on the way.
    pub open spec fn held(self, replies: Seq<Reply>) -> Holdings
        decreases replies.len(),
    {
        if replies.len() == 0 {
            self.window.holdings()
        } else {
            self.held(replies.drop_last()).after(
                self.run(replies.drop_last()).request()->0,
                replies.last(),
            )
        }
    }
}

/// Every worker hands back what it was given. However a worker goes,
/// whatever the system answers, phase and window agree, what the worker
/// takes itself to hold is what it was given and has not handed back, and
/// once it has ended that is nothing: window and class are gone.
pub proof fn lemma_worker_gives_everything_back(replies: Seq<Reply>)
    requires
        WorkerState::initial().answered_by(replies),
    ensures
        WorkerState::initial().run(replies).consistent(),
        WorkerState::initial().run(replies).window.holdings() == WorkerState::initial().held(
            replies,
        ),
        WorkerState::initial().run(replies).phase is Exited ==> WorkerState::initial().held(replies)
            == (Holdings { class: None, window: None }),
    decreases replies.len(),
{
    if replies.len() > 0 {
        lemma_worker_gives_everything_back(replies.drop_last());
        let before = WorkerState::initial().run(replies.drop_last());
        lemma_worker_stays_consistent(before, replies.last());
        lemma_worker_keeps_books(before, replies.last());
        let reached = WorkerState::initial().run(replies);
        if reached.phase is Exited {
            lemma_worker_leaves_nothing(reached);
        }
    }
}

/// Phase and window stay in step: a worker starts with the two in agreement,
/// and no answer of the system brings them apart.
pub proof fn lemma_worker_stays_consistent(state: WorkerState, reply: Reply)
    requires
        state.consistent(),
    ensures
        WorkerState::initial().consistent(),
        state.after(reply).consistent(),
{
}

/// The worker keeps the window's books. What it holds after a step is what
/// it held before, changed by what the call of that step did; the steps that
/// are the worker's own neither create nor destroy anything.
pub proof fn lemma_worker_keeps_books(state: WorkerState, reply: Reply)
    requires
        state.consistent(),
        state.request() matches Some(request) && answers(request, reply),
    ensures
        state.after(reply).window.holdings() == state.window.holdings().after(
            state.request()->0,
            reply,
        ),
{
}

/// A worker that has ended holds nothing, and neither does one that reports
/// a failed start: window and class are gone before the session hears of it.
pub proof fn lemma_worker_leaves_nothing(state: WorkerState)
    requires
        state.consistent(),
        state.phase is Exited || state.phase is Failing,
    ensures
        state.window.class() is None,
        state.window.window() is None,
{
}

/// A start that fails is reported with the error that failed it. Where the
/// creation of the window ends in failure, the next thing that the worker
/// does is to report that failure; and a failure is reported only by a worker
/// that was not announced.
pub proof fn lemma_failed_creation_is_reported(state: WorkerState, reply: Reply)
    requires
        state.consistent(),
        state.phase is Creating,
        state.after(reply).window is Failed,
    ensures
        state.after(reply).request() == Some(
            Request::Report { report: Err(state.after(reply).window->Failed_error) },
        ),
        state.after(reply).after(Reply::Done).phase == (WorkerPhase::Exited {
            outcome: Err(state.after(reply).window->Failed_error),
        }),
{
}

/// The worker reports once, and before it waits. It has not reported when it
/// starts, has reported when it has ended, reports by no step but the answer
/// to its report, has no report due once it has reported, and waits for a
/// message only then. Until then every step brings the report nearer, so a
/// session that waits for the report does not wait in vain.
pub proof fn lemma_worker_reports_once(state: WorkerState, reply: Reply)
    requires
        state.consistent(),
        state.request() matches Some(request) && answers(request, reply),
    ensures
        !WorkerState::initial().has_reported(),
        state.phase is Exited ==> state.has_reported(),
        state.has_reported() ==> !(state.request()->0 is Report) && state.after(
            reply,
        ).has_reported(),
        !state.has_reported() ==> (state.after(reply).has_reported() <==> state.request()->0
            is Report),
        state.request() == Some(Request::GetMessage) ==> state.has_reported(),
        state.has_reported() <==> state.steps_to_report() == 0,
        !state.has_reported() ==> state.after(reply).steps_to_report() < state.steps_to_report(),
{
}

/// The worker tells the session the truth: the window that it announces is
/// the window that exists, and the stop message that it announces is the
/// message on which its loop will end.
pub proof fn lemma_worker_announces_its_window(state: WorkerState)
    requires
        state.consistent(),
        state.phase is Announcing,
    ensures
        state.window.window() == Some(state.phase->ready.window),
        state.after(Reply::Done).phase is Running,
        state.after(Reply::Done).window matches WindowState::Looping { stop, .. } && stop == Some(
            state.phase->ready.stop_message,
        ),
{
}

/// The stop message ends the worker. A worker that waits in its loop and is
/// handed the stop message shows, translates and dispatches it like any
/// other, then destroys its window, unregisters the class and ends with the
/// exit code that the message carried.
pub proof fn lemma_stop_message_ends_the_worker(state: WorkerState, message: Message)
    requires
        state.consistent(),
        state.phase is Running,
        state.window matches WindowState::Looping { stop, stage: LoopStage::Retrieving, .. }
            && stop == Some(message.message),
    ensures
        ({
            let shown = state.after(Reply::Retrieved { status: 1, message, last_error: 0 });
            let translated = shown.after(Reply::Done);
            let dispatched = translated.after(Reply::Done);
            let destroying = dispatched.after(Reply::Done);
            let unregistering = destroying.after(Reply::Done);
            let ended = unregistering.after(Reply::Done);
            &&& shown.request() == Some(Request::Notify { message })
            &&& translated.request() == Some(Request::TranslateMessage { message })
            &&& dispatched.request() == Some(Request::DispatchMessage { message })
            &&& destroying.request() == Some(
                Request::DestroyWindow { window: state.window->Looping_window },
            )
            &&& unregistering.request() == Some(
                Request::UnregisterClass { class: state.window->Looping_class },
            )
            &&& ended.phase == WorkerPhase::Exited { outcome: Ok(exit_code(message)) }
            &&& ended.request() is None
        }),
{
}

/// The machine that a worker thread runs.
#[derive(Debug)]
pub struct Worker {
    phase: WorkerPhase,
    window: Window,
}

impl View for Worker {
    type V = WorkerState;

    closed spec fn view(&self) -> WorkerState {
        WorkerState { phase: self.phase, window: self.window@ }
    }
}

impl Worker {
    #[verifier::type_invariant]
    spec fn consistent(self) -> bool {
        self@.consistent()
    }

    /// A worker that has done nothing yet. The first call that is due is the
    /// first of the window's creation.
    pub fn new() -> (worker: Worker)
        ensures
            worker@ == WorkerState::initial(),
            worker@.consistent(),
    {
        Worker { phase: WorkerPhase::Creating, window: Window::new() }
    }

    /// What the worker is doing.
    pub fn phase(&self) -> (phase: WorkerPhase)
        ensures
            phase == self@.phase,
    {
        self.phase
    }

    /// The state of the worker's window.
    pub fn window(&self) -> (window: WindowState)
        ensures
            window == self@.window,
    {
        self.window.state()
    }

    /// How the worker ended, once it has.
    pub fn outcome(&self) -> (outcome: Option<Result<i32, ErrorCode>>)
        ensures
            outcome == match self@.phase {
                WorkerPhase::Exited { outcome } => Some(outcome),
                _ => None,
            },
    {
        match self.phase {
            WorkerPhase::Exited { outcome } => Some(outcome),
            _ => None,
        }
    }

    /// The call that is due, if one is.
    pub fn request(&self) -> (request: Option<Request>)
        ensures
            request == self@.request(),
            self@.consistent(),
    {
        proof {
            use_type_invariant(self);
        }
        match self.phase {
            WorkerPhase::Creating | WorkerPhase::Running | WorkerPhase::Closing { .. } => {
                self.window.request()
            },
            WorkerPhase::RegisteringStop => Some(Request::RegisterStopMessage),
            WorkerPhase::Identifying { .. } => Some(Request::GetCurrentThreadId),
            WorkerPhase::Announcing { ready } => Some(Request::Report { report: Ok(ready) }),
            WorkerPhase::Failing { error } => Some(Request::Report { report: Err(error) }),
            WorkerPhase::Exited { .. } => None,
        }
    }

    /// Takes what the call that was due returned, and moves on.
    pub fn resume(&mut self, reply: Reply)
        requires
            old(self)@.request() matches Some(request) && answers(request, reply),
        ensures
            final(self)@ == old(self)@.after(reply),
            final(self)@.consistent(),
    {
        proof {
            use_type_invariant(&*self);
        }
        let mut window = self.window;
        let mut phase = self.phase;
        match self.phase {
            WorkerPhase::Creating => {
                window.resume(reply);
                match window.state() {
                    WindowState::Created { .. } => {
                        phase = WorkerPhase::RegisteringStop;
                    },
                    WindowState::Failed { error } => {
                        phase = WorkerPhase::Failing { error };
                    },
                    _ => {},
                }
            },
            WorkerPhase::RegisteringStop => {
                if let Reply::Identifier { identifier, last_error } = reply {
                    match register_window_message(identifier, last_error) {
                        Ok(stop_message) => {
                            phase = WorkerPhase::Identifying { stop_message };
                        },
                        Err(error) => {
                            window.destroy();
                            phase = WorkerPhase::Closing { outcome: Err(error), announced: false };
                        },
                    }
                }
            },
            WorkerPhase::Identifying { stop_message } => {
                if let Reply::Identifier { identifier, .. } = reply {
                    if let Some(handle) = window.handle() {
                        phase = WorkerPhase::Announcing {
                            ready: WorkerReady { thread_id: identifier, stop_message, window: handle },
                        };
                    }
                }
            },
            WorkerPhase::Announcing { ready } => {
                window.run_event_loop(Some(ready.stop_message));
                phase = WorkerPhase::Running;
            },
            WorkerPhase::Running => {
                window.resume(reply);
                if let WindowState::Created { exit: Some(outcome), .. } = window.state() {
                    window.destroy();
                    phase = WorkerPhase::Closing { outcome, announced: true };
                }
            },
            WorkerPhase::Closing { outcome, announced } => {
                window.resume(reply);
                if let WindowState::Destroyed = window.state() {
                    phase = match outcome {
                        Err(error) => if announced {
                            WorkerPhase::Exited { outcome }
                        } else {
                            WorkerPhase::Failing { error }
                        },
                        Ok(_) => WorkerPhase::Exited { outcome },
                    };
                }
            },
            WorkerPhase::Failing { error } => {
                phase = WorkerPhase::Exited { outcome: Err(error) };
            },
            WorkerPhase::Exited { .. } => {},
        }
        *self = Worker { phase, window };
    }
}

} // verus!
