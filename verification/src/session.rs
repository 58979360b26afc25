//! The trapping session: what the invoking thread does, from the moment it
//! asks for signals to the moment it has given everything back.
//!
//! `begin` installs the console control handler and starts the worker; `end`
//! stops the worker, waits for it, removes the handler and closes the
//! dispatcher, in this order. A start that fails half way is undone before
//! the error is reported. In between, `request` names what is due and
//! `resume` takes what came of it.

use crate::protocol::{answers, Reply, Request, WorkerReady};
use crate::windows::{set_console_ctrl_handler, ErrorCode};
use vstd::prelude::*;

verus! {

/// The states of a session.
#[derive(Clone, Copy, Debug, PartialEq, Eq)]
pub enum SessionState {
    /// Nothing has been asked of the system.
    Idle,
    /// The console control handler is being installed.
    Installing,
    /// The handler is installed; the worker is being started.
    HandlerInstalled,
    /// The worker is started; its report is awaited.
    Starting,
    /// The worker runs its loop: signals are trapped.
    WindowRunning { worker: WorkerReady },
    /// The stop message is being posted to the worker.
    Stopping { worker: WorkerReady },
    /// The end of the worker thread is awaited.
    Joining { outcome: Result<(), ErrorCode> },
    /// The handler is being removed.
    Removing { outcome: Result<(), ErrorCode> },
    /// The dispatcher is being closed.
    Closing { outcome: Result<(), ErrorCode> },
    /// The session has ended as asked. Nothing is left of it.
    Completed,
    /// The session could not start. Nothing is left of it.
    ErrorTornDown { error: ErrorCode },
}

/// What of the process's a session has in use: the handler in the list of
/// console control handlers, the worker thread.
pub struct Footprint {
    pub handler: bool,
    pub worker: bool,
}

impl Footprint {
    /// What is in use once `request` was answered with `reply`. A handler
    /// is in the list once it was added with success, until its removal was
    /// asked for; a worker exists from its start until it was waited for.
    pub open spec fn after(self, request: Request, reply: Reply) -> Footprint {
        match (request, reply) {
            (Request::SetConsoleCtrlHandler { add: true }, Reply::Status { status, .. }) => {
                if status != 0 {
                    Footprint { handler: true, ..self }
                } else {
                    self
                }
            },
            (Request::SetConsoleCtrlHandler { add: false }, Reply::Status { .. }) => Footprint {
                handler: false,
                ..self
            },
            (Request::SpawnWorker, Reply::Done) => Footprint { worker: true, ..self },
            (Request::JoinWorker, Reply::Done) => Footprint { worker: false, ..self },
            _ => self,
        }
    }
}

impl SessionState {
    /// Whether the session is starting: whether `begin` was called and has
    /// neither got the worker running nor given up.
    pub open spec fn is_starting(self) -> bool {
        self is Installing || self is HandlerInstalled || self is Starting
    }

    /// Whether the session is over.
    pub open spec fn is_final(self) -> bool {
        self is Completed || self is ErrorTornDown
    }

    /// How the session went, once it is over.
    pub open spec fn outcome(self) -> Option<Result<(), ErrorCode>> {
        match self {
            SessionState::Completed => Some(Ok(())),
            SessionState::ErrorTornDown { error } => Some(Err(error)),
            _ => None,
        }
    }

    /// What is due in this state, if anything is.
    pub open spec fn request(self) -> Option<Request> {
        match self {
            SessionState::Installing => Some(Request::SetConsoleCtrlHandler { add: true }),
            SessionState::HandlerInstalled => Some(Request::SpawnWorker),
            SessionState::Starting => Some(Request::AwaitWorker),
            SessionState::Stopping { worker } => Some(
                Request::PostThreadMessage {
                    thread_id: worker.thread_id,
                    identifier: worker.stop_message,
                    wparam: 0,
                    lparam: 0,
                },
            ),
            SessionState::Joining { .. } => Some(Request::JoinWorker),
            SessionState::Removing { .. } => Some(Request::SetConsoleCtrlHandler { add: false }),
            SessionState::Closing { .. } => Some(Request::CloseDispatcher),
            _ => None,
        }
    }

    /// The state that follows when what was due came back as `reply`.
    ///
    /// A start goes on while its steps succeed. Where the handler cannot be
    /// installed, nothing but the dispatcher is left to close; where the
    /// worker reports that it could not start, the worker is waited for and
    /// the handler removed. Both end in `ErrorTornDown` with the error of the
    /// step that failed. What posting the stop message and removing the
    /// handler return is not read: the steps that follow are taken whatever
    /// came of them.
    pub open spec fn after(self, reply: Reply) -> SessionState {
        match (self, reply) {
            (SessionState::Installing, Reply::Status { status, last_error }) => if status == 0 {
                SessionState::Closing { outcome: Err(ErrorCode { code: last_error }) }
            } else {
                SessionState::HandlerInstalled
            },
            (SessionState::HandlerInstalled, Reply::Done) => SessionState::Starting,
            (SessionState::Starting, Reply::Worker { report }) => match report {
                Ok(worker) => SessionState::WindowRunning { worker },
                Err(error) => SessionState::Joining { outcome: Err(error) },
            },
            (SessionState::Stopping { .. }, Reply::Status { .. }) => SessionState::Joining {
                outcome: Ok(()),
            },
            (SessionState::Joining { outcome }, Reply::Done) => SessionState::Removing { outcome },
            (SessionState::Removing { outcome }, Reply::Status { .. }) => SessionState::Closing {
                outcome,
            },
            (SessionState::Closing { outcome }, Reply::Done) => match outcome {
                Ok(_) => SessionState::Completed,
                Err(error) => SessionState::ErrorTornDown { error },
            },
            _ => self,
        }
    }

    /// The state in which an idle session starts.
    pub open spec fn beginning(self) -> SessionState {
        match self {
            SessionState::Idle => SessionState::Installing,
            _ => self,
        }
    }

    /// The state in which a session ends. A session that traps signals
    /// starts to stop its worker; one that never began has only its
    /// dispatcher to close; one that is ending or over stays as it is.
    pub open spec fn ending(self) -> SessionState {
        match self {
            SessionState::WindowRunning { worker } => SessionState::Stopping { worker },
            SessionState::Idle => SessionState::Closing { outcome: Ok(()) },
            _ => self,
        }
    }

    /// What the session has in use in this state.
    pub open spec fn footprint(self) -> Footprint {
        Footprint {
            handler: match self {
                SessionState::HandlerInstalled
                | SessionState::Starting
                | SessionState::WindowRunning { .. }
                | SessionState::Stopping { .. }
                | SessionState::Joining { .. }
                | SessionState::Removing { .. } => true,
                _ => false,
            },
            worker: match self {
                SessionState::Starting
                | SessionState::WindowRunning { .. }
                | SessionState::Stopping { .. }
                | SessionState::Joining { .. } => true,
                _ => false,
            },
        }
    }

    /// At most how many more steps the session takes before it rests.
    pub open spec fn steps_left(self) -> nat {
        match self {
            SessionState::Installing => 6,
            SessionState::HandlerInstalled => 5,
            SessionState::Starting => 4,
            SessionState::Stopping { .. } => 4,
            SessionState::Joining { .. } => 3,
            SessionState::Removing { .. } => 2,
            SessionState::Closing { .. } => 1,
            _ => 0,
        }
    }
}

/// What moves a session on: the two calls of its user, and the answers to
/// what it asked for.
pub enum Move {
    /// The user called `begin`.
    Begin,
    /// The user called `end`.
    End,
    /// What was due came back with this reply.
    Answer(Reply),
}

impl SessionState {
    /// Whether `step` may be taken in this state: an idle session may begin,
    /// a session that is not starting may end, and an answer must answer what
    /// is due.
    pub open spec fn allows(self, step: Move) -> bool {
        match step {
            Move::Begin => self is Idle,
            Move::End => !self.is_starting(),
            Move::Answer(reply) => self.request() matches Some(request) && answers(request, reply),
        }
    }

    /// The state after `step`.
    pub open spec fn moved(self, step: Move) -> SessionState {
        match step {
            Move::Begin => self.beginning(),
            Move::End => self.ending(),
            Move::Answer(reply) => self.after(reply),
        }
    }

    /// The state after `steps`, taken one after the other.
    pub open spec fn run(self, steps: Seq<Move>) -> SessionState
        decreases steps.len(),
    {
        if steps.len() == 0 {
            self
        } else {
            self.run(steps.drop_last()).moved(steps.last())
        }
    }

    /// Whether each of `steps` may be taken when its turn comes.
    pub open spec fn allows_all(self, steps: Seq<Move>) -> bool
        decreases steps.len(),
    {
        steps.len() == 0 || (self.allows_all(steps.drop_last()) && self.run(
            steps.drop_last(),
        ).allows(steps.last()))
    }

    /// What the process has in use after `steps`, going by what the system
    /// answered on the way.
    pub open spec fn in_use(self, steps: Seq<Move>) -> Footprint
        decreases steps.len(),
    {
        if steps.len() == 0 {
            self.footprint()
        } else {
            let before = self.in_use(steps.drop_last());
            match (steps.last(), self.run(steps.drop_last()).request()) {
                (Move::Answer(reply), Some(request)) => before.after(request, reply),
                _ => before,
            }
        }
    }
}

/// Every session leaves the process as it found it. However a session goes,
/// whatever the system answers and whenever its user ends it, what the
/// session takes to be in use is what is in use; and once the session is
/// over, nothing is: no handler is left in the list, no worker left running.
pub proof fn lemma_session_gives_everything_back(steps: Seq<Move>)
    requires
        SessionState::Idle.allows_all(steps),
    ensures
        SessionState::Idle.run(steps).footprint() == SessionState::Idle.in_use(steps),
        SessionState::Idle.run(steps).is_final() ==> SessionState::Idle.in_use(steps) == (Footprint {
            handler: false,
            worker: false,
        }),
    decreases steps.len(),
{
    if steps.len() > 0 {
        lemma_session_gives_everything_back(steps.drop_last());
        let before = SessionState::Idle.run(steps.drop_last());
        match steps.last() {
            Move::Answer(reply) => {
                lemma_session_keeps_books(before, reply);
            },
            _ => {},
        }
    }
}

/// The session keeps exact books, and keeps to the order of its steps. What
/// it has in use after a step is what it had before, changed by what that
/// step did. It installs the handler only while none of its own is installed,
/// starts the worker only behind an installed handler, and removes the
/// handler only once the worker has ended.
pub proof fn lemma_session_keeps_books(state: SessionState, reply: Reply)
    requires
        state.request() matches Some(request) && answers(request, reply),
    ensures
        state.after(reply).footprint() == state.footprint().after(state.request()->0, reply),
        state.request() == Some(Request::SetConsoleCtrlHandler { add: true })
            ==> !state.footprint().handler && !state.footprint().worker,
        state.request() == Some(Request::SpawnWorker) ==> state.footprint().handler
            && !state.footprint().worker,
        state.request() == Some(Request::JoinWorker) ==> state.footprint().worker,
        state.request() == Some(Request::SetConsoleCtrlHandler { add: false })
            ==> state.footprint().handler && !state.footprint().worker,
        state.request() == Some(Request::CloseDispatcher) ==> !state.footprint().handler
            && !state.footprint().worker,
{
}

/// A session that is over has nothing in use, as one that never began: no
/// handler is left in the list and no worker is left running, so the next
/// session finds the process as the first one found it.
pub proof fn lemma_session_leaves_nothing(state: SessionState)
    requires
        state.is_final() || state is Idle,
    ensures
        state.footprint() == (Footprint { handler: false, worker: false }),
        state.request() is None,
{
}

/// Every step brings the session nearer to rest: it rests exactly where no
/// step is left, and each answer leaves fewer steps than there were.
pub proof fn lemma_session_comes_to_rest(state: SessionState, reply: Reply)
    ensures
        state.request() is None <==> state.steps_left() == 0,
        state.request() matches Some(request) && answers(request, reply) ==> state.after(
            reply,
        ).steps_left() < state.steps_left(),
        state.request() is None ==> state.is_final() || state is Idle || state is WindowRunning,
{
}

/// Ending twice is ending once. To end a session that is ending or over
/// changes nothing and asks for nothing more.
pub proof fn lemma_end_is_idempotent(state: SessionState)
    requires
        !state.is_starting(),
    ensures
        state.ending().ending() == state.ending(),
        !state.ending().is_starting(),
        state.is_final() ==> state.ending() == state && state.ending().request() is None,
{
}

/// Ending a session that traps signals gives everything back, in order:
/// the stop message is posted to the worker's thread, the thread is waited
/// for, the handler is removed and the dispatcher closed. Whatever posting
/// and removing return, the session is then `Completed`.
pub proof fn lemma_end_tears_everything_down(worker: WorkerReady, posted: Reply, removed: Reply)
    requires
        posted is Status,
        removed is Status,
    ensures
        ({
            let stopping = (SessionState::WindowRunning { worker }).ending();
            let joining = stopping.after(posted);
            let removing = joining.after(Reply::Done);
            let closing = removing.after(removed);
            &&& stopping.request() == Some(
                Request::PostThreadMessage {
                    thread_id: worker.thread_id,
                    identifier: worker.stop_message,
                    wparam: 0,
                    lparam: 0,
                },
            )
            &&& joining.request() == Some(Request::JoinWorker)
            &&& removing.request() == Some(Request::SetConsoleCtrlHandler { add: false })
            &&& closing.request() == Some(Request::CloseDispatcher)
            &&& closing.after(Reply::Done) == SessionState::Completed
        }),
{
}

/// A start that fails is undone before the error is reported. Where the
/// worker reports that it could not start, the session waits for it, removes
/// the handler, closes the dispatcher and ends in `ErrorTornDown` with the
/// worker's error. Where the handler itself could not be installed, no worker
/// is started and no handler removed: the dispatcher is closed, and the
/// session ends with the error of the installation.
pub proof fn lemma_failed_start_is_undone(error: ErrorCode, removed: Reply)
    requires
        removed is Status,
    ensures
        ({
            let joining = SessionState::Starting.after(Reply::Worker { report: Err(error) });
            let removing = joining.after(Reply::Done);
            let closing = removing.after(removed);
            &&& joining.request() == Some(Request::JoinWorker)
            &&& removing.request() == Some(Request::SetConsoleCtrlHandler { add: false })
            &&& closing.request() == Some(Request::CloseDispatcher)
            &&& closing.after(Reply::Done) == SessionState::ErrorTornDown { error }
        }),
        ({
            let closing = SessionState::Installing.after(
                Reply::Status { status: 0, last_error: error.code },
            );
            &&& closing.request() == Some(Request::CloseDispatcher)
            &&& closing.after(Reply::Done) == SessionState::ErrorTornDown { error }
        }),
{
}

/// A session.
#[derive(Clone, Copy, Debug)]
pub struct TrapSession {
    state: SessionState,
}

impl View for TrapSession {
    type V = SessionState;

    closed spec fn view(&self) -> SessionState {
        self.state
    }
}

impl TrapSession {
    /// An idle session.
    pub fn new() -> (session: TrapSession)
        ensures
            session@ == SessionState::Idle,
    {
        TrapSession { state: SessionState::Idle }
    }

    /// The state of the session.
    pub fn state(&self) -> (state: SessionState)
        ensures
            state == self@,
    {
        self.state
    }

    /// How the session went, once it is over: well, or with the error that
    /// kept it from starting.
    pub fn outcome(&self) -> (outcome: Option<Result<(), ErrorCode>>)
        ensures
            outcome == self@.outcome(),
    {
        match self.state {
            SessionState::Completed => Some(Ok(())),
            SessionState::ErrorTornDown { error } => Some(Err(error)),
            _ => None,
        }
    }

    /// How to reach the worker, while it runs.
    pub fn worker(&self) -> (worker: Option<WorkerReady>)
        ensures
            worker == match self@ {
                SessionState::WindowRunning { worker } => Some(worker),
                _ => None,
            },
    {
        match self.state {
            SessionState::WindowRunning { worker } => Some(worker),
            _ => None,
        }
    }

    /// Tells whether the session is starting, which is when it cannot be
    /// told to end.
    pub fn is_starting(&self) -> (starting: bool)
        ensures
            starting == self@.is_starting(),
    {
        match self.state {
            SessionState::Installing | SessionState::HandlerInstalled | SessionState::Starting => {
                true
            },
            _ => false,
        }
    }

    /// Starts an idle session. What is due first is the installation of the
    /// console control handler.
    pub fn begin(&mut self)
        requires
            old(self)@ is Idle,
        ensures
            final(self)@ == old(self)@.beginning(),
    {
        self.state = SessionState::Installing;
    }

    /// Ends the session. Ending a session that is ending or over changes
    /// nothing.
    pub fn end(&mut self)
        requires
            !old(self)@.is_starting(),
        ensures
            final(self)@ == old(self)@.ending(),
    {
        match self.state {
            SessionState::WindowRunning { worker } => {
                self.state = SessionState::Stopping { worker };
            },
            SessionState::Idle => {
                self.state = SessionState::Closing { outcome: Ok(()) };
            },
            _ => {},
        }
    }

    /// What is due, if anything is.
    pub fn request(&self) -> (request: Option<Request>)
        ensures
            request == self@.request(),
    {
        match self.state {
            SessionState::Installing => Some(Request::SetConsoleCtrlHandler { add: true }),
            SessionState::HandlerInstalled => Some(Request::SpawnWorker),
            SessionState::Starting => Some(Request::AwaitWorker),
            SessionState::Stopping { worker } => Some(
                Request::PostThreadMessage {
                    thread_id: worker.thread_id,
                    identifier: worker.stop_message,
                    wparam: 0,
                    lparam: 0,
                },
            ),
            SessionState::Joining { .. } => Some(Request::JoinWorker),
            SessionState::Removing { .. } => Some(Request::SetConsoleCtrlHandler { add: false }),
            SessionState::Closing { .. } => Some(Request::CloseDispatcher),
            _ => None,
        }
    }

    /// Takes what came of the step that was due, and moves on.
    pub fn resume(&mut self, reply: Reply)
        requires
            old(self)@.request() matches Some(request) && answers(request, reply),
        ensures
            final(self)@ == old(self)@.after(reply),
    {
        let next = match self.state {
            SessionState::Installing => match reply {
                Reply::Status { status, last_error } => match set_console_ctrl_handler(
                    status,
                    last_error,
                ) {
                    Ok(_) => SessionState::HandlerInstalled,
                    Err(error) => SessionState::Closing { outcome: Err(error) },
                },
                _ => self.state,
            },
            SessionState::HandlerInstalled => SessionState::Starting,
            SessionState::Starting => match reply {
                Reply::Worker { report } => match report {
                    Ok(worker) => SessionState::WindowRunning { worker },
                    Err(error) => SessionState::Joining { outcome: Err(error) },
                },
                _ => self.state,
            },
            SessionState::Stopping { .. } => SessionState::Joining { outcome: Ok(()) },
            SessionState::Joining { outcome } => SessionState::Removing { outcome },
            SessionState::Removing { outcome } => SessionState::Closing { outcome },
            SessionState::Closing { outcome } => match outcome {
                Ok(_) => SessionState::Completed,
                Err(error) => SessionState::ErrorTornDown { error },
            },
            _ => self.state,
        };
        self.state = next;
    }
}

} // verus!
