use vstd::prelude::*;

verus! {

/// The port that the service listens on, on every IPv4 interface.
pub const LISTEN_PORT: u16 = 3000;

/// Why the service stopped before or while serving.
#[derive(Debug, Clone)]
pub enum StartupError {
    /// `DATABASE_URL` is not set.
    MissingDatabaseUrl,
    /// The database could not be reached; the driver's error text.
    DatabaseUnreachable(String),
    /// The listening socket could not be opened; the error text.
    BindFailed(String),
    /// Serving stopped with an error; the error text.
    ServeFailed(String),
}

impl StartupError {
    /// The fixed sentence that heads the report of this error.
    pub open spec fn spec_headline(&self) -> Seq<char> {
        match self {
            StartupError::MissingDatabaseUrl => "DATABASE_URL should be set"@,
            StartupError::DatabaseUnreachable(_) => "Database should be running"@,
            StartupError::BindFailed(_) => "Listening socket should open"@,
            StartupError::ServeFailed(_) => "Server should keep running"@,
        }
    }

    /// The fixed sentence that heads the report of this error.
    pub fn headline(&self) -> (r: &'static str)
        ensures
            r@ == self.spec_headline(),
    {
        match self {
            StartupError::MissingDatabaseUrl => "DATABASE_URL should be set",
            StartupError::DatabaseUnreachable(_) => "Database should be running",
            StartupError::BindFailed(_) => "Listening socket should open",
            StartupError::ServeFailed(_) => "Server should keep running",
        }
    }
}

/// Where start-up stands.
#[derive(Debug, Clone, Copy, PartialEq, Eq, Structural)]
pub enum Phase {
    /// Waiting for the value of `DATABASE_URL`.
    ReadingConfig,
    /// Waiting for the connection pool to open.
    Connecting,
    /// Waiting for the listening socket.
    Binding,
    /// Serving requests.
    Serving,
    /// Done, by success or by a fatal error.
    Stopped,
}

/// What the runtime reports back after carrying out an action.
#[derive(Debug)]
pub enum BootEvent {
    /// The value of `DATABASE_URL`, if it is set.
    ConfigRead(Option<String>),
    /// The pool opened, or the driver's error text.
    PoolOpened(Result<(), String>),
    /// The socket is bound, or the error text.
    Bound(Result<(), String>),
    /// Serving ended, cleanly or with the error text.
    Served(Result<(), String>),
}

/// What the runtime is to do next.
#[derive(Debug, Clone)]
pub enum BootAction {
    /// Open a connection pool to the database at this URL.
    OpenPool(String),
    /// Bind a listening socket on every IPv4 interface, on this port.
    Bind(u16),
    /// Serve the routes on the bound socket with the open pool.
    Serve,
    /// End the process with a success status.
    Finish,
    /// End the process with a failure status, reporting this error.
    Exit(StartupError),
    /// Nothing: the event does not belong to the current phase.
    Ignore,
}

/// The next phase and action of start-up, given the current phase and the
/// event that came in. Any missing setting or failed step is fatal, with no
/// retry; an event that does not belong to the phase changes nothing.
pub open spec fn boot_transition(phase: Phase, event: BootEvent) -> (Phase, BootAction) {
    match (phase, event) {
        (Phase::ReadingConfig, BootEvent::ConfigRead(None)) =>
            (Phase::Stopped, BootAction::Exit(StartupError::MissingDatabaseUrl)),
        (Phase::ReadingConfig, BootEvent::ConfigRead(Some(url))) =>
            (Phase::Connecting, BootAction::OpenPool(url)),
        (Phase::Connecting, BootEvent::PoolOpened(Err(e))) =>
            (Phase::Stopped, BootAction::Exit(StartupError::DatabaseUnreachable(e))),
        (Phase::Connecting, BootEvent::PoolOpened(Ok(()))) =>
            (Phase::Binding, BootAction::Bind(LISTEN_PORT)),
        (Phase::Binding, BootEvent::Bound(Err(e))) =>
            (Phase::Stopped, BootAction::Exit(StartupError::BindFailed(e))),
        (Phase::Binding, BootEvent::Bound(Ok(()))) => (Phase::Serving, BootAction::Serve),
        (Phase::Serving, BootEvent::Served(Err(e))) =>
            (Phase::Stopped, BootAction::Exit(StartupError::ServeFailed(e))),
        (Phase::Serving, BootEvent::Served(Ok(()))) => (Phase::Stopped, BootAction::Finish),
        _ => (phase, BootAction::Ignore),
    }
}

/// One step of start-up: the next phase and the action for the runtime.
pub fn boot_step(phase: Phase, event: BootEvent) -> (r: (Phase, BootAction))
    ensures
        r == boot_transition(phase, event),
{
    match (phase, event) {
        (Phase::ReadingConfig, BootEvent::ConfigRead(None)) => (
            Phase::Stopped,
            BootAction::Exit(StartupError::MissingDatabaseUrl),
        ),
        (Phase::ReadingConfig, BootEvent::ConfigRead(Some(url))) => (
            Phase::Connecting,
            BootAction::OpenPool(url),
        ),
        (Phase::Connecting, BootEvent::PoolOpened(Err(e))) => (
            Phase::Stopped,
            BootAction::Exit(StartupError::DatabaseUnreachable(e)),
        ),
        (Phase::Connecting, BootEvent::PoolOpened(Ok(()))) => (
            Phase::Binding,
            BootAction::Bind(LISTEN_PORT),
        ),
        (Phase::Binding, BootEvent::Bound(Err(e))) => (
            Phase::Stopped,
            BootAction::Exit(StartupError::BindFailed(e)),
        ),
        (Phase::Binding, BootEvent::Bound(Ok(()))) => (Phase::Serving, BootAction::Serve),
        (Phase::Serving, BootEvent::Served(Err(e))) => (
            Phase::Stopped,
            BootAction::Exit(StartupError::ServeFailed(e)),
        ),
        (Phase::Serving, BootEvent::Served(Ok(()))) => (Phase::Stopped, BootAction::Finish),
        (p, _) => (p, BootAction::Ignore),
    }
}

/// The actions that start-up takes from `phase` on, event by event.
pub open spec fn boot_actions(phase: Phase, events: Seq<BootEvent>) -> Seq<BootAction>
    decreases events.len(),
{
    if events.len() == 0 {
        Seq::empty()
    } else {
        let (next, action) = boot_transition(phase, events[0]);
        seq![action] + boot_actions(next, events.drop_first())
    }
}

/// Whether an action opens the listening socket or serves on it.
pub open spec fn listens(action: BootAction) -> bool {
    action is Bind || action is Serve
}

/// Once stopped, start-up takes no further action.
pub proof fn lemma_stopped_stays_idle(events: Seq<BootEvent>)
    ensures
        boot_actions(Phase::Stopped, events).len() == events.len(),
        forall|i: int|
            0 <= i < events.len() ==> #[trigger] boot_actions(Phase::Stopped, events)[i] is Ignore,
    decreases events.len(),
{
    if events.len() > 0 {
        lemma_stopped_stays_idle(events.drop_first());
        let tail = boot_actions(Phase::Stopped, events.drop_first());
        assert forall|i: int| 0 <= i < events.len() implies #[trigger] boot_actions(
            Phase::Stopped,
            events,
        )[i] is Ignore by {
            if i > 0 {
                assert(boot_actions(Phase::Stopped, events)[i] == tail[i - 1]);
            }
        }
    }
}

/// Without `DATABASE_URL` the service never binds a socket nor serves: the
/// first action ends the process with that error, whatever events follow.
pub proof fn lemma_missing_url_never_listens(events: Seq<BootEvent>)
    requires
        events.len() > 0,
        events[0] == BootEvent::ConfigRead(None),
    ensures
        boot_actions(Phase::ReadingConfig, events)[0] == BootAction::Exit(
            StartupError::MissingDatabaseUrl,
        ),
        forall|i: int|
            0 <= i < events.len() ==> !listens(
                #[trigger] boot_actions(Phase::ReadingConfig, events)[i],
            ),
{
    lemma_stopped_stays_idle(events.drop_first());
    let all = boot_actions(Phase::ReadingConfig, events);
    let tail = boot_actions(Phase::Stopped, events.drop_first());
    assert(all == seq![BootAction::Exit(StartupError::MissingDatabaseUrl)] + tail);
    assert forall|i: int| 0 <= i < events.len() implies !listens(#[trigger] all[i]) by {
        if i > 0 {
            assert(all[i] == tail[i - 1]);
        }
    }
}

} // verus!
