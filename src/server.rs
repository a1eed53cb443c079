//! The single server of the process: stopped, or running on a port with a
//! registry of open connections. Each start begins a new run, and events of
//! connections that belong to another run are ignored.
use vstd::prelude::*;
use crate::registry::ConnectionRegistry;

verus! {

/// Why a command from the host was refused.
#[derive(Debug)]
pub enum CommandError {
    /// A server is running already; it is left as it was.
    AlreadyRunning,
    /// A broadcast was asked for while no server runs.
    NotRunning,
    /// A broadcast was asked for while no connection is open.
    NoClients,
    /// Sending to `client` failed with `cause`; later clients were not tried.
    SendFailed { client: u64, cause: String },
}

/// The text the host shows for an error.
pub open spec fn error_text(e: CommandError) -> Seq<char> {
    match e {
        CommandError::AlreadyRunning => "server already running"@,
        CommandError::NotRunning => "server not running"@,
        CommandError::NoClients => "no connected clients"@,
        CommandError::SendFailed { client, cause } => "send failed: "@ + cause@,
    }
}

impl CommandError {
    /// The text the host shows for this error.
    pub fn message(&self) -> (r: String)
        ensures
            r@ == error_text(*self),
    {
        match self {
            CommandError::AlreadyRunning => String::from_str("server already running"),
            CommandError::NotRunning => String::from_str("server not running"),
            CommandError::NoClients => String::from_str("no connected clients"),
            CommandError::SendFailed { client, cause } => {
                let mut r = String::from_str("send failed: ");
                r.append(cause.as_str());
                r
            },
        }
    }
}

/// Whether a server runs, and if so on which port, in which run, with which
/// connections open.
pub enum ServerState {
    Stopped,
    Running { port: u16, run: u64, registry: ConnectionRegistry },
}

/// Owns the server state; at most one server runs at a time.
pub struct Supervisor {
    state: ServerState,
    next_run: u64,
}

impl Supervisor {
    /// A running server's registry has no duplicates.
    pub open spec fn wf(&self) -> bool {
        match self.state() {
            ServerState::Running { registry, .. } => registry.wf(),
            ServerState::Stopped => true,
        }
    }

    pub closed spec fn state(&self) -> ServerState {
        self.state
    }

    /// The number the next start gives its run.
    pub closed spec fn next_run(&self) -> u64 {
        self.next_run
    }

    pub open spec fn is_running(&self) -> bool {
        self.state() is Running
    }

    /// The running server's port.
    pub open spec fn port(&self) -> u16 {
        self.state()->Running_port
    }

    /// The running server's run number.
    pub open spec fn run(&self) -> u64 {
        self.state()->Running_run
    }

    /// The open connections of the running server; none while stopped.
    pub open spec fn members(&self) -> Set<u64> {
        match self.state() {
            ServerState::Running { registry, .. } => registry@,
            ServerState::Stopped => Set::empty(),
        }
    }

    /// The order in which a broadcast tries the open connections.
    pub open spec fn order(&self) -> Seq<u64> {
        match self.state() {
            ServerState::Running { registry, .. } => registry.order(),
            ServerState::Stopped => Seq::empty(),
        }
    }

    /// Whether an event of run `run` concerns the running server.
    pub open spec fn is_current(&self, run: u64) -> bool {
        self.is_running() && self.run() == run
    }

    /// What `start(port)` does from `before`: it refuses while a server
    /// runs and changes nothing, and otherwise begins a new run on `port`
    /// with no connection open.
    pub open spec fn start_post(
        before: Supervisor,
        after: Supervisor,
        port: u16,
        r: Result<u64, CommandError>,
    ) -> bool {
        if before.is_running() {
            r == Err::<u64, CommandError>(CommandError::AlreadyRunning) && after == before
        } else {
            &&& r == Ok::<u64, CommandError>(before.next_run())
            &&& after.is_running()
            &&& after.port() == port
            &&& after.run() == before.next_run()
            &&& after.next_run() == before.next_run().wrapping_add(1)
            &&& after.members() == Set::<u64>::empty()
            &&& after.order() == Seq::<u64>::empty()
            &&& after.wf()
        }
    }

    /// What the open of connection `h` in run `run` does: in the run in
    /// progress it joins the registry; otherwise nothing changes.
    pub open spec fn client_opened_post(before: Supervisor, after: Supervisor, run: u64, h: u64) -> bool {
        &&& after.wf()
        &&& after.is_running() == before.is_running()
        &&& after.next_run() == before.next_run()
        &&& before.is_running() ==> after.port() == before.port() && after.run() == before.run()
        &&& before.is_current(run) ==> after.members() == before.members().insert(h)
        &&& !before.is_current(run) ==> after == before
    }

    /// What the close of connection `h` in run `run` does: in the run in
    /// progress it leaves the registry; otherwise nothing changes.
    pub open spec fn client_closed_post(before: Supervisor, after: Supervisor, run: u64, h: u64) -> bool {
        &&& after.wf()
        &&& after.is_running() == before.is_running()
        &&& after.next_run() == before.next_run()
        &&& before.is_running() ==> after.port() == before.port() && after.run() == before.run()
        &&& before.is_current(run) ==> after.members() == before.members().remove(h)
        &&& !before.is_current(run) ==> after == before
    }

    /// A stopped supervisor whose first run will be numbered 0.
    pub fn new() -> (r: Supervisor)
        ensures
            r.wf(),
            !r.is_running(),
            r.next_run() == 0,
    {
        Supervisor { state: ServerState::Stopped, next_run: 0 }
    }

    /// Starts a server on `port` unless one runs; returns the new run's number.
    pub fn start(&mut self, port: u16) -> (r: Result<u64, CommandError>)
        ensures
            Supervisor::start_post(*old(self), *final(self), port, r),
    {
        if let ServerState::Running { .. } = &self.state {
            return Err(CommandError::AlreadyRunning);
        }
        let run = self.next_run;
        let registry = ConnectionRegistry::new();
        proof {
            registry.lemma_size();
        }
        self.state = ServerState::Running { port, run, registry };
        self.next_run = self.next_run.wrapping_add(1);
        Ok(run)
    }

    /// Stops the server, whatever run it is in, and discards its registry.
    /// Returns whether one was running.
    pub fn stop(&mut self) -> (was_running: bool)
        ensures
            was_running == old(self).is_running(),
            !final(self).is_running(),
            final(self).wf(),
            final(self).next_run() == old(self).next_run(),
    {
        let was_running = self.running();
        self.state = ServerState::Stopped;
        was_running
    }

    /// The listener of run `run` has ended, cleanly or on an error: that run
    /// stops. The end of an earlier run changes nothing. Returns whether the
    /// server stopped.
    pub fn listener_ended(&mut self, run: u64) -> (stopped: bool)
        requires
            old(self).wf(),
        ensures
            stopped == old(self).is_current(run),
            stopped ==> !final(self).is_running() && final(self).next_run() == old(self).next_run(),
            !stopped ==> *final(self) == *old(self),
            final(self).wf(),
    {
        if self.current(run) {
            self.state = ServerState::Stopped;
            true
        } else {
            false
        }
    }

    /// Whether a server runs.
    pub fn running(&self) -> (r: bool)
        ensures
            r == self.is_running(),
    {
        match &self.state {
            ServerState::Running { .. } => true,
            ServerState::Stopped => false,
        }
    }

    /// Whether run `run` is the one in progress.
    pub fn current(&self, run: u64) -> (r: bool)
        ensures
            r == self.is_current(run),
    {
        match &self.state {
            ServerState::Running { run: current, .. } => *current == run,
            ServerState::Stopped => false,
        }
    }

    /// The running server's port.
    pub fn running_port(&self) -> (r: Option<u16>)
        ensures
            r == if self.is_running() { Some(self.port()) } else { None::<u16> },
    {
        match &self.state {
            ServerState::Running { port, .. } => Some(*port),
            ServerState::Stopped => None,
        }
    }

    /// The number of open connections; 0 while stopped.
    pub fn client_count(&self) -> (r: usize)
        requires
            self.wf(),
        ensures
            r == self.members().len(),
    {
        match &self.state {
            ServerState::Running { registry, .. } => registry.len(),
            ServerState::Stopped => 0,
        }
    }

    /// Connection `h` of run `run` has opened: it joins the registry if that
    /// run is in progress. Returns whether it was added.
    pub fn client_opened(&mut self, run: u64, h: u64) -> (added: bool)
        requires
            old(self).wf(),
        ensures
            Supervisor::client_opened_post(*old(self), *final(self), run, h),
            added == (old(self).is_current(run) && !old(self).members().contains(h)),
    {
        match &mut self.state {
            ServerState::Running { run: current, registry, .. } => {
                if *current == run {
                    registry.add(h)
                } else {
                    false
                }
            },
            ServerState::Stopped => false,
        }
    }

    /// Connection `h` of run `run` has closed: it leaves the registry if that
    /// run is in progress. Returns whether it was removed.
    pub fn client_closed(&mut self, run: u64, h: u64) -> (removed: bool)
        requires
            old(self).wf(),
        ensures
            Supervisor::client_closed_post(*old(self), *final(self), run, h),
            removed == (old(self).is_current(run) && old(self).members().contains(h)),
    {
        match &mut self.state {
            ServerState::Running { run: current, registry, .. } => {
                if *current == run {
                    registry.remove(h)
                } else {
                    false
                }
            },
            ServerState::Stopped => false,
        }
    }

    /// The connections a broadcast is to reach, in the order it tries them:
    /// `NotRunning` while stopped, `NoClients` when none is open.
    pub fn broadcast_targets(&self) -> (r: Result<Vec<u64>, CommandError>)
        requires
            self.wf(),
        ensures
            !self.is_running() ==> r == Err::<Vec<u64>, CommandError>(CommandError::NotRunning),
            self.is_running() && self.members().len() == 0 ==> r == Err::<Vec<u64>, CommandError>(
                CommandError::NoClients,
            ),
            self.is_running() && self.members().len() > 0 ==> r is Ok,
            r is Ok ==> r->Ok_0@ == self.order() && r->Ok_0@.no_duplicates()
                && r->Ok_0@.to_set() == self.members() && r->Ok_0@.len() == self.members().len(),
    {
        match &self.state {
            ServerState::Running { registry, .. } => {
                if registry.is_empty() {
                    Err(CommandError::NoClients)
                } else {
                    Ok(registry.snapshot())
                }
            },
            ServerState::Stopped => Err(CommandError::NotRunning),
        }
    }
}

/// Starting twice in a row: the second start is refused with
/// `AlreadyRunning` and leaves the first run, its port and its registry as
/// they were.
pub proof fn lemma_second_start_refused(
    s0: Supervisor,
    s1: Supervisor,
    s2: Supervisor,
    p1: u16,
    p2: u16,
    r1: Result<u64, CommandError>,
    r2: Result<u64, CommandError>,
)
    requires
        Supervisor::start_post(s0, s1, p1, r1),
        Supervisor::start_post(s1, s2, p2, r2),
    ensures
        s1.is_running(),
        r2 == Err::<u64, CommandError>(CommandError::AlreadyRunning),
        s2 == s1,
        s2.members() == s1.members(),
{
}

} // verus!
