//! The lifecycle of one connection: connecting, open, closed. Opening puts
//! the connection in the registry and closing takes it out, once.
use vstd::prelude::*;
use crate::events::ServerEvent;
use crate::server::Supervisor;

verus! {

/// Where a connection is in its lifecycle.
#[derive(Debug, PartialEq, Eq, Structural, Clone, Copy)]
pub enum ConnectionPhase {
    Connecting,
    Open,
    Closed,
}

/// One connection of run `run`, known to the registry as `id`, with the
/// remote address if it could be resolved.
pub struct ConnectionHandler {
    run: u64,
    id: u64,
    phase: ConnectionPhase,
    address: Option<String>,
}

impl ConnectionHandler {
    pub closed spec fn run(&self) -> u64 {
        self.run
    }

    pub closed spec fn id(&self) -> u64 {
        self.id
    }

    pub closed spec fn phase(&self) -> ConnectionPhase {
        self.phase
    }

    pub closed spec fn address(&self) -> Option<String> {
        self.address
    }

    /// A connection of run `run` that has not finished its handshake.
    pub fn new(run: u64, id: u64) -> (r: ConnectionHandler)
        ensures
            r.run() == run,
            r.id() == id,
            r.phase() == ConnectionPhase::Connecting,
            r.address() == None::<String>,
    {
        ConnectionHandler { run, id, phase: ConnectionPhase::Connecting, address: None }
    }

    /// The phase the connection is in.
    pub fn current_phase(&self) -> (r: ConnectionPhase)
        ensures
            r == self.phase(),
    {
        self.phase
    }

    /// The handshake is done; `address` is the remote address, or `None`
    /// where it could not be resolved, which does not keep the connection
    /// from opening. The connection joins the registry. Only the first open
    /// counts.
    pub fn on_open(&mut self, address: Option<String>, server: &mut Supervisor) -> (e: Option<
        ServerEvent,
    >)
        requires
            old(server).wf(),
        ensures
            final(self).run() == old(self).run(),
            final(self).id() == old(self).id(),
            old(self).phase() == ConnectionPhase::Connecting ==> {
                &&& final(self).phase() == ConnectionPhase::Open
                &&& final(self).address() == address
                &&& e == Some(ServerEvent::ConnectionOpened { address })
                &&& Supervisor::client_opened_post(
                    *old(server),
                    *final(server),
                    old(self).run(),
                    old(self).id(),
                )
            },
            old(self).phase() != ConnectionPhase::Connecting ==> {
                &&& *final(self) == *old(self)
                &&& *final(server) == *old(server)
                &&& e == None::<ServerEvent>
            },
    {
        if self.phase != ConnectionPhase::Connecting {
            return None;
        }
        server.client_opened(self.run, self.id);
        self.phase = ConnectionPhase::Open;
        self.address = address.clone();
        Some(ServerEvent::ConnectionOpened { address })
    }

    /// A text message arrived; nothing changes.
    pub fn on_message(&self, text: String) -> (e: ServerEvent)
        ensures
            e == (ServerEvent::MessageReceived { address: self.address(), text }),
    {
        ServerEvent::MessageReceived { address: self.address.clone(), text }
    }

    /// The connection closed with `code` and `reason`, by the peer or on an
    /// error. It leaves the registry and is closed for good; a second close
    /// changes nothing.
    pub fn on_close(&mut self, code: u16, reason: String, server: &mut Supervisor) -> (e: Option<
        ServerEvent,
    >)
        requires
            old(server).wf(),
        ensures
            final(self).run() == old(self).run(),
            final(self).id() == old(self).id(),
            final(self).phase() == ConnectionPhase::Closed,
            final(self).address() == old(self).address(),
            old(self).phase() != ConnectionPhase::Closed ==> {
                &&& e == Some(
                    ServerEvent::ConnectionClosed { address: old(self).address(), code, reason },
                )
                &&& Supervisor::client_closed_post(
                    *old(server),
                    *final(server),
                    old(self).run(),
                    old(self).id(),
                )
            },
            old(self).phase() == ConnectionPhase::Closed ==> {
                &&& *final(server) == *old(server)
                &&& e == None::<ServerEvent>
            },
    {
        if self.phase == ConnectionPhase::Closed {
            return None;
        }
        server.client_closed(self.run, self.id);
        self.phase = ConnectionPhase::Closed;
        Some(ServerEvent::ConnectionClosed { address: self.address.clone(), code, reason })
    }
}

} // verus!
