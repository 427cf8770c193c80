use crate::address::SocketAddress;
use crate::event_loop_thread_pool::EventLoopThreadPool;
use crate::interest::Interest;
use crate::tcp_connection::TcpConnection;
use vstd::prelude::*;

verus! {

/// How a nonblocking accept on the listener ended.
#[derive(Clone, Copy, Debug, PartialEq, Eq, Structural)]
pub enum AcceptOutcome {
    /// A connection came in, between these two addresses, the local one first.
    Accepted(SocketAddress, SocketAddress),
    /// No connection is waiting.
    WouldBlock,
    /// Any other error.
    Failed,
}

/// What follows one accept in the accept loop.
pub enum AcceptStep {
    /// Enqueue a registration of `connection` on the worker reactor with index
    /// `reactor_index`, then accept again.
    Dispatch { reactor_index: usize, connection: TcpConnection },
    /// The accept failed: nothing is dispatched; accept again.
    Again,
    /// Stop accepting.
    Stop,
}

/// The state of the listener that a reactor keeps: the workers' turn-taking and the
/// token that registration gives. Its interest is reading, always.
#[derive(Clone, Copy, Debug)]
pub struct Acceptor {
    event_loop_thread_pool: EventLoopThreadPool,
    poll_token: Option<usize>,
}

impl Acceptor {
    /// The pool of workers.
    pub closed spec fn pool(&self) -> EventLoopThreadPool {
        self.event_loop_thread_pool
    }

    /// The token, once the listener is registered.
    pub closed spec fn token(&self) -> Option<usize> {
        self.poll_token
    }

    /// The pool is well formed.
    pub open spec fn wf(&self) -> bool {
        self.pool().wf()
    }

    /// The connection that the acceptor makes for a stream between `local_addr` and
    /// `peer_addr`: unregistered, with empty buffers, interested in reading.
    pub open spec fn fresh_connection(
        connection: TcpConnection,
        local_addr: SocketAddress,
        peer_addr: SocketAddress,
    ) -> bool {
        &&& connection.wf()
        &&& connection.input()@ == Seq::<u8>::empty()
        &&& connection.pending() == Seq::<u8>::empty()
        &&& connection.declared_interest() == Interest::Readable
        &&& connection.token() is None
        &&& connection.handle() is None
        &&& !connection.established()
        &&& connection.addresses() == (local_addr, peer_addr)
    }

    /// A listener that is not registered yet and hands its connections to `pool`.
    pub fn new(event_loop_thread_pool: EventLoopThreadPool) -> (acceptor: Acceptor)
        ensures
            acceptor.pool() == event_loop_thread_pool,
            acceptor.token() is None,
    {
        Acceptor { event_loop_thread_pool, poll_token: None }
    }

    /// Takes in a stream between `local_addr` and `peer_addr`: picks the worker whose
    /// turn it is and makes the connection that is to be registered there.
    pub fn on_new_connection(
        &mut self,
        local_addr: SocketAddress,
        peer_addr: SocketAddress,
    ) -> (picked: (usize, TcpConnection))
        requires
            old(self).wf(),
        ensures
            final(self).wf(),
            final(self).token() == old(self).token(),
            picked.0 == old(self).pool().next_index(),
            picked.0 < old(self).pool().count(),
            final(self).pool().count() == old(self).pool().count(),
            final(self).pool().next_index() == (old(self).pool().next_index() + 1)
                % old(self).pool().count(),
            Self::fresh_connection(picked.1, local_addr, peer_addr),
    {
        let reactor_index = self.event_loop_thread_pool.reactor_index();
        self.event_loop_thread_pool.get_next_reactor();
        let connection = TcpConnection::new(local_addr, peer_addr, Interest::Readable);
        (reactor_index, connection)
    }

    /// Whether the accept loop runs on an event: on readable readiness.
    pub fn handle_event(&self, readable: bool) -> (accept: bool)
        ensures
            accept == readable,
    {
        readable
    }

    /// One step of the accept loop: a stream that came in is dispatched to the
    /// worker whose turn it is, and the loop goes on; it goes on after an error
    /// too, with nothing dispatched; it ends when no connection is waiting.
    pub fn handle_accept(&mut self, outcome: AcceptOutcome) -> (step: AcceptStep)
        requires
            old(self).wf(),
        ensures
            final(self).wf(),
            final(self).token() == old(self).token(),
            final(self).pool().count() == old(self).pool().count(),
            match outcome {
                AcceptOutcome::Accepted(local_addr, peer_addr) => {
                    &&& step matches AcceptStep::Dispatch { reactor_index, connection }
                    &&& reactor_index == old(self).pool().next_index()
                    &&& reactor_index < old(self).pool().count()
                    &&& Self::fresh_connection(connection, local_addr, peer_addr)
                    &&& final(self).pool().next_index() == (old(self).pool().next_index() + 1)
                        % old(self).pool().count()
                },
                AcceptOutcome::WouldBlock => step is Stop && final(self).pool() == old(self).pool(),
                AcceptOutcome::Failed => step is Again && final(self).pool() == old(self).pool(),
            },
    {
        match outcome {
            AcceptOutcome::Accepted(local_addr, peer_addr) => {
                let (reactor_index, connection) = self.on_new_connection(local_addr, peer_addr);
                AcceptStep::Dispatch { reactor_index, connection }
            },
            AcceptOutcome::WouldBlock => AcceptStep::Stop,
            AcceptOutcome::Failed => AcceptStep::Again,
        }
    }

    /// The interest: reading.
    pub fn interest(&self) -> (interest: Interest)
        ensures
            interest == Interest::Readable,
    {
        Interest::Readable
    }

    /// Changes nothing: the listener is interested in reading, always.
    pub fn set_interest(&mut self, interest: Interest)
        ensures
            *final(self) == *old(self),
    {
    }

    /// The token, once the listener is registered.
    pub fn poll_token(&self) -> (token: Option<usize>)
        ensures
            token == self.token(),
    {
        self.poll_token
    }

    /// Records the token that registration gave.
    pub fn set_poll_token(&mut self, token: usize)
        ensures
            final(self).token() == Some(token),
            final(self).pool() == old(self).pool(),
    {
        self.poll_token = Some(token);
    }
}

} // verus!
