use crate::address::SocketAddress;
use crate::interest::Interest;
use crate::socket_remote::SocketRemote;
use crate::tcp_connection::IoOutcome;
use vstd::prelude::*;

verus! {

/// Size of the scratch region that one datagram is received into.
pub const DATAGRAM_BUFFER_SIZE: usize = 65536;

/// How a nonblocking receive on a datagram socket ended.
#[derive(Clone, Copy, Debug, PartialEq, Eq, Structural)]
pub enum RecvOutcome {
    /// A datagram of this many bytes arrived from this peer.
    Datagram(usize, SocketAddress),
    /// No datagram is waiting.
    WouldBlock,
    /// Any other error.
    Failed,
}

/// What follows one receive in the datagram handler.
#[derive(Clone, Copy, Debug, PartialEq, Eq, Structural)]
pub enum RecvStep {
    /// Run the datagram callback on the first `len` bytes of the scratch region,
    /// with `peer` as the sender, then receive again.
    Deliver { len: usize, peer: SocketAddress },
    /// Stop receiving.
    Stop,
    /// Stop, and enqueue a shutdown of the socket.
    Shutdown,
}

/// What became of one datagram that was to be sent. The socket stays in every
/// case: there is no session to end.
#[derive(Clone, Copy, Debug, PartialEq, Eq, Structural)]
pub enum SendStep {
    /// The datagram went out, with this many bytes.
    Sent { bytes: usize },
    /// The socket would block: the datagram is dropped.
    Dropped,
    /// Any other error: the datagram is lost.
    Failed,
}

/// What became of a datagram whose send ended as `outcome`.
pub open spec fn send_step(outcome: IoOutcome) -> SendStep {
    match outcome {
        IoOutcome::Done(bytes) => SendStep::Sent { bytes },
        IoOutcome::WouldBlock => SendStep::Dropped,
        IoOutcome::Failed => SendStep::Failed,
    }
}

/// The step that follows a receive which ended as `outcome`.
pub open spec fn recv_step(outcome: RecvOutcome) -> RecvStep {
    match outcome {
        RecvOutcome::Datagram(len, peer) => RecvStep::Deliver { len, peer },
        RecvOutcome::WouldBlock => RecvStep::Stop,
        RecvOutcome::Failed => RecvStep::Shutdown,
    }
}

/// The state of one UDP socket that a reactor keeps: its address, and the token
/// and handle that registration gives. Its interest is reading, always.
#[derive(Clone, Copy, Debug)]
pub struct UdpSocket {
    local_addr: SocketAddress,
    remote: Option<SocketRemote>,
    poll_token: Option<usize>,
    is_established: bool,
}

impl UdpSocket {
    /// The token, once the socket is registered.
    pub closed spec fn token(&self) -> Option<usize> {
        self.poll_token
    }

    /// The establishment flag.
    pub closed spec fn established(&self) -> bool {
        self.is_established
    }

    /// The socket's own address.
    pub closed spec fn address(&self) -> SocketAddress {
        self.local_addr
    }

    /// The handle, once the socket is registered.
    pub closed spec fn handle(&self) -> Option<SocketRemote> {
        self.remote
    }

    /// The handle that the socket has under `token`: it names no peer.
    pub open spec fn remote_for(&self, token: usize) -> SocketRemote {
        SocketRemote {
            local_addr: self.address(),
            peer_addr: SocketAddress::zero(),
            poll_token: token,
        }
    }

    /// The handle is there exactly when the token is, and is the handle for that
    /// token, the socket's address and no peer.
    pub closed spec fn wf(&self) -> bool {
        match self.poll_token {
            Some(token) => self.remote == Some(
                SocketRemote {
                    local_addr: self.local_addr,
                    peer_addr: SocketAddress::zero(),
                    poll_token: token,
                },
            ),
            None => self.remote is None,
        }
    }

    /// A socket bound to `local_addr` that is not registered yet.
    pub fn new(local_addr: SocketAddress) -> (socket: UdpSocket)
        ensures
            socket.wf(),
            socket.token() is None,
            socket.handle() is None,
            !socket.established(),
            socket.address() == local_addr,
    {
        UdpSocket { local_addr, remote: None, poll_token: None, is_established: false }
    }

    /// The handle of a registered socket. Its peer address is `0.0.0.0:0`.
    pub fn remote(&self) -> (remote: SocketRemote)
        requires
            self.wf(),
            self.token() is Some,
        ensures
            Some(remote) == self.handle(),
            remote == self.remote_for(self.token().unwrap()),
    {
        self.remote.unwrap()
    }

    /// Whether the receive loop runs on an event: on readable readiness.
    pub fn handle_event(&self, readable: bool) -> (receive: bool)
        ensures
            receive == readable,
    {
        readable
    }

    /// One step of the receive loop: a datagram goes to the callback and the loop
    /// goes on; a socket with nothing waiting ends the loop; an error ends it with
    /// a shutdown.
    pub fn handle_recv(outcome: RecvOutcome) -> (step: RecvStep)
        ensures
            step == recv_step(outcome),
    {
        match outcome {
            RecvOutcome::Datagram(len, peer) => RecvStep::Deliver { len, peer },
            RecvOutcome::WouldBlock => RecvStep::Stop,
            RecvOutcome::Failed => RecvStep::Shutdown,
        }
    }

    /// What became of a datagram whose single send ended as `outcome`: it went
    /// out, or it was dropped because the socket would block, or it was lost to an
    /// error. None of these ends the socket.
    pub fn handle_send(outcome: IoOutcome) -> (step: SendStep)
        ensures
            step == send_step(outcome),
    {
        match outcome {
            IoOutcome::Done(bytes) => SendStep::Sent { bytes },
            IoOutcome::WouldBlock => SendStep::Dropped,
            IoOutcome::Failed => SendStep::Failed,
        }
    }

    /// The interest: reading.
    pub fn interest(&self) -> (interest: Interest)
        ensures
            interest == Interest::Readable,
    {
        Interest::Readable
    }

    /// Changes nothing: a datagram socket is interested in reading, always.
    pub fn set_interest(&mut self, interest: Interest)
        ensures
            *final(self) == *old(self),
    {
    }

    /// Sets the establishment flag.
    pub fn handle_establish(&mut self, is_established: bool)
        requires
            old(self).wf(),
        ensures
            final(self).wf(),
            final(self).established() == is_established,
            final(self).token() == old(self).token(),
            final(self).address() == old(self).address(),
            final(self).handle() == old(self).handle(),
    {
        self.is_established = is_established;
    }

    /// The token, once the socket is registered.
    pub fn poll_token(&self) -> (token: Option<usize>)
        ensures
            token == self.token(),
    {
        self.poll_token
    }

    /// Records the token that registration gave and makes the handle for it.
    pub fn set_poll_token(&mut self, token: usize)
        requires
            old(self).wf(),
        ensures
            final(self).wf(),
            final(self).token() == Some(token),
            final(self).handle() == Some(old(self).remote_for(token)),
            final(self).established() == old(self).established(),
            final(self).address() == old(self).address(),
    {
        self.poll_token = Some(token);
        self.remote = Some(SocketRemote::new(self.local_addr, SocketAddress::unspecified(), token));
    }

    /// The establishment flag.
    pub fn is_established(&self) -> (is_established: bool)
        ensures
            is_established == self.established(),
    {
        self.is_established
    }
}

} // verus!
