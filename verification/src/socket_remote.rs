use crate::address::SocketAddress;
use crate::interest::Interest;
use crate::reactor::ReactorSignal;
use vstd::prelude::*;
use vstd::slice::slice_to_vec;

verus! {

/// A handle on one registered socket, for any thread: the socket's addresses and
/// its token. Its operations make the signal that is to be sent to the reactor
/// that owns the socket; the socket itself is never touched.
#[derive(Clone, Copy, Debug, PartialEq, Eq, Structural)]
pub struct SocketRemote {
    pub local_addr: SocketAddress,
    pub peer_addr: SocketAddress,
    pub poll_token: usize,
}

impl SocketRemote {
    /// The handle on the socket registered under `poll_token`.
    pub fn new(local_addr: SocketAddress, peer_addr: SocketAddress, poll_token: usize) -> (remote:
        SocketRemote)
        ensures
            remote == (SocketRemote { local_addr, peer_addr, poll_token }),
    {
        SocketRemote { local_addr, peer_addr, poll_token }
    }

    /// The socket's own address.
    pub fn local_addr(&self) -> (address: SocketAddress)
        ensures
            address == self.local_addr,
    {
        self.local_addr
    }

    /// The address of the peer; `0.0.0.0:0` for a datagram socket.
    pub fn peer_addr(&self) -> (address: SocketAddress)
        ensures
            address == self.peer_addr,
    {
        self.peer_addr
    }

    /// The socket's token.
    pub fn poll_token(&self) -> (token: usize)
        ensures
            token == self.poll_token,
    {
        self.poll_token
    }

    /// The signal that asks the reactor to shut the socket down.
    pub fn shutdown(&self) -> (signal: ReactorSignal)
        ensures
            signal == ReactorSignal::ShutDown(self.poll_token),
    {
        ReactorSignal::ShutDown(self.poll_token)
    }

    /// The signal that asks the reactor to subscribe the socket to `interest`.
    pub fn reregister(&self, interest: Interest) -> (signal: ReactorSignal)
        ensures
            signal == ReactorSignal::ReRegister(self.poll_token, interest),
    {
        ReactorSignal::ReRegister(self.poll_token, interest)
    }

    /// The signal that asks the reactor to write `data` to the connection, if the
    /// connection is established; on a connection that is not, the write is
    /// dropped and there is no signal.
    pub fn write(&self, is_established: bool, data: &[u8]) -> (signal: Option<ReactorSignal>)
        ensures
            is_established ==> (signal matches Some(ReactorSignal::Write(token, bytes))
                && token == self.poll_token && bytes@ == data@),
            !is_established ==> signal is None,
    {
        if !is_established {
            return None;
        }
        Some(ReactorSignal::Write(self.poll_token, slice_to_vec(data)))
    }

    /// The signal that asks the reactor to send `data` to `addr` as one datagram,
    /// if the socket is established; on a socket that is not, the datagram is
    /// dropped and there is no signal.
    pub fn send(&self, is_established: bool, addr: SocketAddress, data: &[u8]) -> (signal: Option<
        ReactorSignal,
    >)
        ensures
            is_established ==> (signal matches Some(ReactorSignal::Send(token, to, bytes))
                && token == self.poll_token && to == addr && bytes@ == data@),
            !is_established ==> signal is None,
    {
        if !is_established {
            return None;
        }
        Some(ReactorSignal::Send(self.poll_token, addr, slice_to_vec(data)))
    }
}

} // verus!
