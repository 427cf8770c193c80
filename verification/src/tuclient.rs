use crate::address::SocketAddress;
use crate::reactor::ReactorSignal;
use crate::socket_remote::SocketRemote;
use vstd::prelude::*;

verus! {

/// The deciding part of a client: the handle on the one socket that its reactor
/// holds.
#[derive(Clone, Copy, Debug)]
pub struct Client {
    remote: SocketRemote,
}

impl Client {
    /// The handle on the client's socket.
    pub closed spec fn handle(&self) -> SocketRemote {
        self.remote
    }

    /// The client whose socket has the handle `remote`.
    pub fn new(remote: SocketRemote) -> (client: Client)
        ensures
            client.handle() == remote,
    {
        Client { remote }
    }

    /// The signal that has the client's reactor write `data` to the connection, if
    /// the connection is established; there is none if it is not.
    pub fn write(&self, is_established: bool, data: &[u8]) -> (signal: Option<ReactorSignal>)
        ensures
            is_established ==> (signal matches Some(ReactorSignal::Write(token, bytes))
                && token == self.handle().poll_token && bytes@ == data@),
            !is_established ==> signal is None,
    {
        self.remote.write(is_established, data)
    }

    /// The signal that has the client's reactor send `data` to `addr`, if the
    /// socket is established; there is none if it is not.
    pub fn send(&self, is_established: bool, addr: SocketAddress, data: &[u8]) -> (signal: Option<
        ReactorSignal,
    >)
        ensures
            is_established ==> (signal matches Some(ReactorSignal::Send(token, to, bytes))
                && token == self.handle().poll_token && to == addr && bytes@ == data@),
            !is_established ==> signal is None,
    {
        self.remote.send(is_established, addr, data)
    }

    /// The signal that ends the client: its reactor is told to quit.
    pub fn shutdown(self) -> (signal: ReactorSignal)
        ensures
            signal == ReactorSignal::Quit,
    {
        ReactorSignal::Quit
    }
}

} // verus!
