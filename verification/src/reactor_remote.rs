use crate::reactor::ReactorSignal;
use crate::reactor_socket::ReactorSocket;
use vstd::prelude::*;

verus! {

/// Which reactor of a server or client is meant.
#[derive(Clone, Copy, Debug, PartialEq, Eq, Hash, Structural)]
pub enum ReactorId {
    /// The reactor that holds the listener.
    Acceptor,
    /// The worker reactor with this index in the pool.
    Worker(usize),
    /// The reactor that holds the datagram socket.
    Udp,
}

/// A handle on one reactor, for any thread. Its operations make the signal that is
/// to be sent to that reactor.
#[derive(Clone, Copy, Debug, PartialEq, Eq, Structural)]
pub struct ReactorRemote {
    pub reactor: ReactorId,
}

impl ReactorRemote {
    /// The handle on `reactor`.
    pub fn new(reactor: ReactorId) -> (remote: ReactorRemote)
        ensures
            remote.reactor == reactor,
    {
        ReactorRemote { reactor }
    }

    /// The signal that asks the reactor to take `socket` in.
    pub fn register(&self, socket: ReactorSocket) -> (signal: ReactorSignal)
        ensures
            signal == ReactorSignal::Register(socket),
    {
        ReactorSignal::Register(socket)
    }

    /// The signal that asks the reactor to leave its run loop.
    pub fn quit(&self) -> (signal: ReactorSignal)
        ensures
            signal == ReactorSignal::Quit,
    {
        ReactorSignal::Quit
    }
}

} // verus!
