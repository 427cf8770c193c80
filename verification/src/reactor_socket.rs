use crate::acceptor::Acceptor;
use crate::interest::Interest;
use crate::tcp_connection::EventPlan;
use crate::tcp_connection::TcpConnection;
use crate::udp_socket::UdpSocket;
use vstd::prelude::*;

verus! {

/// The work that a readiness event means for the socket it names.
#[derive(Clone, Copy, Debug, PartialEq, Eq, Structural)]
pub enum EventWork {
    /// None: the event is ignored.
    Nothing,
    /// Run the accept loop of the listener.
    Accept,
    /// Run the handlers of the connection that the plan names, the read handler
    /// first.
    Connection(EventPlan),
    /// Run the receive loop of the datagram socket.
    Receive,
}

/// A socket that a reactor can hold: the listener, a TCP connection or a UDP
/// socket. The operations that every socket has are dispatched to the variant.
pub enum ReactorSocket {
    Acceptor(Acceptor),
    Tcp(TcpConnection),
    Udp(UdpSocket),
}

impl ReactorSocket {
    /// The variant's state is well formed.
    pub open spec fn wf(&self) -> bool {
        match self {
            ReactorSocket::Acceptor(acceptor) => acceptor.wf(),
            ReactorSocket::Tcp(connection) => connection.wf(),
            ReactorSocket::Udp(socket) => socket.wf(),
        }
    }

    /// The interest that the socket declares: reading, unless a connection has
    /// declared another.
    pub open spec fn declared_interest(&self) -> Interest {
        match self {
            ReactorSocket::Acceptor(_) => Interest::Readable,
            ReactorSocket::Tcp(connection) => connection.declared_interest(),
            ReactorSocket::Udp(_) => Interest::Readable,
        }
    }

    /// The token, once the socket is registered.
    pub open spec fn token(&self) -> Option<usize> {
        match self {
            ReactorSocket::Acceptor(acceptor) => acceptor.token(),
            ReactorSocket::Tcp(connection) => connection.token(),
            ReactorSocket::Udp(socket) => socket.token(),
        }
    }

    /// The interest that the socket declares after it was asked to declare `asked`:
    /// a connection declares what it is asked to, the listener and a datagram
    /// socket go on declaring reading.
    pub open spec fn interest_after(&self, asked: Interest) -> Interest {
        match self {
            ReactorSocket::Tcp(_) => asked,
            _ => Interest::Readable,
        }
    }

    /// The establishment hook can run: a connection has its token, and with it
    /// the handle that its callback gets.
    pub open spec fn can_establish(&self) -> bool {
        *self is Tcp ==> self.token() is Some
    }

    /// `self` is `before` with `interest` declared, where the variant can declare
    /// one: a connection takes it, the listener and a datagram socket stay as they
    /// are.
    pub open spec fn with_interest(&self, before: &ReactorSocket, interest: Interest) -> bool {
        match (self, before) {
            (ReactorSocket::Acceptor(now), ReactorSocket::Acceptor(then)) => now == then,
            (ReactorSocket::Tcp(now), ReactorSocket::Tcp(then)) => {
                &&& now.wf() == then.wf()
                &&& now.declared_interest() == interest
                &&& now.token() == then.token()
                &&& now.established() == then.established()
                &&& now.addresses() == then.addresses()
                &&& now.handle() == then.handle()
                &&& now.input() == then.input()
                &&& now.output() == then.output()
            },
            (ReactorSocket::Udp(now), ReactorSocket::Udp(then)) => now == then,
            _ => false,
        }
    }

    /// `self` is `before` with the token that registration gave recorded and the
    /// handle for it made.
    pub open spec fn with_token(&self, before: &ReactorSocket, token: usize) -> bool {
        &&& self.wf()
        &&& self.token() == Some(token)
        &&& self.declared_interest() == before.declared_interest()
        &&& match (self, before) {
            (ReactorSocket::Acceptor(now), ReactorSocket::Acceptor(then)) => now.pool()
                == then.pool(),
            (ReactorSocket::Tcp(now), ReactorSocket::Tcp(then)) => {
                &&& now.established() == then.established()
                &&& now.addresses() == then.addresses()
                &&& now.handle() == Some(then.remote_for(token))
                &&& now.input() == then.input()
                &&& now.output() == then.output()
            },
            (ReactorSocket::Udp(now), ReactorSocket::Udp(then)) => {
                &&& now.established() == then.established()
                &&& now.address() == then.address()
                &&& now.handle() == Some(then.remote_for(token))
            },
            _ => false,
        }
    }

    /// `self` is `before` with the establishment flag set to `is_established`,
    /// where the variant has one: the listener stays as it is.
    pub open spec fn with_established(&self, before: &ReactorSocket, is_established: bool) -> bool {
        &&& self.wf()
        &&& self.token() == before.token()
        &&& self.declared_interest() == before.declared_interest()
        &&& match (self, before) {
            (ReactorSocket::Acceptor(now), ReactorSocket::Acceptor(then)) => now == then,
            (ReactorSocket::Tcp(now), ReactorSocket::Tcp(then)) => {
                &&& now.established() == is_established
                &&& now.addresses() == then.addresses()
                &&& now.handle() == then.handle()
                &&& now.input() == then.input()
                &&& now.output() == then.output()
            },
            (ReactorSocket::Udp(now), ReactorSocket::Udp(then)) => {
                &&& now.established() == is_established
                &&& now.address() == then.address()
                &&& now.handle() == then.handle()
            },
            _ => false,
        }
    }

    /// `self` is `before` registered under `token`: the token is recorded, the
    /// handle made, and the establishment flag raised where the variant has one.
    pub open spec fn registered_as(&self, before: &ReactorSocket, token: usize) -> bool {
        &&& self.wf()
        &&& self.token() == Some(token)
        &&& self.declared_interest() == before.declared_interest()
        &&& match (self, before) {
            (ReactorSocket::Acceptor(now), ReactorSocket::Acceptor(then)) => now.pool()
                == then.pool(),
            (ReactorSocket::Tcp(now), ReactorSocket::Tcp(then)) => {
                &&& now.established()
                &&& now.addresses() == then.addresses()
                &&& now.handle() == Some(then.remote_for(token))
                &&& now.input() == then.input()
                &&& now.output() == then.output()
            },
            (ReactorSocket::Udp(now), ReactorSocket::Udp(then)) => {
                &&& now.established()
                &&& now.address() == then.address()
                &&& now.handle() == Some(then.remote_for(token))
            },
            _ => false,
        }
    }

    /// `self` is the connection `before` with `bytes` put behind its pending
    /// output.
    pub open spec fn with_stashed(&self, before: &ReactorSocket, bytes: Seq<u8>) -> bool {
        match (self, before) {
            (ReactorSocket::Tcp(now), ReactorSocket::Tcp(then)) => {
                &&& now.wf()
                &&& now.same_registration(then)
                &&& now.input() == then.input()
                &&& now.output().appended_from(&then.output(), bytes)
                &&& now.pending() == then.pending() + bytes
            },
            _ => false,
        }
    }

    /// `self` is the connection `before` with `bytes` put behind its pending output
    /// and `interest` declared.
    pub open spec fn with_stashed_for(
        &self,
        before: &ReactorSocket,
        bytes: Seq<u8>,
        interest: Interest,
    ) -> bool {
        match (self, before) {
            (ReactorSocket::Tcp(now), ReactorSocket::Tcp(then)) => {
                &&& now.wf()
                &&& now.declared_interest() == interest
                &&& now.token() == then.token()
                &&& now.established() == then.established()
                &&& now.addresses() == then.addresses()
                &&& now.handle() == then.handle()
                &&& now.input() == then.input()
                &&& now.output().appended_from(&then.output(), bytes)
                &&& now.pending() == then.pending() + bytes
            },
            _ => false,
        }
    }

    /// Room can be made for `len` more bytes of pending output. Only a connection
    /// has pending output.
    pub open spec fn can_stash(&self, len: nat) -> bool {
        match self {
            ReactorSocket::Tcp(connection) => connection.output().can_take(len),
            _ => false,
        }
    }

    /// The work that an event with the given readiness means for the socket: the
    /// listener accepts and a datagram socket receives on readable readiness; a
    /// connection reads on readable readiness and writes on writable readiness
    /// while it is interested in writing.
    pub open spec fn event_work(&self, readable: bool, writable: bool) -> EventWork {
        match self {
            ReactorSocket::Acceptor(_) => if readable {
                EventWork::Accept
            } else {
                EventWork::Nothing
            },
            ReactorSocket::Tcp(connection) => EventWork::Connection(
                EventPlan {
                    read: readable,
                    write: connection.declared_interest().has_writable() && writable,
                },
            ),
            ReactorSocket::Udp(_) => if readable {
                EventWork::Receive
            } else {
                EventWork::Nothing
            },
        }
    }

    /// The work that an event with the given readiness means for the socket.
    pub fn handle_event(&self, readable: bool, writable: bool) -> (work: EventWork)
        ensures
            work == self.event_work(readable, writable),
    {
        match self {
            ReactorSocket::Acceptor(acceptor) => {
                if acceptor.handle_event(readable) {
                    EventWork::Accept
                } else {
                    EventWork::Nothing
                }
            },
            ReactorSocket::Tcp(connection) => EventWork::Connection(
                connection.handle_event(readable, writable),
            ),
            ReactorSocket::Udp(socket) => {
                if socket.handle_event(readable) {
                    EventWork::Receive
                } else {
                    EventWork::Nothing
                }
            },
        }
    }

    /// The interest that the socket declares after it was asked to declare `asked`.
    pub fn settled_interest(&self, asked: Interest) -> (interest: Interest)
        ensures
            interest == self.interest_after(asked),
    {
        match self {
            ReactorSocket::Tcp(_) => asked,
            _ => Interest::Readable,
        }
    }

    /// Whether `len` more bytes can be put behind the pending output; never for a
    /// socket other than a connection.
    pub fn has_room_for(&self, len: usize) -> (room: bool)
        requires
            self.wf(),
        ensures
            room == self.can_stash(len as nat),
    {
        match self {
            ReactorSocket::Tcp(connection) => connection.can_stash(len),
            _ => false,
        }
    }

    /// The interest that the socket declares.
    pub fn interest(&self) -> (interest: Interest)
        ensures
            interest == self.declared_interest(),
    {
        match self {
            ReactorSocket::Acceptor(acceptor) => acceptor.interest(),
            ReactorSocket::Tcp(connection) => connection.interest(),
            ReactorSocket::Udp(socket) => socket.interest(),
        }
    }

    /// Declares `interest`, where the variant can declare one.
    pub fn set_interest(&mut self, interest: Interest)
        requires
            old(self).wf(),
        ensures
            final(self).wf(),
            final(self).with_interest(old(self), interest),
            final(self).declared_interest() == old(self).interest_after(interest),
    {
        match self {
            ReactorSocket::Acceptor(acceptor) => acceptor.set_interest(interest),
            ReactorSocket::Tcp(connection) => connection.set_interest(interest),
            ReactorSocket::Udp(socket) => socket.set_interest(interest),
        }
    }

    /// The token, once the socket is registered.
    pub fn poll_token(&self) -> (token: Option<usize>)
        ensures
            token == self.token(),
    {
        match self {
            ReactorSocket::Acceptor(acceptor) => acceptor.poll_token(),
            ReactorSocket::Tcp(connection) => connection.poll_token(),
            ReactorSocket::Udp(socket) => socket.poll_token(),
        }
    }

    /// Records the token that registration gave and makes the handle for it.
    pub fn set_poll_token(&mut self, token: usize)
        requires
            old(self).wf(),
        ensures
            final(self).with_token(old(self), token),
    {
        match self {
            ReactorSocket::Acceptor(acceptor) => acceptor.set_poll_token(token),
            ReactorSocket::Tcp(connection) => connection.set_poll_token(token),
            ReactorSocket::Udp(socket) => socket.set_poll_token(token),
        }
    }

    /// Sets the establishment flag, where the variant has one. A connection must
    /// have its token.
    pub fn handle_establish(&mut self, is_established: bool)
        requires
            old(self).wf(),
            old(self).can_establish(),
        ensures
            final(self).with_established(old(self), is_established),
    {
        match self {
            ReactorSocket::Acceptor(_) => {},
            ReactorSocket::Tcp(connection) => connection.handle_establish(is_established),
            ReactorSocket::Udp(socket) => socket.handle_establish(is_established),
        }
    }

    /// Whether the socket takes stream writes: only a connection does.
    pub fn can_write(&self) -> (supported: bool)
        ensures
            supported == (*self is Tcp),
    {
        match self {
            ReactorSocket::Tcp(_) => true,
            _ => false,
        }
    }

    /// Whether the socket sends datagrams: only a datagram socket does.
    pub fn can_send(&self) -> (supported: bool)
        ensures
            supported == (*self is Udp),
    {
        match self {
            ReactorSocket::Udp(_) => true,
            _ => false,
        }
    }

    /// Puts `data` behind the pending output of a connection. The listener has no
    /// output and stays as it is; a datagram socket does not take the call.
    pub fn stash_output(&mut self, data: &[u8])
        requires
            old(self).wf(),
            !(*old(self) is Udp),
            *old(self) is Tcp ==> old(self).can_stash(data@.len()),
        ensures
            *old(self) is Tcp ==> final(self).with_stashed(old(self), data@),
            *old(self) is Acceptor ==> *final(self) == *old(self),
    {
        match self {
            ReactorSocket::Tcp(connection) => connection.stash_output(data),
            _ => {},
        }
    }
}

} // verus!
