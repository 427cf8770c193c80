use crate::address::SocketAddress;
use crate::interest::Interest;
use crate::reactor_socket::EventWork;
use crate::reactor_socket::ReactorSocket;
use crate::tcp_connection::IoOutcome;
use slab::Slab;
use vstd::prelude::*;

verus! {

/// The number of sockets up to which the table of a reactor, which takes less
/// than 2048 bytes for each and at most doubles when it grows, stays within the
/// `isize::MAX` bytes that one allocation can hold.
pub const MAX_SOCKETS: usize = usize::MAX / 8192;

/// Number of readiness events that one poll takes in.
pub const EVENTS_CAPACITY: usize = 1024;

/// The token under which the wakeup primitive is registered with the poller; no
/// socket has it.
pub const WAKE_TOKEN: usize = usize::MAX;

/// A control message for a reactor. Any thread may enqueue one; only the reactor
/// that owns the queue applies it.
pub enum ReactorSignal {
    Quit,
    Register(ReactorSocket),
    ShutDown(usize),
    ReRegister(usize, Interest),
    Write(usize, Vec<u8>),
    Send(usize, SocketAddress, Vec<u8>),
}

impl ReactorSignal {
    /// The name of the variant, as it is logged.
    pub open spec fn variant_name(&self) -> Seq<char> {
        match self {
            ReactorSignal::Quit => "Quit"@,
            ReactorSignal::Register(_) => "Register"@,
            ReactorSignal::ShutDown(_) => "ShutDown"@,
            ReactorSignal::ReRegister(_, _) => "ReRegister"@,
            ReactorSignal::Write(_, _) => "Write"@,
            ReactorSignal::Send(_, _, _) => "DatagramSend"@,
        }
    }

    /// The name of the variant, as it is logged.
    pub fn type_str(&self) -> (name: &'static str)
        ensures
            name@ == self.variant_name(),
    {
        match self {
            ReactorSignal::Quit => "Quit",
            ReactorSignal::Register(_) => "Register",
            ReactorSignal::ShutDown(_) => "ShutDown",
            ReactorSignal::ReRegister(_, _) => "ReRegister",
            ReactorSignal::Write(_, _) => "Write",
            ReactorSignal::Send(_, _, _) => "DatagramSend",
        }
    }
}

/// What the caller of a reactor has to do on the reactor's behalf after a step:
/// the work on the poller and on the operating system's sockets, which the
/// reactor decides and does not do itself.
pub enum Action {
    /// Nothing.
    Idle,
    /// Leave the run loop after this pass.
    Quit,
    /// Register `socket` with the poller under `token` for `interest`, and hand
    /// the socket and the poller's answer to `Reactor::register`.
    Register { token: usize, interest: Interest, socket: ReactorSocket },
    /// Reregister the socket under `token` with the poller for `interest`, and
    /// hand the poller's answer to `Reactor::reregister`.
    Reregister { token: usize, interest: Interest },
    /// Deregister the socket that was stored under `token` from the poller, run
    /// the termination hook on `socket`, its last state, and drop it.
    Teardown { token: usize, socket: ReactorSocket },
    /// Write `data` from offset `written` on to the connection under `token`, and
    /// report how that went to `Reactor::write_outcome`.
    Write { token: usize, data: Vec<u8>, written: usize },
    /// Send `data` to `addr` as one datagram from the socket under `token`. The
    /// socket stays whatever comes of it: a datagram that cannot be sent is
    /// dropped.
    Send { token: usize, addr: SocketAddress, data: Vec<u8> },
    /// No socket is stored under `token`: the signal is dropped.
    Missing { token: usize },
}

/// The slab of the `slab` crate, which the verifier takes as a whole.
#[verifier::external_type_specification]
#[verifier::external_body]
#[verifier::reject_recursive_types(T)]
pub struct ExSlab<T>(Slab<T>);

/// The sockets that a slab holds, each under its key.
pub uninterp spec fn slab_entries(slab: Slab<ReactorSocket>) -> Map<usize, ReactorSocket>;

/// The key that the slab gives to the next value stored in it.
pub uninterp spec fn slab_vacant_key(slab: Slab<ReactorSocket>) -> usize;

/// `Slab::with_capacity`: a slab that holds nothing and gives key 0 first.
/// Capacities whose storage one allocation cannot hold make it panic and are left
/// out.
#[verifier::external_body]
fn slab_with_capacity(capacity: usize) -> (slab: Slab<ReactorSocket>)
    requires
        capacity <= MAX_SOCKETS,
    ensures
        slab_entries(slab).dom() == Set::<usize>::empty(),
        slab_vacant_key(slab) == 0,
{
    Slab::with_capacity(capacity)
}

/// `Slab::len`: the number of values held.
#[verifier::external_body]
fn slab_len(slab: &Slab<ReactorSocket>) -> (len: usize)
    ensures
        len == slab_entries(*slab).len(),
{
    slab.len()
}

/// `Slab::vacant_key`: the key that the next value stored gets.
#[verifier::external_body]
fn slab_next_key(slab: &Slab<ReactorSocket>) -> (key: usize)
    ensures
        key == slab_vacant_key(*slab),
{
    slab.vacant_key()
}

/// `Slab::insert`: stores `socket` under the key that was vacant next and returns
/// that key. No other entry changes, and the key that is vacant next afterwards
/// holds nothing. A slab grows only when it is full, and then at most doubles, so
/// with fewer than `MAX_SOCKETS` values held its storage stays within what one
/// allocation can hold; beyond that it may panic.
#[verifier::external_body]
fn slab_insert(slab: &mut Slab<ReactorSocket>, socket: ReactorSocket) -> (key: usize)
    requires
        slab_entries(*old(slab)).dom().finite(),
        slab_entries(*old(slab)).len() < MAX_SOCKETS,
    ensures
        key == slab_vacant_key(*old(slab)),
        !slab_entries(*old(slab)).contains_key(key),
        slab_entries(*final(slab)) == slab_entries(*old(slab)).insert(key, socket),
        !slab_entries(*final(slab)).contains_key(slab_vacant_key(*final(slab))),
{
    slab.insert(socket)
}

/// `Slab::remove`: takes out the value under `key`, which must hold one, and
/// returns it. No other entry changes, and `key` is the key that is vacant next.
#[verifier::external_body]
fn slab_remove(slab: &mut Slab<ReactorSocket>, key: usize) -> (socket: ReactorSocket)
    requires
        slab_entries(*old(slab)).contains_key(key),
    ensures
        socket == slab_entries(*old(slab))[key],
        slab_entries(*final(slab)) == slab_entries(*old(slab)).remove(key),
        slab_vacant_key(*final(slab)) == key,
{
    slab.remove(key)
}

/// `Slab::contains`: whether a value is held under `key`.
#[verifier::external_body]
fn slab_contains(slab: &Slab<ReactorSocket>, key: usize) -> (held: bool)
    ensures
        held == slab_entries(*slab).contains_key(key),
{
    slab.contains(key)
}

/// `Slab::get`: the value under `key`, or nothing where the key is vacant.
#[verifier::external_body]
fn slab_get(slab: &Slab<ReactorSocket>, key: usize) -> (entry: Option<&ReactorSocket>)
    ensures
        slab_entries(*slab).contains_key(key) ==> entry == Some(&slab_entries(*slab)[key]),
        !slab_entries(*slab).contains_key(key) ==> entry is None,
{
    slab.get(key)
}

/// `Slab::get_mut`: the value under `key`, to be changed in place, or nothing
/// where the key is vacant. No other entry changes, and the next key stays.
#[verifier::external_body]
fn slab_get_mut(slab: &mut Slab<ReactorSocket>, key: usize) -> (entry: Option<&mut ReactorSocket>)
    ensures
        slab_entries(*old(slab)).contains_key(key) ==> entry is Some && *entry.unwrap()
            == slab_entries(*old(slab))[key] && slab_entries(*final(slab)) == slab_entries(
            *old(slab),
        ).insert(key, *final(entry.unwrap())),
        !slab_entries(*old(slab)).contains_key(key) ==> entry is None && slab_entries(
            *final(slab),
        ) == slab_entries(*old(slab)),
        slab_vacant_key(*final(slab)) == slab_vacant_key(*old(slab)),
{
    slab.get_mut(key)
}

/// The part of a reactor that decides: the table of sockets, each under its token,
/// and the quit flag. Polling, socket I/O and callbacks are the caller's part; the
/// reactor tells it what to do by the `Action` that a step returns, and takes what
/// came of it in the step that follows.
pub struct Reactor {
    sockets: Slab<ReactorSocket>,
    quit: bool,
}

impl Reactor {
    /// The sockets held, each under its token.
    pub closed spec fn sockets(&self) -> Map<usize, ReactorSocket> {
        slab_entries(self.sockets)
    }

    /// The token that the next socket gets.
    pub closed spec fn next_token(&self) -> usize {
        slab_vacant_key(self.sockets)
    }

    /// The quit flag.
    pub closed spec fn quitting(&self) -> bool {
        self.quit
    }

    /// There are finitely many sockets, none under the token that the next one
    /// gets, and each is well formed and knows the token under which it is held.
    pub open spec fn wf(&self) -> bool {
        &&& self.sockets().dom().finite()
        &&& !self.sockets().contains_key(self.next_token())
        &&& forall|token: usize| #[trigger]
            self.sockets().contains_key(token) ==> self.sockets()[token].wf()
                && self.sockets()[token].token() == Some(token)
    }

    /// The interest that each socket declares, by token.
    pub open spec fn declared(&self) -> Map<usize, Interest> {
        Map::new(
            |token: usize| self.sockets().contains_key(token),
            |token: usize| self.sockets()[token].declared_interest(),
        )
    }

    /// The poller `poller`, given by the interest that it watches each token for,
    /// is in line with the reactor: it watches every socket that the reactor holds
    /// for the interest that the socket declares.
    pub open spec fn in_line(&self, poller: Map<usize, Interest>) -> bool {
        forall|token: usize| #[trigger]
            self.sockets().contains_key(token) ==> poller.contains_key(token) && poller[token]
                == self.sockets()[token].declared_interest()
    }

    /// `self` is `before` in every respect.
    pub open spec fn same_as(&self, before: &Reactor) -> bool {
        &&& self.sockets() == before.sockets()
        &&& self.next_token() == before.next_token()
        &&& self.quitting() == before.quitting()
    }

    /// `self` is `before` but for the socket under `token`, which is still there.
    pub open spec fn same_but(&self, before: &Reactor, token: usize) -> bool {
        &&& self.sockets().contains_key(token)
        &&& self.sockets() == before.sockets().insert(token, self.sockets()[token])
        &&& self.next_token() == before.next_token()
        &&& self.quitting() == before.quitting()
    }

    /// A reactor without sockets that is not quitting. The first socket gets
    /// token 0.
    pub fn new(sock_capacity: usize) -> (reactor: Reactor)
        requires
            sock_capacity <= MAX_SOCKETS,
        ensures
            reactor.wf(),
            reactor.sockets() == Map::<usize, ReactorSocket>::empty(),
            reactor.next_token() == 0,
            !reactor.quitting(),
    {
        let reactor = Reactor { sockets: slab_with_capacity(sock_capacity), quit: false };
        assert(reactor.sockets() =~= Map::<usize, ReactorSocket>::empty());
        reactor
    }

    /// Number of sockets held.
    pub fn len(&self) -> (len: usize)
        ensures
            len == self.sockets().len(),
    {
        slab_len(&self.sockets)
    }

    /// Whether a socket is held under `token`.
    pub fn contains(&self, token: usize) -> (held: bool)
        ensures
            held == self.sockets().contains_key(token),
    {
        slab_contains(&self.sockets, token)
    }

    /// The token that the next socket gets.
    pub fn vacant_token(&self) -> (token: usize)
        ensures
            token == self.next_token(),
    {
        slab_next_key(&self.sockets)
    }

    /// Whether the quit flag is set: the run loop ends after the pass in which it
    /// was.
    pub fn has_quit(&self) -> (quit: bool)
        ensures
            quit == self.quitting(),
    {
        self.quit
    }

    /// The socket under `token`, if there is one.
    pub fn socket(&self, token: usize) -> (socket: Option<&ReactorSocket>)
        ensures
            self.sockets().contains_key(token) ==> socket == Some(&self.sockets()[token]),
            !self.sockets().contains_key(token) ==> socket is None,
    {
        slab_get(&self.sockets, token)
    }

    /// The work that a readiness event for `token` means: that of the socket under
    /// the token, and none where no socket is there, as for an event that comes
    /// late after a shutdown.
    pub fn handle_event(&self, token: usize, readable: bool, writable: bool) -> (work: EventWork)
        ensures
            work == if self.sockets().contains_key(token) {
                self.sockets()[token].event_work(readable, writable)
            } else {
                EventWork::Nothing
            },
    {
        match slab_get(&self.sockets, token) {
            Some(socket) => socket.handle_event(readable, writable),
            None => EventWork::Nothing,
        }
    }

    /// The socket under `token`, if there is one, for its event handler to work
    /// on. The reactor stays well formed if the socket does and keeps its token.
    pub fn socket_mut(&mut self, token: usize) -> (socket: Option<&mut ReactorSocket>)
        requires
            old(self).wf(),
        ensures
            old(self).sockets().contains_key(token) ==> socket is Some
                && *socket.unwrap() == old(self).sockets()[token]
                && final(self).sockets() == old(self).sockets().insert(
                token,
                *final(socket.unwrap()),
            ) && (final(socket.unwrap()).wf() && final(socket.unwrap()).token() == Some(token)
                ==> final(self).wf()),
            !old(self).sockets().contains_key(token) ==> socket is None
                && final(self).same_as(old(self)),
            final(self).next_token() == old(self).next_token(),
            final(self).quitting() == old(self).quitting(),
    {
        slab_get_mut(&mut self.sockets, token)
    }

    /// The socket under `token`, which holds one, to be changed in place.
    fn held(&mut self, token: usize) -> (socket: &mut ReactorSocket)
        requires
            old(self).sockets().contains_key(token),
        ensures
            *socket == old(self).sockets()[token],
            final(self).sockets() == old(self).sockets().insert(token, *final(socket)),
            final(self).next_token() == old(self).next_token(),
            final(self).quitting() == old(self).quitting(),
    {
        slab_get_mut(&mut self.sockets, token).unwrap()
    }
}

impl Reactor {
    /// The reactor can apply `signal`: the socket that a reregistration names is
    /// there; where the socket that a write names is there, it is no datagram
    /// socket, and a connection that already waits for writability can take the
    /// payload behind its pending output; where the socket that a send names is
    /// there, it is a datagram socket.
    pub open spec fn accepts(&self, signal: &ReactorSignal) -> bool {
        match signal {
            ReactorSignal::Quit => true,
            ReactorSignal::Register(socket) => true,
            ReactorSignal::ShutDown(token) => true,
            ReactorSignal::ReRegister(token, interest) => self.sockets().contains_key(*token),
            ReactorSignal::Write(token, data) => self.takes_write(*token, data@.len()),
            ReactorSignal::Send(token, addr, data) => self.takes_send(*token),
        }
    }

    /// A write of `len` bytes to `token` can be applied.
    pub open spec fn takes_write(&self, token: usize, len: nat) -> bool {
        self.sockets().contains_key(token) ==> {
            let socket = self.sockets()[token];
            &&& !(socket is Udp)
            &&& socket is Tcp && socket.declared_interest().has_writable() ==> socket.can_stash(
                len,
            )
        }
    }

    /// A send from `token` can be applied.
    pub open spec fn takes_send(&self, token: usize) -> bool {
        self.sockets().contains_key(token) ==> self.sockets()[token] is Udp
    }

    /// The outcome of a direct write to `token` can be applied, the attempt having
    /// been made with the bytes of a payload of `len` bytes from offset `written`
    /// on: no more bytes went out than were offered; the socket, if it is still
    /// there, is a connection; and where the socket would block, the connection
    /// can take the bytes that have not gone out behind its pending output.
    pub open spec fn takes_write_outcome(
        &self,
        token: usize,
        len: nat,
        written: usize,
        outcome: IoOutcome,
    ) -> bool {
        &&& written <= len
        &&& outcome matches IoOutcome::Done(n) ==> written + n <= len
        &&& self.sockets().contains_key(token) ==> self.sockets()[token] is Tcp
        &&& self.sockets().contains_key(token) && outcome is WouldBlock
            ==> self.sockets()[token].can_stash((len - written) as nat)
    }

    /// What a registration does with the poller's answer. Where the poller took
    /// the socket, the socket is stored under the token that was next, knows its
    /// token and is established, and that token is returned. Where the poller
    /// refused, the reactor stays as it was, and there is no token.
    pub open spec fn did_register(
        before: &Reactor,
        after: &Reactor,
        socket: ReactorSocket,
        accepted: bool,
        result: Option<usize>,
    ) -> bool {
        if accepted {
            let token = before.next_token();
            &&& result == Some(token)
            &&& !before.sockets().contains_key(token)
            &&& after.sockets() == before.sockets().insert(token, after.sockets()[token])
            &&& after.sockets()[token].registered_as(&socket, token)
            &&& after.quitting() == before.quitting()
        } else {
            result is None && after.same_as(before)
        }
    }

    /// `after` is `before` with the socket under `token` taken out, if there was
    /// one, and `action` hands it over with its establishment flag cleared; the
    /// token is the next to be given again.
    pub open spec fn did_shutdown(
        before: &Reactor,
        after: &Reactor,
        token: usize,
        action: Action,
    ) -> bool {
        if before.sockets().contains_key(token) {
            &&& action matches Action::Teardown { token: gone, socket }
            &&& gone == token
            &&& socket.with_established(&before.sockets()[token], false)
            &&& after.sockets() == before.sockets().remove(token)
            &&& after.next_token() == token
            &&& after.quitting() == before.quitting()
        } else {
            &&& action == (Action::Missing { token })
            &&& after.same_as(before)
        }
    }

    /// What a reregistration does with the poller's answer. Where the poller took
    /// the new interest, the socket under `token` declares it, if it is one that
    /// can. Where the poller refused, the reactor stays as it was.
    pub open spec fn did_reregister(
        before: &Reactor,
        after: &Reactor,
        token: usize,
        interest: Interest,
        accepted: bool,
    ) -> bool {
        if accepted {
            &&& after.same_but(before, token)
            &&& after.sockets()[token].with_interest(&before.sockets()[token], interest)
            &&& after.sockets()[token].declared_interest()
                == before.sockets()[token].interest_after(interest)
        } else {
            after.same_as(before)
        }
    }

    /// What a write signal does. Without a socket under `token` it is dropped.
    /// The listener takes no writes: it is shut down. A connection that waits for
    /// writability gets the payload behind its pending output, so that the order
    /// of writes is kept. Any other connection is written to directly: `action`
    /// hands the payload back for the first attempt.
    pub open spec fn did_write(
        before: &Reactor,
        after: &Reactor,
        token: usize,
        data: Seq<u8>,
        action: Action,
    ) -> bool {
        if !before.sockets().contains_key(token) {
            action == (Action::Missing { token }) && after.same_as(before)
        } else if before.sockets()[token] is Tcp {
            if before.sockets()[token].declared_interest().has_writable() {
                &&& action is Idle
                &&& after.same_but(before, token)
                &&& after.sockets()[token].with_stashed(&before.sockets()[token], data)
            } else {
                &&& action matches Action::Write { token: target, data: payload, written }
                &&& target == token
                &&& payload@ == data
                &&& written == 0
                &&& after.same_as(before)
            }
        } else {
            Self::did_shutdown(before, after, token, action)
        }
    }

    /// What the outcome of a direct write does, after `written` bytes of `data`
    /// had gone out before it. Without a socket under `token` it is dropped. Bytes
    /// that went out count; when the last has gone, the write is done, and until
    /// then `action` asks for the next attempt. A peer that has closed and an
    /// error shut the connection down. On a socket that would block, the bytes
    /// that have not gone out are put behind the pending output, and `action`
    /// asks the poller to watch the connection for writability too.
    pub open spec fn did_write_outcome(
        before: &Reactor,
        after: &Reactor,
        token: usize,
        data: Seq<u8>,
        written: usize,
        outcome: IoOutcome,
        action: Action,
    ) -> bool {
        if !before.sockets().contains_key(token) {
            action == (Action::Missing { token }) && after.same_as(before)
        } else {
            match outcome {
                IoOutcome::Done(n) => if n == 0 {
                    Self::did_shutdown(before, after, token, action)
                } else if written + n == data.len() {
                    action is Idle && after.same_as(before)
                } else {
                    &&& action matches Action::Write { token: target, data: payload, written: sum }
                    &&& target == token
                    &&& payload@ == data
                    &&& sum == written + n
                    &&& after.same_as(before)
                },
                IoOutcome::WouldBlock => if written < data.len() {
                    let interest = before.sockets()[token].declared_interest().and_writable();
                    &&& action == (Action::Reregister { token, interest })
                    &&& after.same_but(before, token)
                    &&& after.sockets()[token].with_stashed(
                        &before.sockets()[token],
                        data.subrange(written as int, data.len() as int),
                    )
                } else {
                    action is Idle && after.same_as(before)
                },
                IoOutcome::Failed => Self::did_shutdown(before, after, token, action),
            }
        }
    }

    /// What a send signal does: `action` asks for the datagram to be sent from the
    /// socket under `token`, or says that there is none. The reactor stays as it
    /// is.
    pub open spec fn did_send(
        before: &Reactor,
        after: &Reactor,
        token: usize,
        addr: SocketAddress,
        data: Seq<u8>,
        action: Action,
    ) -> bool {
        &&& after.same_as(before)
        &&& if before.sockets().contains_key(token) {
            &&& action matches Action::Send { token: target, addr: to, data: payload }
            &&& target == token
            &&& to == addr
            &&& payload@ == data
        } else {
            action == (Action::Missing { token })
        }
    }

    /// Sets the quit flag: the run loop ends after the current pass.
    pub fn quit(&mut self)
        ensures
            final(self).quitting(),
            final(self).sockets() == old(self).sockets(),
            final(self).next_token() == old(self).next_token(),
    {
        self.quit = true;
    }

    /// Whether there is room for one more socket.
    pub fn can_register(&self) -> (room: bool)
        ensures
            room == (self.sockets().len() < MAX_SOCKETS),
    {
        slab_len(&self.sockets) < MAX_SOCKETS
    }

    /// Takes `socket` in, or not, by the answer of the poller, which was asked to
    /// watch it under the token that is next, for the interest that the socket
    /// declares.
    pub fn register(&mut self, socket: ReactorSocket, accepted: bool) -> (result: Option<usize>)
        requires
            old(self).wf(),
            socket.wf(),
            accepted ==> old(self).sockets().len() < MAX_SOCKETS,
        ensures
            final(self).wf(),
            Self::did_register(old(self), final(self), socket, accepted, result),
            final(self).declared() == if accepted {
                old(self).declared().insert(old(self).next_token(), socket.declared_interest())
            } else {
                old(self).declared()
            },
    {
        if !accepted {
            return None;
        }
        let token = slab_insert(&mut self.sockets, socket);
        let stored = self.held(token);
        stored.set_poll_token(token);
        stored.handle_establish(true);
        assert(self.sockets() =~= old(self).sockets().insert(token, self.sockets()[token]));
        assert(self.declared() =~= old(self).declared().insert(token, socket.declared_interest()));
        Some(token)
    }

    /// Takes the socket under `token` out, with its establishment flag cleared.
    /// Without such a socket nothing changes.
    pub fn shutdown(&mut self, token: usize) -> (action: Action)
        requires
            old(self).wf(),
        ensures
            final(self).wf(),
            Self::did_shutdown(old(self), final(self), token, action),
            final(self).declared() == old(self).declared().remove(token),
    {
        if !slab_contains(&self.sockets, token) {
            assert(self.declared() =~= old(self).declared().remove(token));
            return Action::Missing { token };
        }
        let mut socket = slab_remove(&mut self.sockets, token);
        socket.handle_establish(false);
        assert(self.declared() =~= old(self).declared().remove(token));
        Action::Teardown { token, socket }
    }

    /// Has the socket under `token` declare `interest`, or not, by the answer of
    /// the poller, which was asked to watch the socket for it.
    pub fn reregister(&mut self, token: usize, interest: Interest, accepted: bool)
        requires
            old(self).wf(),
            old(self).sockets().contains_key(token),
        ensures
            final(self).wf(),
            Self::did_reregister(old(self), final(self), token, interest, accepted),
            final(self).declared() == if accepted {
                old(self).declared().insert(
                    token,
                    old(self).sockets()[token].interest_after(interest),
                )
            } else {
                old(self).declared()
            },
    {
        if accepted {
            self.held(token).set_interest(interest);
            assert(self.declared() =~= old(self).declared().insert(
                token,
                old(self).sockets()[token].interest_after(interest),
            ));
        }
    }
}

/// How a reactor goes about a write, decided while it looks at the socket.
enum WritePlan {
    Missing,
    Stashed,
    Direct,
    Refused,
}

impl Reactor {
    /// Applies a write of `data` to the connection under `token`.
    pub fn write(&mut self, token: usize, data: Vec<u8>) -> (action: Action)
        requires
            old(self).wf(),
            old(self).takes_write(token, data@.len()),
        ensures
            final(self).wf(),
            Self::did_write(old(self), final(self), token, data@, action),
            final(self).declared() == if action is Teardown {
                old(self).declared().remove(token)
            } else {
                old(self).declared()
            },
    {
        let plan = match slab_get_mut(&mut self.sockets, token) {
            None => WritePlan::Missing,
            Some(socket) => {
                if !socket.can_write() {
                    WritePlan::Refused
                } else if socket.interest().is_writable() {
                    socket.stash_output(data.as_slice());
                    WritePlan::Stashed
                } else {
                    WritePlan::Direct
                }
            },
        };
        match plan {
            WritePlan::Missing => Action::Missing { token },
            WritePlan::Stashed => {
                assert(self.declared() =~= old(self).declared());
                Action::Idle
            },
            WritePlan::Direct => {
                assert(self.sockets() =~= old(self).sockets());
                Action::Write { token, data, written: 0 }
            },
            WritePlan::Refused => {
                assert(self.sockets() =~= old(self).sockets());
                self.shutdown(token)
            },
        }
    }

    /// Whether the outcome of a direct write can be applied.
    pub fn can_handle_write_outcome(
        &self,
        token: usize,
        len: usize,
        written: usize,
        outcome: IoOutcome,
    ) -> (ok: bool)
        requires
            self.wf(),
        ensures
            ok == self.takes_write_outcome(token, len as nat, written, outcome),
    {
        if written > len {
            return false;
        }
        let fits = match outcome {
            IoOutcome::Done(n) => n <= len - written,
            _ => true,
        };
        let blocked = match outcome {
            IoOutcome::WouldBlock => true,
            _ => false,
        };
        match slab_get(&self.sockets, token) {
            None => fits,
            Some(socket) => fits && socket.can_write() && (!blocked || socket.has_room_for(
                len - written,
            )),
        }
    }

    /// Applies the outcome of a direct write to the connection under `token`:
    /// the attempt was made with the bytes of `data` from offset `written` on.
    pub fn write_outcome(
        &mut self,
        token: usize,
        data: Vec<u8>,
        written: usize,
        outcome: IoOutcome,
    ) -> (action: Action)
        requires
            old(self).wf(),
            old(self).takes_write_outcome(token, data@.len(), written, outcome),
        ensures
            final(self).wf(),
            Self::did_write_outcome(old(self), final(self), token, data@, written, outcome, action),
            final(self).declared() == if action is Teardown {
                old(self).declared().remove(token)
            } else {
                old(self).declared()
            },
    {
        if !slab_contains(&self.sockets, token) {
            return Action::Missing { token };
        }
        let size = data.len();
        match outcome {
            IoOutcome::Done(bytes_written) => {
                if bytes_written == 0 {
                    return self.shutdown(token);
                }
                let total_written = written + bytes_written;
                if total_written == size {
                    Action::Idle
                } else {
                    Action::Write { token, data, written: total_written }
                }
            },
            IoOutcome::WouldBlock => {
                if written < size {
                    let rest = vstd::slice::slice_subrange(data.as_slice(), written, size);
                    let socket = self.held(token);
                    socket.stash_output(rest);
                    let interest = socket.interest().add(Interest::Writable);
                    assert(self.declared() =~= old(self).declared());
                    Action::Reregister { token, interest }
                } else {
                    Action::Idle
                }
            },
            IoOutcome::Failed => self.shutdown(token),
        }
    }

    /// Applies a send of `data` to `addr` from the datagram socket under `token`.
    pub fn send(&self, token: usize, addr: SocketAddress, data: Vec<u8>) -> (action: Action)
        requires
            self.wf(),
            self.takes_send(token),
        ensures
            Self::did_send(self, self, token, addr, data@, action),
    {
        if slab_contains(&self.sockets, token) {
            Action::Send { token, addr, data }
        } else {
            Action::Missing { token }
        }
    }

    /// What applying `signal` does, by the kind of signal. A registration and a
    /// reregistration change nothing yet: `action` asks the poller first, for the
    /// interest that the socket declares afterwards, and `register` or
    /// `reregister` then takes the poller's answer.
    pub open spec fn did_handle(
        before: &Reactor,
        after: &Reactor,
        signal: ReactorSignal,
        action: Action,
    ) -> bool {
        match signal {
            ReactorSignal::Quit => {
                &&& action is Quit
                &&& after.quitting()
                &&& after.sockets() == before.sockets()
                &&& after.next_token() == before.next_token()
            },
            ReactorSignal::Register(socket) => {
                &&& action == (Action::Register {
                    token: before.next_token(),
                    interest: socket.declared_interest(),
                    socket,
                })
                &&& after.same_as(before)
            },
            ReactorSignal::ShutDown(token) => Self::did_shutdown(before, after, token, action),
            ReactorSignal::ReRegister(token, interest) => {
                &&& action == (Action::Reregister {
                    token,
                    interest: before.sockets()[token].interest_after(interest),
                })
                &&& after.same_as(before)
            },
            ReactorSignal::Write(token, data) => Self::did_write(
                before,
                after,
                token,
                data@,
                action,
            ),
            ReactorSignal::Send(token, addr, data) => Self::did_send(
                before,
                after,
                token,
                addr,
                data@,
                action,
            ),
        }
    }

    /// Whether the reactor can apply `signal`.
    pub fn can_handle(&self, signal: &ReactorSignal) -> (ok: bool)
        requires
            self.wf(),
        ensures
            ok == self.accepts(signal),
    {
        match signal {
            ReactorSignal::Quit => true,
            ReactorSignal::Register(_) => true,
            ReactorSignal::ShutDown(_) => true,
            ReactorSignal::ReRegister(token, _) => slab_contains(&self.sockets, *token),
            ReactorSignal::Write(token, data) => match slab_get(&self.sockets, *token) {
                None => true,
                Some(socket) => {
                    if socket.can_send() {
                        false
                    } else if socket.can_write() && socket.interest().is_writable() {
                        socket.has_room_for(data.len())
                    } else {
                        true
                    }
                },
            },
            ReactorSignal::Send(token, _, _) => match slab_get(&self.sockets, *token) {
                None => true,
                Some(socket) => socket.can_send(),
            },
        }
    }

    /// Applies one signal and says what the caller has to do for it.
    pub fn handle_signal(&mut self, signal: ReactorSignal) -> (action: Action)
        requires
            old(self).wf(),
            old(self).accepts(&signal),
        ensures
            final(self).wf(),
            Self::did_handle(old(self), final(self), signal, action),
            final(self).declared() == match action {
                Action::Teardown { token, socket } => old(self).declared().remove(token),
                _ => old(self).declared(),
            },
    {
        match signal {
            ReactorSignal::Quit => {
                self.quit();
                assert(self.declared() =~= old(self).declared());
                Action::Quit
            },
            ReactorSignal::Register(socket) => {
                let token = self.vacant_token();
                let interest = socket.interest();
                Action::Register { token, interest, socket }
            },
            ReactorSignal::ShutDown(token) => self.shutdown(token),
            ReactorSignal::ReRegister(token, interest) => {
                let interest = match slab_get(&self.sockets, token) {
                    Some(socket) => socket.settled_interest(interest),
                    None => interest,
                };
                Action::Reregister { token, interest }
            },
            ReactorSignal::Write(token, data) => self.write(token, data),
            ReactorSignal::Send(token, addr, data) => self.send(token, addr, data),
        }
    }
}

/// A registration keeps the poller in line: a poller that watched every socket of
/// the reactor for its declared interest, and that took the new socket under the
/// token and for the interest that the action named, or refused it, does so
/// afterwards.
pub proof fn lemma_register_keeps_in_line(
    before: Reactor,
    after: Reactor,
    socket: ReactorSocket,
    accepted: bool,
    result: Option<usize>,
    poller: Map<usize, Interest>,
)
    requires
        before.in_line(poller),
        Reactor::did_register(&before, &after, socket, accepted, result),
    ensures
        after.in_line(
            if accepted {
                poller.insert(before.next_token(), socket.declared_interest())
            } else {
                poller
            },
        ),
{
    if accepted {
        let token = before.next_token();
        assert forall|k: usize| #[trigger] after.sockets().contains_key(k) && k != token implies
            before.sockets().contains_key(k) && after.sockets()[k] == before.sockets()[k] by {}
    }
}

/// A reregistration keeps the poller in line, whatever kind of socket it names
/// and whether the poller takes it or refuses it: the poller is asked for the
/// interest that the socket declares afterwards, and the socket declares it only
/// when the poller has taken it.
pub proof fn lemma_reregister_keeps_in_line(
    before: Reactor,
    after: Reactor,
    token: usize,
    asked: Interest,
    accepted: bool,
    poller: Map<usize, Interest>,
)
    requires
        before.in_line(poller),
        before.sockets().contains_key(token),
        Reactor::did_reregister(
            &before,
            &after,
            token,
            before.sockets()[token].interest_after(asked),
            accepted,
        ),
    ensures
        after.in_line(
            if accepted {
                poller.insert(token, before.sockets()[token].interest_after(asked))
            } else {
                poller
            },
        ),
{
    if accepted {
        let interest = before.sockets()[token].interest_after(asked);
        assert(before.sockets()[token].interest_after(interest) == interest);
        assert forall|k: usize| #[trigger] after.sockets().contains_key(k) && k != token implies
            before.sockets().contains_key(k) && after.sockets()[k] == before.sockets()[k] by {}
    }
}

/// A shutdown keeps the poller in line, whether the poller lets go of the token
/// or not: the socket is no longer held.
pub proof fn lemma_shutdown_keeps_in_line(
    before: Reactor,
    after: Reactor,
    token: usize,
    action: Action,
    poller: Map<usize, Interest>,
)
    requires
        before.in_line(poller),
        Reactor::did_shutdown(&before, &after, token, action),
    ensures
        after.in_line(poller),
        after.in_line(poller.remove(token)),
{
    assert forall|k: usize| #[trigger] after.sockets().contains_key(k) implies k != token
        && before.sockets().contains_key(k) && after.sockets()[k] == before.sockets()[k] by {}
}

} // verus!
