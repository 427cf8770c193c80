use crate::address::SocketAddress;
use crate::buffer::Buffer;
use crate::interest::Interest;
use crate::socket_remote::SocketRemote;
use vstd::prelude::*;

verus! {

/// How a nonblocking read or write on a socket ended.
#[derive(Clone, Copy, Debug, PartialEq, Eq, Structural)]
pub enum IoOutcome {
    /// It moved this many bytes; zero means that the peer has closed.
    Done(usize),
    /// Nothing can be moved right now.
    WouldBlock,
    /// Any other error.
    Failed,
}

/// Which of its two handlers a connection runs on a readiness event.
#[derive(Clone, Copy, Debug, PartialEq, Eq, Structural)]
pub struct EventPlan {
    pub read: bool,
    pub write: bool,
}

/// What follows one read in the read handler.
#[derive(Clone, Copy, Debug, PartialEq, Eq, Structural)]
pub enum ReadStep {
    /// Read again; `total_read` bytes have arrived in this batch so far.
    Again { total_read: usize },
    /// The batch is over. With `deliver` the message callback runs on the input
    /// buffer; with `shutdown` a shutdown of the connection is enqueued after that.
    Finish { deliver: bool, shutdown: bool },
}

/// What follows one write in the write handler.
#[derive(Clone, Copy, Debug, PartialEq, Eq, Structural)]
pub enum WriteStep {
    /// Output is still pending: write again.
    Again,
    /// Stop writing and keep the interest as it is.
    Stop,
    /// The output buffer is empty now: stop, and enqueue a reregistration for
    /// `interest`, which no longer asks for writability.
    Drained { interest: Interest },
    /// Stop, and enqueue a shutdown of the connection.
    Shutdown,
}

/// The number of bytes of a batch after `bytes_read` more arrived, held at the
/// largest number there is.
pub open spec fn batch_total(total_read: usize, bytes_read: usize) -> usize {
    if total_read + bytes_read > usize::MAX {
        usize::MAX
    } else {
        (total_read + bytes_read) as usize
    }
}

/// The step that follows a read which ended as `outcome`, after `total_read` bytes
/// of this batch: more bytes mean another read; a closed peer ends the batch with
/// a shutdown, the bytes of the batch delivered first; nothing more to read ends
/// it with the bytes delivered; an error ends it with a shutdown and no delivery.
pub open spec fn read_step(total_read: usize, outcome: IoOutcome) -> ReadStep {
    match outcome {
        IoOutcome::Done(bytes_read) => if bytes_read == 0 {
            ReadStep::Finish { deliver: total_read > 0, shutdown: true }
        } else {
            ReadStep::Again { total_read: batch_total(total_read, bytes_read) }
        },
        IoOutcome::WouldBlock => ReadStep::Finish { deliver: total_read > 0, shutdown: false },
        IoOutcome::Failed => ReadStep::Finish { deliver: false, shutdown: true },
    }
}

/// The state of one TCP connection that a reactor keeps: the bytes that arrived
/// and wait for the message callback, the bytes that wait to be written, the
/// interest, and the token and handle that registration gives.
pub struct TcpConnection {
    input_buffer: Buffer,
    output_buffer: Buffer,
    local_addr: SocketAddress,
    peer_addr: SocketAddress,
    remote: Option<SocketRemote>,
    interest: Interest,
    poll_token: Option<usize>,
    is_established: bool,
}

impl TcpConnection {
    /// The input buffer.
    pub closed spec fn input(&self) -> Buffer {
        self.input_buffer
    }

    /// The output buffer.
    pub closed spec fn output(&self) -> Buffer {
        self.output_buffer
    }

    /// The bytes that wait to be written, oldest first.
    pub open spec fn pending(&self) -> Seq<u8> {
        self.output()@
    }

    /// The interest that the connection declares.
    pub closed spec fn declared_interest(&self) -> Interest {
        self.interest
    }

    /// The token, once the connection is registered.
    pub closed spec fn token(&self) -> Option<usize> {
        self.poll_token
    }

    /// The establishment flag.
    pub closed spec fn established(&self) -> bool {
        self.is_established
    }

    /// The two addresses, local first.
    pub closed spec fn addresses(&self) -> (SocketAddress, SocketAddress) {
        (self.local_addr, self.peer_addr)
    }

    /// The handle, once the connection is registered.
    pub closed spec fn handle(&self) -> Option<SocketRemote> {
        self.remote
    }

    /// The handle that the connection has under `token`.
    pub open spec fn remote_for(&self, token: usize) -> SocketRemote {
        SocketRemote {
            local_addr: self.addresses().0,
            peer_addr: self.addresses().1,
            poll_token: token,
        }
    }

    /// Both buffers are well formed, and the handle is there exactly when the token
    /// is, and is the handle for that token and the connection's addresses.
    pub closed spec fn wf(&self) -> bool {
        &&& self.input_buffer.wf()
        &&& self.output_buffer.wf()
        &&& match self.poll_token {
            Some(token) => self.remote == Some(
                SocketRemote {
                    local_addr: self.local_addr,
                    peer_addr: self.peer_addr,
                    poll_token: token,
                },
            ),
            None => self.remote is None,
        }
    }

    /// `self` differs from `before` at most in its buffers.
    pub open spec fn same_registration(&self, before: &TcpConnection) -> bool {
        &&& self.declared_interest() == before.declared_interest()
        &&& self.token() == before.token()
        &&& self.established() == before.established()
        &&& self.addresses() == before.addresses()
        &&& self.handle() == before.handle()
    }

    /// A connection between `local_addr` and `peer_addr` that is not registered yet,
    /// with empty buffers.
    pub fn new(
        local_addr: SocketAddress,
        peer_addr: SocketAddress,
        interest: Interest,
    ) -> (connection: TcpConnection)
        ensures
            connection.wf(),
            connection.input()@ == Seq::<u8>::empty(),
            connection.pending() == Seq::<u8>::empty(),
            connection.declared_interest() == interest,
            connection.token() is None,
            connection.handle() is None,
            !connection.established(),
            connection.addresses() == (local_addr, peer_addr),
    {
        TcpConnection {
            input_buffer: Buffer::new(),
            output_buffer: Buffer::new(),
            local_addr,
            peer_addr,
            remote: None,
            interest,
            poll_token: None,
            is_established: false,
        }
    }

    /// The handle of a registered connection.
    pub fn remote(&self) -> (remote: SocketRemote)
        requires
            self.wf(),
            self.token() is Some,
        ensures
            Some(remote) == self.handle(),
            remote == self.remote_for(self.token().unwrap()),
    {
        self.remote.unwrap()
    }

    /// Which handlers run on an event: the read handler on readable readiness, and
    /// after it the write handler on writable readiness while the connection is
    /// interested in writing.
    pub fn handle_event(&self, readable: bool, writable: bool) -> (plan: EventPlan)
        ensures
            plan.read == readable,
            plan.write == (self.declared_interest().has_writable() && writable),
    {
        EventPlan { read: readable, write: self.interest.is_writable() && writable }
    }

    /// One step of the read handler: what follows a read into the input buffer that
    /// ended as `outcome`, after `total_read` bytes of this batch.
    pub fn handle_read(total_read: usize, outcome: IoOutcome) -> (step: ReadStep)
        ensures
            step == read_step(total_read, outcome),
    {
        match outcome {
            IoOutcome::Done(bytes_read) => {
                if bytes_read == 0 {
                    ReadStep::Finish { deliver: total_read > 0, shutdown: true }
                } else {
                    let total = match total_read.checked_add(bytes_read) {
                        Some(total) => total,
                        None => usize::MAX,
                    };
                    ReadStep::Again { total_read: total }
                }
            },
            IoOutcome::WouldBlock => ReadStep::Finish { deliver: total_read > 0, shutdown: false },
            IoOutcome::Failed => ReadStep::Finish { deliver: false, shutdown: true },
        }
    }

    /// The bytes to hand to the next write of the write handler: all that are
    /// pending, or `None` where nothing is.
    pub fn next_write(&self) -> (bytes: Option<&[u8]>)
        requires
            self.wf(),
        ensures
            self.pending().len() > 0 ==> bytes is Some && bytes.unwrap()@ == self.pending(),
            self.pending().len() == 0 ==> bytes is None,
    {
        if self.output_buffer.readable_bytes() > 0 {
            Some(self.output_buffer.as_slice())
        } else {
            None
        }
    }

    /// One step of the write handler: a write of the pending output ended as
    /// `outcome`. Bytes that were written leave the output buffer. When the last
    /// of them has left, the writing interest is given up; a peer that has closed
    /// and an error lead to a shutdown; a socket that would block keeps the rest
    /// and the interest.
    pub fn handle_write(&mut self, outcome: IoOutcome) -> (step: WriteStep)
        requires
            old(self).wf(),
            old(self).pending().len() > 0,
            outcome matches IoOutcome::Done(n) ==> n <= old(self).pending().len(),
        ensures
            final(self).wf(),
            final(self).same_registration(old(self)),
            final(self).input() == old(self).input(),
            match outcome {
                IoOutcome::Done(n) => if n == 0 {
                    step == WriteStep::Shutdown && final(self).output() == old(self).output()
                } else {
                    &&& final(self).pending() == old(self).pending().subrange(
                        n as int,
                        old(self).pending().len() as int,
                    )
                    &&& final(self).output().consumed_from(&old(self).output(), n as nat)
                    &&& step == if n < old(self).pending().len() {
                        WriteStep::Again
                    } else if old(self).declared_interest().has_writable() {
                        WriteStep::Drained { interest: Interest::Readable }
                    } else {
                        WriteStep::Stop
                    }
                },
                IoOutcome::WouldBlock => step == WriteStep::Stop
                    && final(self).output() == old(self).output(),
                IoOutcome::Failed => step == WriteStep::Shutdown
                    && final(self).output() == old(self).output(),
            },
    {
        match outcome {
            IoOutcome::Done(bytes_written) => {
                if bytes_written == 0 {
                    return WriteStep::Shutdown;
                }
                self.output_buffer.retrieve(bytes_written);
                if self.output_buffer.readable_bytes() > 0 {
                    WriteStep::Again
                } else if self.interest.is_writable() {
                    WriteStep::Drained { interest: self.interest.without_writable() }
                } else {
                    WriteStep::Stop
                }
            },
            IoOutcome::WouldBlock => WriteStep::Stop,
            IoOutcome::Failed => WriteStep::Shutdown,
        }
    }

    /// The input buffer, for a socket read and for the message callback. The
    /// connection stays well formed if the buffer does.
    pub fn input_buffer(&mut self) -> (buffer: &mut Buffer)
        requires
            old(self).wf(),
        ensures
            *buffer == old(self).input(),
            final(self).input() == *final(buffer),
            final(self).output() == old(self).output(),
            final(self).same_registration(old(self)),
            final(buffer).wf() ==> final(self).wf(),
    {
        &mut self.input_buffer
    }

    /// The interest that the connection declares.
    pub fn interest(&self) -> (interest: Interest)
        ensures
            interest == self.declared_interest(),
    {
        self.interest
    }

    /// Declares `interest`.
    pub fn set_interest(&mut self, interest: Interest)
        requires
            old(self).wf(),
        ensures
            final(self).wf(),
            final(self).declared_interest() == interest,
            final(self).token() == old(self).token(),
            final(self).established() == old(self).established(),
            final(self).addresses() == old(self).addresses(),
            final(self).handle() == old(self).handle(),
            final(self).input() == old(self).input(),
            final(self).output() == old(self).output(),
    {
        self.interest = interest;
    }

    /// Puts `data` behind the pending output.
    pub fn stash_output(&mut self, data: &[u8])
        requires
            old(self).wf(),
            old(self).output().can_take(data@.len()),
        ensures
            final(self).wf(),
            final(self).same_registration(old(self)),
            final(self).input() == old(self).input(),
            final(self).output().appended_from(&old(self).output(), data@),
            final(self).pending() == old(self).pending() + data@,
    {
        self.output_buffer.append(data);
    }

    /// Whether `len` more bytes can be put behind the pending output.
    pub fn can_stash(&self, len: usize) -> (room: bool)
        requires
            self.wf(),
        ensures
            room == self.output().can_take(len as nat),
    {
        self.output_buffer.has_room_for(len)
    }

    /// Sets the establishment flag of a registered connection: the connection
    /// callback, which is due with it, gets the connection's handle. A connection
    /// without a token has none and does not take the call.
    pub fn handle_establish(&mut self, is_established: bool)
        requires
            old(self).wf(),
            old(self).token() is Some,
        ensures
            final(self).wf(),
            final(self).established() == is_established,
            final(self).declared_interest() == old(self).declared_interest(),
            final(self).token() == old(self).token(),
            final(self).addresses() == old(self).addresses(),
            final(self).handle() == old(self).handle(),
            final(self).input() == old(self).input(),
            final(self).output() == old(self).output(),
    {
        self.is_established = is_established;
    }

    /// The token, once the connection is registered.
    pub fn poll_token(&self) -> (token: Option<usize>)
        ensures
            token == self.token(),
    {
        self.poll_token
    }

    /// Records the token that registration gave and makes the handle for it.
    pub fn set_poll_token(&mut self, token: usize)
        requires
            old(self).wf(),
        ensures
            final(self).wf(),
            final(self).token() == Some(token),
            final(self).handle() == Some(old(self).remote_for(token)),
            final(self).declared_interest() == old(self).declared_interest(),
            final(self).established() == old(self).established(),
            final(self).addresses() == old(self).addresses(),
            final(self).input() == old(self).input(),
            final(self).output() == old(self).output(),
    {
        self.poll_token = Some(token);
        self.remote = Some(SocketRemote::new(self.local_addr, self.peer_addr, token));
    }

    /// The establishment flag.
    pub fn is_established(&self) -> (is_established: bool)
        ensures
            is_established == self.established(),
    {
        self.is_established
    }
}

/// Output leaves a connection in the order in which it came: bytes that are
/// stashed go behind all that is pending, and the bytes that a write takes are the
/// first of those that are pending, so that what has gone out, followed by what is
/// pending, is always what was stashed, in order.
pub proof fn lemma_output_is_fifo(
    before: TcpConnection,
    stashed: TcpConnection,
    after: TcpConnection,
    data: Seq<u8>,
    written: nat,
)
    requires
        stashed.output().appended_from(&before.output(), data),
        written <= stashed.pending().len(),
        after.output().consumed_from(&stashed.output(), written),
    ensures
        stashed.pending() == before.pending() + data,
        stashed.pending().subrange(0, written as int) + after.pending() == before.pending()
            + data,
{
    assert(stashed.pending().subrange(0, written as int) + after.pending()
        =~= stashed.pending());
}

} // verus!
