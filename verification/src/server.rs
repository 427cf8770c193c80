use crate::address::SocketAddress;
use crate::event_loop_thread_pool::EventLoopThreadPool;
use crate::reactor_remote::ReactorId;
use crate::reactor_remote::ReactorRemote;
use vstd::prelude::*;

verus! {

/// Number of sockets that the acceptor reactor and the datagram reactor of a server
/// are made for.
pub const SERVER_SOCKET_CAPACITY: usize = 2;

/// What a server serves.
#[derive(Clone, Copy, Debug, PartialEq, Eq, Structural)]
pub enum ServerMode {
    Tcp,
    Udp,
    TcpUdp,
}

/// One step of bringing a server up.
#[derive(Clone, Copy, Debug, PartialEq, Eq, Structural)]
pub enum RunStep {
    /// Start the worker reactors, each on a thread of its own.
    StartWorkers { count: usize },
    /// Register the datagram socket, which is bound to the server's address, with
    /// the datagram reactor.
    RegisterUdp,
    /// Run the datagram reactor on a thread of its own.
    SpawnUdpReactor,
    /// Run the datagram reactor on the calling thread until it quits.
    RunUdpReactor,
    /// Register the listener, which is bound to the server's address, with the
    /// acceptor reactor.
    RegisterAcceptor,
    /// Run the acceptor reactor on the calling thread until it quits.
    RunAcceptorReactor,
}

/// The configuration of a server: where it listens, what it serves and over how
/// many worker reactors it spreads its connections. The address is one that was
/// read and bound before the server is made: a text that names no address, or an
/// address that cannot be bound, never gets as far as a server.
pub struct Server {
    addr: SocketAddress,
    mode: ServerMode,
    event_loop_thread_pool: Option<EventLoopThreadPool>,
}

impl Server {
    /// The address.
    pub closed spec fn address(&self) -> SocketAddress {
        self.addr
    }

    /// What the server serves.
    pub closed spec fn mode(&self) -> ServerMode {
        self.mode
    }

    /// Number of worker reactors: at least one where TCP is served, none where it
    /// is not.
    pub closed spec fn workers(&self) -> nat {
        match self.event_loop_thread_pool {
            Some(pool) => pool.count(),
            None => 0,
        }
    }

    /// There is a pool of workers exactly where TCP is served.
    pub closed spec fn wf(&self) -> bool {
        match self.event_loop_thread_pool {
            Some(pool) => pool.wf() && self.mode != ServerMode::Udp,
            None => self.mode == ServerMode::Udp,
        }
    }

    /// The number of workers that a server has when `num_threads` are asked for:
    /// one where none is.
    pub open spec fn coerced(num_threads: usize) -> nat {
        if num_threads == 0 {
            1
        } else {
            num_threads as nat
        }
    }

    /// The steps that bring a server up, in order: first the workers, where TCP is
    /// served; then the datagram socket, on a thread of its own where TCP is
    /// served too; last the listener, on the calling thread.
    pub open spec fn run_steps(mode: ServerMode, workers: nat) -> Seq<RunStep> {
        match mode {
            ServerMode::Tcp => seq![
                RunStep::StartWorkers { count: workers as usize },
                RunStep::RegisterAcceptor,
                RunStep::RunAcceptorReactor,
            ],
            ServerMode::Udp => seq![RunStep::RegisterUdp, RunStep::RunUdpReactor],
            ServerMode::TcpUdp => seq![
                RunStep::StartWorkers { count: workers as usize },
                RunStep::RegisterUdp,
                RunStep::SpawnUdpReactor,
                RunStep::RegisterAcceptor,
                RunStep::RunAcceptorReactor,
            ],
        }
    }

    /// A server for TCP on `addr` with `num_threads` workers, or one worker where
    /// zero is given.
    pub fn tcp_server(addr: SocketAddress, num_threads: usize) -> (server: Server)
        ensures
            server.wf(),
            server.address() == addr,
            server.mode() == ServerMode::Tcp,
            server.workers() == Self::coerced(num_threads),
    {
        Server {
            addr,
            mode: ServerMode::Tcp,
            event_loop_thread_pool: Some(EventLoopThreadPool::new(num_threads)),
        }
    }

    /// A server for UDP on `addr`.
    pub fn udp_server(addr: SocketAddress) -> (server: Server)
        ensures
            server.wf(),
            server.address() == addr,
            server.mode() == ServerMode::Udp,
            server.workers() == 0,
    {
        Server { addr, mode: ServerMode::Udp, event_loop_thread_pool: None }
    }

    /// A server for TCP and UDP on `addr` with `num_threads` workers, or one worker
    /// where zero is given.
    pub fn tcp_udp_server(addr: SocketAddress, num_threads: usize) -> (server: Server)
        ensures
            server.wf(),
            server.address() == addr,
            server.mode() == ServerMode::TcpUdp,
            server.workers() == Self::coerced(num_threads),
    {
        Server {
            addr,
            mode: ServerMode::TcpUdp,
            event_loop_thread_pool: Some(EventLoopThreadPool::new(num_threads)),
        }
    }

    /// The address.
    pub fn addr(&self) -> (addr: SocketAddress)
        ensures
            addr == self.address(),
    {
        self.addr
    }

    /// The pool of workers, where TCP is served.
    pub fn event_loop_thread_pool(&self) -> (pool: Option<EventLoopThreadPool>)
        requires
            self.wf(),
        ensures
            pool is Some == (self.mode() != ServerMode::Udp),
            pool matches Some(p) ==> p.wf() && p.count() == self.workers(),
    {
        self.event_loop_thread_pool
    }

    /// The steps that bring the server up, in the order in which they are taken.
    /// The last of them ends when the server is told to quit.
    pub fn run(&self) -> (steps: Vec<RunStep>)
        requires
            self.wf(),
        ensures
            steps@ == Self::run_steps(self.mode(), self.workers()),
    {
        let mut steps: Vec<RunStep> = Vec::new();
        match self.event_loop_thread_pool {
            Some(pool) => {
                steps.push(RunStep::StartWorkers { count: pool.thread_count() });
            },
            None => {},
        }
        match self.mode {
            ServerMode::Tcp => {
                steps.push(RunStep::RegisterAcceptor);
                steps.push(RunStep::RunAcceptorReactor);
            },
            ServerMode::Udp => {
                steps.push(RunStep::RegisterUdp);
                steps.push(RunStep::RunUdpReactor);
            },
            ServerMode::TcpUdp => {
                steps.push(RunStep::RegisterUdp);
                steps.push(RunStep::SpawnUdpReactor);
                steps.push(RunStep::RegisterAcceptor);
                steps.push(RunStep::RunAcceptorReactor);
            },
        }
        assert(steps@ =~= Self::run_steps(self.mode(), self.workers()));
        steps
    }

    /// The handle by which any thread stops the server: it knows every reactor
    /// that the server has.
    pub fn get_quiter(&self) -> (quiter: ServerQuiter)
        requires
            self.wf(),
        ensures
            quiter.targets() == ServerQuiter::all_reactors(self.mode(), self.workers()),
    {
        let acceptor_remote = match self.mode {
            ServerMode::Udp => None,
            _ => Some(ReactorRemote::new(ReactorId::Acceptor)),
        };
        let udp_remote = match self.mode {
            ServerMode::Tcp => None,
            _ => Some(ReactorRemote::new(ReactorId::Udp)),
        };
        let tcp_remotes = match self.event_loop_thread_pool {
            Some(pool) => {
                let indices = pool.get_remotes();
                let mut remotes: Vec<ReactorRemote> = Vec::new();
                let mut i: usize = 0;
                while i < indices.len()
                    invariant
                        i <= indices@.len(),
                        indices@ == Seq::new(self.workers(), |k: int| k as usize),
                        remotes@ == Seq::new(
                            i as nat,
                            |k: int| ReactorRemote { reactor: ReactorId::Worker(k as usize) },
                        ),
                    decreases indices.len() - i,
                {
                    remotes.push(ReactorRemote::new(ReactorId::Worker(indices[i])));
                    assert(remotes@ =~= Seq::new(
                        (i + 1) as nat,
                        |k: int| ReactorRemote { reactor: ReactorId::Worker(k as usize) },
                    ));
                    i += 1;
                }
                Some(remotes)
            },
            None => None,
        };
        let quiter = ServerQuiter::new(acceptor_remote, tcp_remotes, udp_remote);
        assert(quiter.targets() =~= ServerQuiter::all_reactors(self.mode(), self.workers()));
        quiter
    }
}

/// The handles on the reactors of a server, by which it is stopped.
pub struct ServerQuiter {
    acceptor_remote: Option<ReactorRemote>,
    tcp_remotes: Option<Vec<ReactorRemote>>,
    udp_remote: Option<ReactorRemote>,
}

impl ServerQuiter {
    /// The reactors that are told to quit, in the order in which they are told: the
    /// acceptor's, the workers' in order, the datagram reactor's.
    pub closed spec fn targets(&self) -> Seq<ReactorId> {
        Self::listed(self.acceptor_remote) + (match self.tcp_remotes {
            Some(remotes) => Seq::new(remotes@.len(), |i: int| remotes@[i].reactor),
            None => Seq::<ReactorId>::empty(),
        }) + Self::listed(self.udp_remote)
    }

    /// The reactor of a handle that may be there, as a sequence of none or one.
    pub open spec fn listed(remote: Option<ReactorRemote>) -> Seq<ReactorId> {
        match remote {
            Some(remote) => seq![remote.reactor],
            None => Seq::<ReactorId>::empty(),
        }
    }

    /// The reactors of a server of the given mode with the given number of
    /// workers: the acceptor's and the workers' where TCP is served, the datagram
    /// reactor's where UDP is.
    pub open spec fn all_reactors(mode: ServerMode, workers: nat) -> Seq<ReactorId> {
        let tcp = seq![ReactorId::Acceptor] + Seq::new(
            workers,
            |i: int| ReactorId::Worker(i as usize),
        );
        match mode {
            ServerMode::Tcp => tcp,
            ServerMode::Udp => seq![ReactorId::Udp],
            ServerMode::TcpUdp => tcp + seq![ReactorId::Udp],
        }
    }

    /// The handle that stops the reactors behind the given handles.
    pub fn new(
        acceptor_remote: Option<ReactorRemote>,
        tcp_remotes: Option<Vec<ReactorRemote>>,
        udp_remote: Option<ReactorRemote>,
    ) -> (quiter: ServerQuiter)
        ensures
            quiter.targets() == Self::listed(acceptor_remote) + (match tcp_remotes {
                Some(remotes) => Seq::new(remotes@.len(), |i: int| remotes@[i].reactor),
                None => Seq::<ReactorId>::empty(),
            }) + Self::listed(udp_remote),
    {
        ServerQuiter { acceptor_remote, tcp_remotes, udp_remote }
    }

    /// The reactors to which a quit signal is to be sent, in order: every reactor
    /// of the server, once.
    pub fn quit(&self) -> (reactors: Vec<ReactorId>)
        ensures
            reactors@ == self.targets(),
    {
        let mut reactors: Vec<ReactorId> = Vec::new();
        match self.acceptor_remote {
            Some(remote) => {
                reactors.push(remote.reactor);
            },
            None => {},
        }
        let ghost front = reactors@;
        match &self.tcp_remotes {
            Some(remotes) => {
                let mut i: usize = 0;
                while i < remotes.len()
                    invariant
                        i <= remotes@.len(),
                        reactors@ == front + Seq::new(i as nat, |k: int| remotes@[k].reactor),
                    decreases remotes.len() - i,
                {
                    reactors.push(remotes[i].reactor);
                    assert(reactors@ =~= front + Seq::new(
                        (i + 1) as nat,
                        |k: int| remotes@[k].reactor,
                    ));
                    i += 1;
                }
            },
            None => {
                assert(reactors@ =~= front + Seq::<ReactorId>::empty());
            },
        }
        match self.udp_remote {
            Some(remote) => {
                reactors.push(remote.reactor);
            },
            None => {},
        }
        assert(reactors@ =~= self.targets());
        reactors
    }
}

} // verus!
