pub mod acceptor;
pub mod address;
pub mod buffer;
pub mod event_loop_thread_pool;
pub mod interest;
pub mod reactor;
pub mod reactor_channel;
pub mod reactor_remote;
pub mod reactor_socket;
pub mod server;
pub mod socket_remote;
pub mod tcp_connection;
pub mod tuclient;
pub mod udp_socket;

pub use acceptor::Acceptor;
pub use address::SocketAddress;
pub use buffer::Buffer;
pub use event_loop_thread_pool::EventLoopThreadPool;
pub use interest::Interest;
pub use reactor::Reactor;
pub use reactor_remote::ReactorRemote;
pub use reactor_socket::ReactorSocket;
pub use server::Server;
pub use socket_remote::SocketRemote;
pub use tcp_connection::TcpConnection;
pub use tuclient::Client;
pub use udp_socket::UdpSocket;
