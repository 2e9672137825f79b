//! A TLS-terminating reverse proxy engine, verified where its logic is its
//! own: the byte relay and the bidirectional race between its two directions,
//! the accept-loop and lifecycle decisions, configuration builders, and the
//! rules for loading TLS material. The surrounding runtime (sockets, the
//! handshake itself, schedulers) is driven by a thin unverified shell that
//! consumes the plans and state machines exported here.

pub mod acceptor;
pub mod digits;
pub mod fib;
pub mod lifecycle;
pub mod proxy;
pub mod relay;
pub mod tcp_client;
pub mod tcp_server;
pub mod tls;
pub mod tls_client;
pub mod tls_server;
pub mod validate;
