//! The accept loop's decisions: where a listener binds, and what one turn of
//! the loop does with each event — a bind failure is fatal before the loop
//! starts, a per-connection accept failure is logged and the loop goes on,
//! and an accepted connection is dispatched to its own isolated handler
//! without waiting for it.

use vstd::prelude::*;
use crate::digits::{spec_decimal, decimal_bytes};

verus! {

/// The addresses a listener binds: the loopback interface only, or all
/// interfaces.
#[derive(Clone, Copy, PartialEq, Eq, Structural, Debug)]
pub enum BindScope {
    LocalOnly,
    Public,
}

/// What happened on one turn of the accept loop.
#[derive(Clone, Copy, PartialEq, Eq, Structural, Debug)]
pub enum AcceptEvent {
    /// The listener could not bind its address.
    BindFailed,
    /// One attempt to accept a connection failed.
    AcceptFailed,
    /// A connection arrived.
    Accepted,
}

/// What the loop does next.
#[derive(Clone, Copy, PartialEq, Eq, Structural, Debug)]
pub enum AcceptorAction {
    /// Stop before serving anything: the listener is unusable.
    Abort,
    /// Log and keep listening: the failure touched one connection only.
    ContinueListening,
    /// Hand the connection to a freshly spawned handler and keep listening
    /// without waiting for the handler.
    DispatchConnection,
}

/// The accept loop's decision table: binding failures are fatal, accept
/// failures are transient, connections are dispatched.
pub open spec fn spec_acceptor_decision(e: AcceptEvent) -> AcceptorAction {
    match e {
        AcceptEvent::BindFailed => AcceptorAction::Abort,
        AcceptEvent::AcceptFailed => AcceptorAction::ContinueListening,
        AcceptEvent::Accepted => AcceptorAction::DispatchConnection,
    }
}

/// Decide what one turn of the accept loop does with its event.
pub fn acceptor_decision(e: AcceptEvent) -> (r: AcceptorAction)
    ensures
        r == spec_acceptor_decision(e),
{
    match e {
        AcceptEvent::BindFailed => AcceptorAction::Abort,
        AcceptEvent::AcceptFailed => AcceptorAction::ContinueListening,
        AcceptEvent::Accepted => AcceptorAction::DispatchConnection,
    }
}

/// What happens to one accepted connection before its handler runs: the TLS
/// handshake, where one is configured, either succeeds or fails.
#[derive(Clone, Copy, PartialEq, Eq, Structural, Debug)]
pub enum ConnectionEvent {
    HandshakeSucceeded,
    HandshakeFailed,
}

/// What becomes of that connection.
#[derive(Clone, Copy, PartialEq, Eq, Structural, Debug)]
pub enum ConnectionAction {
    /// Run the per-connection handler on the established stream.
    RunHandler,
    /// Close the raw socket without transferring any data; the failure is
    /// terminal for this one connection and touches no other.
    CloseWithoutData,
}

/// A handshake failure closes its own connection and nothing else; a
/// successful handshake hands the stream to the handler. Never retried.
pub open spec fn spec_connection_decision(e: ConnectionEvent) -> ConnectionAction {
    match e {
        ConnectionEvent::HandshakeSucceeded => ConnectionAction::RunHandler,
        ConnectionEvent::HandshakeFailed => ConnectionAction::CloseWithoutData,
    }
}

/// Decide what to do with one accepted connection.
pub fn connection_decision(e: ConnectionEvent) -> (r: ConnectionAction)
    ensures
        r == spec_connection_decision(e),
{
    match e {
        ConnectionEvent::HandshakeSucceeded => ConnectionAction::RunHandler,
        ConnectionEvent::HandshakeFailed => ConnectionAction::CloseWithoutData,
    }
}

/// The interface part of a listen address, with its trailing colon.
pub open spec fn spec_bind_interface(scope: BindScope) -> Seq<u8> {
    match scope {
        BindScope::LocalOnly => seq![
            0x31u8, 0x32u8, 0x37u8, 0x2eu8, 0x30u8, 0x2eu8, 0x30u8, 0x2eu8, 0x31u8, 0x3au8,
        ],
        BindScope::Public => seq![0x30u8, 0x2eu8, 0x30u8, 0x2eu8, 0x30u8, 0x2eu8, 0x30u8, 0x3au8],
    }
}

/// The full listen address: interface, colon, decimal port.
pub open spec fn spec_listen_address(scope: BindScope, port: u16) -> Seq<u8> {
    spec_bind_interface(scope) + spec_decimal(port as nat)
}

/// Build the address the listener binds, as ASCII bytes: the loopback
/// interface unless the configuration opens the listener publicly.
pub fn listen_address(scope: BindScope, port: u16) -> (r: Vec<u8>)
    ensures
        r@ == spec_listen_address(scope, port),
{
    let mut r: Vec<u8> = Vec::new();
    match scope {
        BindScope::LocalOnly => {
            r.push(0x31u8);
            r.push(0x32u8);
            r.push(0x37u8);
            r.push(0x2eu8);
            r.push(0x30u8);
            r.push(0x2eu8);
            r.push(0x30u8);
            r.push(0x2eu8);
            r.push(0x31u8);
            r.push(0x3au8);
        },
        BindScope::Public => {
            r.push(0x30u8);
            r.push(0x2eu8);
            r.push(0x30u8);
            r.push(0x2eu8);
            r.push(0x30u8);
            r.push(0x2eu8);
            r.push(0x30u8);
            r.push(0x3au8);
        },
    }
    proof {
        assert(r@ =~= spec_bind_interface(scope));
    }
    let mut digits = decimal_bytes(port as u64);
    let ghost before = r@;
    let mut i: usize = 0;
    while i < digits.len()
        invariant
            i <= digits@.len(),
            digits@ == spec_decimal(port as nat),
            r@ =~= before + digits@.take(i as int),
        decreases digits@.len() - i,
    {
        let b = digits[i];
        r.push(b);
        i = i + 1;
    }
    proof {
        assert(digits@.take(digits@.len() as int) =~= digits@);
        assert(r@ =~= spec_listen_address(scope, port));
    }
    r
}

} // verus!
