//! The plain-TCP interactive client endpoint: configuration for a single
//! outbound connection, and a handle whose one `run` yields the connect plan
//! the unverified shell executes; a second `run` reports `AlreadyRun`.

use vstd::prelude::*;
use crate::lifecycle::RunError;

verus! {

/// Immutable client configuration, built before the handle runs and consumed
/// when it does.
#[derive(Debug)]
pub struct Config {
    /// The address to connect to, host and port.
    pub address: String,
    /// Use the work-stealing multi-threaded scheduler instead of the single
    /// cooperative one.
    pub threaded: bool,
    /// The shutdown grace period, in milliseconds.
    pub shutdown_timeout_ms: u64,
}

impl Config {
    /// The defaults: single-threaded cooperative scheduling, one second of
    /// shutdown grace.
    pub fn new(address: &str) -> (c: Config)
        ensures
            c.address@ == address@,
            !c.threaded,
            c.shutdown_timeout_ms == 1000,
    {
        Config { address: address.to_owned(), threaded: false, shutdown_timeout_ms: 1000 }
    }

    /// Choose between the multi-threaded and the cooperative scheduler.
    pub fn with_threading(&mut self, threaded: bool)
        ensures
            final(self).threaded == threaded,
            final(self).address == old(self).address,
            final(self).shutdown_timeout_ms == old(self).shutdown_timeout_ms,
    {
        self.threaded = threaded;
    }

    /// Set the shutdown grace period, in milliseconds.
    pub fn with_shutdown_timeout(&mut self, timeout_ms: u64)
        ensures
            final(self).shutdown_timeout_ms == timeout_ms,
            final(self).address == old(self).address,
            final(self).threaded == old(self).threaded,
    {
        self.shutdown_timeout_ms = timeout_ms;
    }
}

/// What the shell needs to make the one outbound connection.
pub struct ConnectPlan {
    pub address: String,
    pub threaded: bool,
    pub shutdown_timeout_ms: u64,
}

/// Where a client handle stands: holding its configuration and the right to
/// run, or spent.
pub enum ClientState {
    NotStarted(Config),
    Started,
}

/// The handle owning the connection's one execution.
pub struct Client {
    pub state: ClientState,
}

impl Client {
    /// A fresh handle, holding its configuration and the right to run once.
    pub fn new(config: Config) -> (c: Client)
        ensures
            c.state == ClientState::NotStarted(config),
    {
        Client { state: ClientState::NotStarted(config) }
    }

    /// Spend the handle's one run. The first call yields the connect plan;
    /// every later call reports `AlreadyRun` and connects nothing.
    pub fn run(&mut self) -> (r: Result<ConnectPlan, RunError>)
        ensures
            final(self).state == ClientState::Started,
            match old(self).state {
                ClientState::NotStarted(config) => {
                    &&& r matches Ok(p)
                    &&& p.address == config.address
                    &&& p.threaded == config.threaded
                    &&& p.shutdown_timeout_ms == config.shutdown_timeout_ms
                },
                ClientState::Started => r == Err::<ConnectPlan, RunError>(RunError::AlreadyRun),
            },
    {
        let mut taken = ClientState::Started;
        core::mem::swap(&mut self.state, &mut taken);
        match taken {
            ClientState::Started => Err(RunError::AlreadyRun),
            ClientState::NotStarted(config) => Ok(
                ConnectPlan {
                    address: config.address,
                    threaded: config.threaded,
                    shutdown_timeout_ms: config.shutdown_timeout_ms,
                },
            ),
        }
    }
}

} // verus!
