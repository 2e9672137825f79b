//! The plain-TCP server endpoint: a builder-style configuration and a
//! controller holding the one permission to run the accept loop. The
//! controller's `run` yields the plan the unverified shell executes — where
//! to bind, which scheduler to use, how long to drain on shutdown — and a
//! second `run` on the same handle reports `AlreadyRun` without starting
//! anything.

use vstd::prelude::*;
use crate::acceptor::{BindScope, spec_listen_address, listen_address};
use crate::lifecycle::RunError;

verus! {

/// Immutable listener configuration, built by `with_*` mutators before the
/// controller starts and consumed when it does.
#[derive(Clone, Copy, PartialEq, Eq, Structural, Debug)]
pub struct Config {
    /// The port the listener binds.
    pub port: u16,
    /// Bind all interfaces instead of loopback only.
    pub public: bool,
    /// Use the work-stealing multi-threaded scheduler instead of the single
    /// cooperative one.
    pub threaded: bool,
    /// The shutdown grace period, in milliseconds.
    pub shutdown_timeout_ms: u64,
}

/// The scope a configuration binds: loopback unless opened publicly.
pub open spec fn spec_bind_scope(public: bool) -> BindScope {
    if public {
        BindScope::Public
    } else {
        BindScope::LocalOnly
    }
}

impl Config {
    /// The defaults: loopback only, single-threaded cooperative scheduling,
    /// one second of shutdown grace.
    pub fn new(port: u16) -> (c: Config)
        ensures
            c == (Config { port, public: false, threaded: false, shutdown_timeout_ms: 1000u64 }),
    {
        Config { port, public: false, threaded: false, shutdown_timeout_ms: 1000 }
    }

    /// Open the listener publicly on all interfaces, or keep it local.
    pub fn with_public(&mut self, public: bool) -> (c: Config)
        ensures
            *final(self) == (Config { public, ..*old(self) }),
            c == *final(self),
    {
        self.public = public;
        *self
    }

    /// Choose between the multi-threaded and the cooperative scheduler.
    pub fn with_threading(&mut self, threaded: bool) -> (c: Config)
        ensures
            *final(self) == (Config { threaded, ..*old(self) }),
            c == *final(self),
    {
        self.threaded = threaded;
        *self
    }

    /// Set the shutdown grace period, in milliseconds.
    pub fn with_shutdown_timeout(&mut self, timeout_ms: u64) -> (c: Config)
        ensures
            *final(self) == (Config { shutdown_timeout_ms: timeout_ms, ..*old(self) }),
            c == *final(self),
    {
        self.shutdown_timeout_ms = timeout_ms;
        *self
    }
}

/// What the shell needs to run the accept loop: the bind address as ASCII
/// bytes, the scheduler choice, and the drain period.
pub struct RunPlan {
    pub address: Vec<u8>,
    pub threaded: bool,
    pub shutdown_timeout_ms: u64,
}

/// Where a server handle stands: holding its configuration and the right to
/// run, or spent.
pub enum ServerState {
    NotStarted(Config),
    Started,
}

/// The controller owning the listener's one execution.
pub struct Server {
    pub state: ServerState,
}

impl Server {
    /// A fresh handle, holding its configuration and the right to run once.
    pub fn new(config: Config) -> (s: Server)
        ensures
            s.state == ServerState::NotStarted(config),
    {
        Server { state: ServerState::NotStarted(config) }
    }

    /// Spend the handle's one run. The first call yields the plan the shell
    /// executes — the configured bind address, scheduler and grace period;
    /// every later call reports `AlreadyRun` and starts nothing.
    pub fn run(&mut self) -> (r: Result<RunPlan, RunError>)
        ensures
            final(self).state == ServerState::Started,
            match old(self).state {
                ServerState::NotStarted(config) => {
                    &&& r matches Ok(p)
                    &&& p.address@ == spec_listen_address(spec_bind_scope(config.public), config.port)
                    &&& p.threaded == config.threaded
                    &&& p.shutdown_timeout_ms == config.shutdown_timeout_ms
                },
                ServerState::Started => r == Err::<RunPlan, RunError>(RunError::AlreadyRun),
            },
    {
        let mut taken = ServerState::Started;
        core::mem::swap(&mut self.state, &mut taken);
        match taken {
            ServerState::Started => Err(RunError::AlreadyRun),
            ServerState::NotStarted(config) => {
                let scope = if config.public {
                    BindScope::Public
                } else {
                    BindScope::LocalOnly
                };
                Ok(
                    RunPlan {
                        address: listen_address(scope, config.port),
                        threaded: config.threaded,
                        shutdown_timeout_ms: config.shutdown_timeout_ms,
                    },
                )
            },
        }
    }
}

} // verus!
