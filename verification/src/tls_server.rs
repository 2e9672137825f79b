//! The TLS-terminating server endpoint: a builder-style configuration that
//! loads and checks its TLS material up front — identity, and trust roots
//! when client authentication is on — and a controller whose one `run`
//! yields the plan the unverified shell executes. The TLS material is fixed
//! once the listener starts: there is no live rotation.

use vstd::prelude::*;
use crate::acceptor::{BindScope, spec_listen_address, listen_address};
use crate::lifecycle::RunError;
use crate::tls::{
    Identity, ConfigError, spec_load_identity, spec_load_roots, load_identity, load_roots,
    spec_der_list, spec_all_roots_usable, cert_key_pair_usable,
};

verus! {

/// Immutable listener configuration, built by `with_*` mutators before the
/// controller starts and consumed when it does.
pub struct Config {
    /// The port the listener binds, on all interfaces.
    pub port: u16,
    /// Use the work-stealing multi-threaded scheduler instead of the single
    /// cooperative one.
    pub threaded: bool,
    /// The shutdown grace period, in milliseconds.
    pub shutdown_timeout_ms: u64,
    /// The identity the server presents, once loaded.
    pub identity: Option<Identity>,
    /// The roots a client's certificate must chain to; mutual authentication
    /// is on exactly when this is set.
    pub client_auth_roots: Option<Vec<Vec<u8>>>,
}

impl Config {
    /// What the builders establish: any loaded identity is usable, and any
    /// client-authentication roots are non-empty and usable.
    pub open spec fn wf(&self) -> bool {
        &&& match self.identity {
            Some(id) => id.certificate_chain@.len() >= 1 && cert_key_pair_usable(
                spec_der_list(id.certificate_chain@),
                id.private_key@,
            ),
            None => true,
        }
        &&& match self.client_auth_roots {
            Some(roots) => roots@.len() >= 1 && spec_all_roots_usable(spec_der_list(roots@)),
            None => true,
        }
    }

    /// The defaults: single-threaded cooperative scheduling, one second of
    /// shutdown grace, no identity yet, no client authentication.
    pub fn new(port: u16) -> (c: Config)
        ensures
            c.port == port,
            !c.threaded,
            c.shutdown_timeout_ms == 1000,
            c.identity is None,
            c.client_auth_roots is None,
            c.wf(),
    {
        Config {
            port,
            threaded: false,
            shutdown_timeout_ms: 1000,
            identity: None,
            client_auth_roots: None,
        }
    }

    /// Choose between the multi-threaded and the cooperative scheduler.
    pub fn with_threading(&mut self, threaded: bool)
        ensures
            final(self).threaded == threaded,
            final(self).port == old(self).port,
            final(self).shutdown_timeout_ms == old(self).shutdown_timeout_ms,
            final(self).identity == old(self).identity,
            final(self).client_auth_roots == old(self).client_auth_roots,
    {
        self.threaded = threaded;
    }

    /// Set the shutdown grace period, in milliseconds.
    pub fn with_shutdown_timeout(&mut self, timeout_ms: u64)
        ensures
            final(self).shutdown_timeout_ms == timeout_ms,
            final(self).port == old(self).port,
            final(self).threaded == old(self).threaded,
            final(self).identity == old(self).identity,
            final(self).client_auth_roots == old(self).client_auth_roots,
    {
        self.shutdown_timeout_ms = timeout_ms;
    }

    /// Load the server's identity from PEM texts: the chain must scan and
    /// be non-empty, the key file must hold exactly one key, and rustls
    /// must accept that key. On failure nothing changes.
    pub fn with_certificate_and_key_files(&mut self, cert_pem: &[u8], key_pem: &[u8]) -> (r:
        Result<(), ConfigError>)
        ensures
            final(self).port == old(self).port,
            final(self).threaded == old(self).threaded,
            final(self).shutdown_timeout_ms == old(self).shutdown_timeout_ms,
            final(self).client_auth_roots == old(self).client_auth_roots,
            match spec_load_identity(cert_pem@, key_pem@) {
                Ok(m) => {
                    &&& r is Ok
                    &&& final(self).identity matches Some(id)
                    &&& spec_der_list(id.certificate_chain@) == m.0
                    &&& id.private_key@ == m.1
                },
                Err(e) => r == Err::<(), ConfigError>(e) && final(self).identity == old(
                    self,
                ).identity,
            },
            old(self).wf() ==> final(self).wf(),
    {
        match load_identity(cert_pem, key_pem) {
            Ok(id) => {
                self.identity = Some(id);
                Ok(())
            },
            Err(e) => Err(e),
        }
    }

    /// Switch mutual authentication on: clients must present a certificate
    /// chaining to one of the roots in this PEM text. The text must scan to
    /// at least one certificate and each must enter the trust store. On
    /// failure nothing changes.
    pub fn with_client_authentication(&mut self, root_pem: &[u8]) -> (r: Result<(), ConfigError>)
        ensures
            final(self).port == old(self).port,
            final(self).threaded == old(self).threaded,
            final(self).shutdown_timeout_ms == old(self).shutdown_timeout_ms,
            final(self).identity == old(self).identity,
            match spec_load_roots(root_pem@) {
                Ok(rs) => {
                    &&& r is Ok
                    &&& final(self).client_auth_roots matches Some(v)
                    &&& spec_der_list(v@) == rs
                },
                Err(e) => r == Err::<(), ConfigError>(e) && final(self).client_auth_roots == old(
                    self,
                ).client_auth_roots,
            },
            old(self).wf() ==> final(self).wf(),
    {
        match load_roots(root_pem) {
            Ok(roots) => {
                self.client_auth_roots = Some(roots);
                Ok(())
            },
            Err(e) => Err(e),
        }
    }
}

/// What the shell needs to run the TLS accept loop: the bind address as
/// ASCII bytes, the scheduler choice, the drain period, and the TLS
/// material to build the acceptor from.
pub struct RunPlan {
    pub address: Vec<u8>,
    pub threaded: bool,
    pub shutdown_timeout_ms: u64,
    pub identity: Option<Identity>,
    pub client_auth_roots: Option<Vec<Vec<u8>>>,
}

/// Where a server handle stands: holding its configuration and the right to
/// run, or spent.
pub enum ServerState {
    NotStarted(Config),
    Started,
}

/// The controller owning the listener's one execution.
pub struct Server {
    pub state: ServerState,
}

impl Server {
    /// A fresh handle, holding its configuration and the right to run once.
    pub fn new(config: Config) -> (s: Server)
        ensures
            s.state == ServerState::NotStarted(config),
    {
        Server { state: ServerState::NotStarted(config) }
    }

    /// Spend the handle's one run. The first call yields the plan the shell
    /// executes — the listener binds all interfaces on the configured port,
    /// and every per-connection handshake uses the configuration's TLS
    /// material unchanged; every later call reports `AlreadyRun` and starts
    /// nothing.
    pub fn run(&mut self) -> (r: Result<RunPlan, RunError>)
        ensures
            final(self).state == ServerState::Started,
            match old(self).state {
                ServerState::NotStarted(config) => {
                    &&& r matches Ok(p)
                    &&& p.address@ == spec_listen_address(BindScope::Public, config.port)
                    &&& p.threaded == config.threaded
                    &&& p.shutdown_timeout_ms == config.shutdown_timeout_ms
                    &&& p.identity == config.identity
                    &&& p.client_auth_roots == config.client_auth_roots
                },
                ServerState::Started => r == Err::<RunPlan, RunError>(RunError::AlreadyRun),
            },
    {
        let mut taken = ServerState::Started;
        core::mem::swap(&mut self.state, &mut taken);
        match taken {
            ServerState::Started => Err(RunError::AlreadyRun),
            ServerState::NotStarted(config) => Ok(
                RunPlan {
                    address: listen_address(BindScope::Public, config.port),
                    threaded: config.threaded,
                    shutdown_timeout_ms: config.shutdown_timeout_ms,
                    identity: config.identity,
                    client_auth_roots: config.client_auth_roots,
                },
            ),
        }
    }
}

} // verus!
