//! The TLS-enabled interactive client endpoint: a builder-style
//! configuration that loads and checks trust roots and an optional client
//! identity up front, a handle whose one `run` yields the connect plan, and
//! the derivation of the identity a server must present — the connection
//! target stripped of its port.

use vstd::prelude::*;
use vstd::string::StringSliceAdditionalSpecFns;
use vstd::utf8::{encode_utf8_valid_utf8, is_char_boundary, is_char_boundary_iff_not_is_continuation_byte, is_continuation_byte, valid_utf8};
use crate::lifecycle::RunError;
use crate::tls::{
    Identity, ConfigError, spec_load_client_identity, spec_load_roots, load_client_identity,
    load_roots, spec_der_list, spec_all_roots_usable, client_cert_key_usable,
    trust_anchor_usable,
};

verus! {

/// Immutable client configuration, built before the handle runs and consumed
/// when it does.
pub struct Config {
    /// The address to connect to, host and port.
    pub address: String,
    /// Use the work-stealing multi-threaded scheduler instead of the single
    /// cooperative one.
    pub threaded: bool,
    /// The shutdown grace period, in milliseconds.
    pub shutdown_timeout_ms: u64,
    /// The roots a server's certificate must chain to.
    pub trusted_roots: Vec<Vec<u8>>,
    /// The identity to present when the server asks for one.
    pub identity: Option<Identity>,
}

impl Config {
    /// What the builders establish: every trust root is usable, and any
    /// loaded identity is usable.
    pub open spec fn wf(&self) -> bool {
        &&& spec_all_roots_usable(spec_der_list(self.trusted_roots@))
        &&& match self.identity {
            Some(id) => id.certificate_chain@.len() >= 1 && client_cert_key_usable(
                spec_der_list(id.certificate_chain@),
                id.private_key@,
            ),
            None => true,
        }
    }

    /// The defaults: single-threaded cooperative scheduling, one second of
    /// shutdown grace, no trust roots yet, no client identity.
    pub fn new(address: &str) -> (c: Config)
        ensures
            c.address@ == address@,
            !c.threaded,
            c.shutdown_timeout_ms == 1000,
            c.trusted_roots@.len() == 0,
            c.identity is None,
            c.wf(),
    {
        let c = Config {
            address: address.to_owned(),
            threaded: false,
            shutdown_timeout_ms: 1000,
            trusted_roots: Vec::new(),
            identity: None,
        };
        proof {
            assert(spec_der_list(c.trusted_roots@) =~= Seq::<Seq<u8>>::empty());
        }
        c
    }

    /// Choose between the multi-threaded and the cooperative scheduler.
    pub fn with_threading(&mut self, threaded: bool)
        ensures
            final(self).threaded == threaded,
            final(self).address == old(self).address,
            final(self).shutdown_timeout_ms == old(self).shutdown_timeout_ms,
            final(self).trusted_roots == old(self).trusted_roots,
            final(self).identity == old(self).identity,
    {
        self.threaded = threaded;
    }

    /// Set the shutdown grace period, in milliseconds.
    pub fn with_shutdown_timeout(&mut self, timeout_ms: u64)
        ensures
            final(self).shutdown_timeout_ms == timeout_ms,
            final(self).address == old(self).address,
            final(self).threaded == old(self).threaded,
            final(self).trusted_roots == old(self).trusted_roots,
            final(self).identity == old(self).identity,
    {
        self.shutdown_timeout_ms = timeout_ms;
    }

    /// Add the certificates of a PEM text to the trust roots: the text must
    /// scan to at least one certificate and each must enter the trust store.
    /// On failure nothing changes.
    pub fn with_root(&mut self, root_pem: &[u8]) -> (r: Result<(), ConfigError>)
        ensures
            final(self).address == old(self).address,
            final(self).threaded == old(self).threaded,
            final(self).shutdown_timeout_ms == old(self).shutdown_timeout_ms,
            final(self).identity == old(self).identity,
            match spec_load_roots(root_pem@) {
                Ok(rs) => r is Ok && spec_der_list(final(self).trusted_roots@) == spec_der_list(
                    old(self).trusted_roots@,
                ) + rs,
                Err(e) => r == Err::<(), ConfigError>(e) && final(self).trusted_roots == old(
                    self,
                ).trusted_roots,
            },
            old(self).wf() ==> final(self).wf(),
    {
        let loaded = match load_roots(root_pem) {
            Ok(rs) => rs,
            Err(e) => {
                return Err(e);
            },
        };
        let ghost before = spec_der_list(self.trusted_roots@);
        let ghost added = spec_der_list(loaded@);
        let mut i: usize = 0;
        while i < loaded.len()
            invariant
                i <= loaded@.len(),
                added == spec_der_list(loaded@),
                spec_der_list(self.trusted_roots@) =~= before + added.take(i as int),
                self.address == old(self).address,
                self.threaded == old(self).threaded,
                self.shutdown_timeout_ms == old(self).shutdown_timeout_ms,
                self.identity == old(self).identity,
                before == spec_der_list(old(self).trusted_roots@),
            decreases loaded@.len() - i,
        {
            let root = loaded[i].clone();
            proof {
                assert(added[i as int] == loaded@[i as int]@);
            }
            let ghost prev = self.trusted_roots@;
            self.trusted_roots.push(root);
            proof {
                assert(spec_der_list(self.trusted_roots@) =~= spec_der_list(prev).push(
                    loaded@[i as int]@,
                ));
            }
            i = i + 1;
        }
        proof {
            assert(added.take(loaded@.len() as int) =~= added);
            let der = spec_der_list(self.trusted_roots@);
            assert(der == before + added);
            if old(self).wf() {
                assert forall|ix: int| 0 <= ix < der.len() implies trust_anchor_usable(
                    #[trigger] der[ix],
                ) by {
                    if ix < before.len() {
                        assert(der[ix] == before[ix]);
                    } else {
                        assert(der[ix] == added[ix - before.len()]);
                    }
                }
            }
        }
        Ok(())
    }

    /// Load the client's identity from PEM texts: the chain must scan and
    /// be non-empty, the key file must hold exactly one key, and rustls
    /// must accept that key for client authentication. On failure nothing
    /// changes.
    pub fn with_certificate_and_key_files(&mut self, cert_pem: &[u8], key_pem: &[u8]) -> (r:
        Result<(), ConfigError>)
        ensures
            final(self).address == old(self).address,
            final(self).threaded == old(self).threaded,
            final(self).shutdown_timeout_ms == old(self).shutdown_timeout_ms,
            final(self).trusted_roots == old(self).trusted_roots,
            match spec_load_client_identity(cert_pem@, key_pem@) {
                Ok(m) => {
                    &&& r is Ok
                    &&& final(self).identity matches Some(id)
                    &&& spec_der_list(id.certificate_chain@) == m.0
                    &&& id.private_key@ == m.1
                },
                Err(e) => r == Err::<(), ConfigError>(e) && final(self).identity == old(
                    self,
                ).identity,
            },
            old(self).wf() ==> final(self).wf(),
    {
        match load_client_identity(cert_pem, key_pem) {
            Ok(id) => {
                self.identity = Some(id);
                Ok(())
            },
            Err(e) => Err(e),
        }
    }
}

/// What the shell needs to make the one outbound TLS connection: where to
/// connect, the scheduler and drain choices, and the TLS setup. The server
/// name to verify is derived from the address with `Client::domain`.
pub struct ConnectPlan {
    pub address: String,
    pub threaded: bool,
    pub shutdown_timeout_ms: u64,
    pub trusted_roots: Vec<Vec<u8>>,
    pub identity: Option<Identity>,
}

/// Where a client handle stands: holding its configuration and the right to
/// run, or spent.
pub enum ClientState {
    NotStarted(Config),
    Started,
}

/// The handle owning the connection's one execution.
pub struct Client {
    pub state: ClientState,
}

impl Client {
    /// A fresh handle, holding its configuration and the right to run once.
    pub fn new(config: Config) -> (c: Client)
        ensures
            c.state == ClientState::NotStarted(config),
    {
        Client { state: ClientState::NotStarted(config) }
    }

    /// Spend the handle's one run. The first call yields the connect plan,
    /// carrying the configuration's address and TLS setup unchanged; every
    /// later call reports `AlreadyRun` and connects nothing.
    pub fn run(&mut self) -> (r: Result<ConnectPlan, RunError>)
        ensures
            final(self).state == ClientState::Started,
            match old(self).state {
                ClientState::NotStarted(config) => {
                    &&& r matches Ok(p)
                    &&& p.address == config.address
                    &&& p.threaded == config.threaded
                    &&& p.shutdown_timeout_ms == config.shutdown_timeout_ms
                    &&& p.trusted_roots == config.trusted_roots
                    &&& p.identity == config.identity
                },
                ClientState::Started => r == Err::<ConnectPlan, RunError>(RunError::AlreadyRun),
            },
    {
        let mut taken = ClientState::Started;
        core::mem::swap(&mut self.state, &mut taken);
        match taken {
            ClientState::Started => Err(RunError::AlreadyRun),
            ClientState::NotStarted(config) => Ok(
                ConnectPlan {
                    address: config.address,
                    threaded: config.threaded,
                    shutdown_timeout_ms: config.shutdown_timeout_ms,
                    trusted_roots: config.trusted_roots,
                    identity: config.identity,
                },
            ),
        }
    }

    /// The identity a server must present for this connection target: the
    /// address up to its first colon — the port stripped — or the whole
    /// address where no colon occurs.
    pub fn domain(address: &str) -> (r: &str)
        ensures
            exists|n: int|
                #![trigger address.spec_bytes().take(n)]
                {
                    &&& 0 <= n <= address.spec_bytes().len()
                    &&& (forall|j: int|
                        0 <= j < n ==> #[trigger] address.spec_bytes()[j] != 0x3a)
                    &&& (n < address.spec_bytes().len() ==> address.spec_bytes()[n] == 0x3a)
                    &&& r.spec_bytes() == (if n < address.spec_bytes().len() {
                        address.spec_bytes().take(n)
                    } else {
                        address.spec_bytes()
                    })
                },
    {
        let bytes = address.as_bytes();
        let ghost s = address.spec_bytes();
        let mut i: usize = 0;
        while i < bytes.len()
            invariant
                i <= s.len(),
                bytes@ == s,
                s == address.spec_bytes(),
                forall|j: int| 0 <= j < i ==> #[trigger] s[j] != 0x3a,
            decreases s.len() - i,
        {
            if bytes[i] == 0x3a {
                proof {
                    // a colon in valid UTF-8 always falls on a character
                    // boundary: it is no continuation byte
                    encode_utf8_valid_utf8(address@);
                    assert(valid_utf8(s));
                    is_char_boundary_iff_not_is_continuation_byte(s, i as int);
                    assert(!is_continuation_byte(s[i as int]));
                    assert(is_char_boundary(s, i as int));
                }
                let parts = address.split_at(i);
                proof {
                    assert(parts.0.spec_bytes() =~= s.take(i as int));
                }
                return parts.0;
            }
            i = i + 1;
        }
        proof {
            let n = s.len() as int;
            assert(address.spec_bytes().take(n) =~= address.spec_bytes());
            assert({
                &&& 0 <= n <= address.spec_bytes().len()
                &&& (forall|j: int| 0 <= j < n ==> #[trigger] address.spec_bytes()[j] != 0x3a)
                &&& (n < address.spec_bytes().len() ==> address.spec_bytes()[n] == 0x3a)
                &&& address.spec_bytes() == (if n < address.spec_bytes().len() {
                    address.spec_bytes().take(n)
                } else {
                    address.spec_bytes()
                })
            });
        }
        address
    }
}

} // verus!
