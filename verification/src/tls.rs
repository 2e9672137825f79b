//! Loading TLS configuration material: PEM files are scanned by rustls's PEM
//! parser behind trusted wrappers, and the library's own rules are verified —
//! a key file must hold exactly one PKCS#8 key, a certificate file at least
//! one certificate, the key must be one rustls accepts, and every trust
//! root must enter the trust store. All failures here are configuration
//! errors, fatal at startup and never retried.

use vstd::prelude::*;

verus! {

/// The DER contents of each entry of a list, in order.
pub open spec fn spec_der_list(v: Seq<Vec<u8>>) -> Seq<Seq<u8>> {
    v.map_values(|c: Vec<u8>| c@)
}

/// The DER certificates a PEM text holds, in order, or nothing when the text
/// cannot be scanned.
pub uninterp spec fn pem_certificates(pem: Seq<u8>) -> Option<Seq<Seq<u8>>>;

/// The DER PKCS#8 private keys a PEM text holds, in order, or nothing when
/// the text cannot be scanned.
pub uninterp spec fn pem_pkcs8_keys(pem: Seq<u8>) -> Option<Seq<Seq<u8>>>;

/// Whether rustls accepts this chain-and-key pair when it assembles a
/// server configuration. In the rustls version used here that checks only
/// that the key parses as a supported signing key; the chain is not
/// compared against the key — a wrong pairing surfaces at the handshake.
pub uninterp spec fn cert_key_pair_usable(chain: Seq<Seq<u8>>, key: Seq<u8>) -> bool;

/// Whether rustls accepts this chain-and-key pair when it assembles a
/// client configuration. As on the server side, only the key itself is
/// checked at this point, not its pairing with the chain.
pub uninterp spec fn client_cert_key_usable(chain: Seq<Seq<u8>>, key: Seq<u8>) -> bool;

/// Whether this DER certificate can enter a rustls trust store.
pub uninterp spec fn trust_anchor_usable(der: Seq<u8>) -> bool;

/// Relies on rustls_pemfile::certs: the certificates found in a PEM text are
/// a function of its bytes alone; unreadable text is reported, a text without
/// certificates yields the empty list.
#[verifier::external_body]
fn parse_pem_certificates(pem: &[u8]) -> (r: Option<Vec<Vec<u8>>>)
    ensures
        match r {
            Some(v) => pem_certificates(pem@) == Some(spec_der_list(v@)),
            None => pem_certificates(pem@) is None,
        },
{
    let mut reader: &[u8] = pem;
    rustls_pemfile::certs(&mut reader).ok()
}

/// Relies on rustls_pemfile::pkcs8_private_keys: the PKCS#8 keys found in a
/// PEM text are a function of its bytes alone.
#[verifier::external_body]
fn parse_pem_pkcs8_keys(pem: &[u8]) -> (r: Option<Vec<Vec<u8>>>)
    ensures
        match r {
            Some(v) => pem_pkcs8_keys(pem@) == Some(spec_der_list(v@)),
            None => pem_pkcs8_keys(pem@) is None,
        },
{
    let mut reader: &[u8] = pem;
    rustls_pemfile::pkcs8_private_keys(&mut reader).ok()
}

/// Relies on rustls's ServerConfig builder with_single_cert: it accepts or
/// rejects a chain-and-key pair deterministically, from the DER bytes alone.
#[verifier::external_body]
fn server_pair_usable(chain: &Vec<Vec<u8>>, key: &Vec<u8>) -> (r: bool)
    ensures
        r == cert_key_pair_usable(spec_der_list(chain@), key@),
{
    let certs: Vec<rustls::Certificate> = chain.iter().map(|c| rustls::Certificate(c.clone())).collect();
    rustls::ServerConfig::builder()
        .with_safe_defaults()
        .with_no_client_auth()
        .with_single_cert(certs, rustls::PrivateKey(key.clone()))
        .is_ok()
}

/// Relies on rustls's ClientConfig builder with_client_auth_cert: it accepts
/// or rejects a chain-and-key pair deterministically, from the DER bytes
/// alone.
#[verifier::external_body]
fn client_pair_usable(chain: &Vec<Vec<u8>>, key: &Vec<u8>) -> (r: bool)
    ensures
        r == client_cert_key_usable(spec_der_list(chain@), key@),
{
    let certs: Vec<rustls::Certificate> = chain.iter().map(|c| rustls::Certificate(c.clone())).collect();
    rustls::ClientConfig::builder()
        .with_safe_defaults()
        .with_root_certificates(rustls::RootCertStore::empty())
        .with_client_auth_cert(certs, rustls::PrivateKey(key.clone()))
        .is_ok()
}

/// Relies on rustls's RootCertStore::add: a DER certificate is accepted into
/// a trust store, or not, from its bytes alone.
#[verifier::external_body]
fn root_usable(der: &Vec<u8>) -> (r: bool)
    ensures
        r == trust_anchor_usable(der@),
{
    let mut store = rustls::RootCertStore::empty();
    store.add(&rustls::Certificate(der.clone())).is_ok()
}

/// Errors in loading TLS configuration material. All are fatal at startup,
/// reported to the operator, and never retried.
#[derive(Clone, Copy, PartialEq, Eq, Structural, Debug)]
pub enum ConfigError {
    /// The key file's PEM text could not be scanned.
    KeyFileUnreadable,
    /// The key file held zero keys, or more than one.
    KeyCountNotOne,
    /// The certificate file's PEM text could not be scanned.
    CertFileUnreadable,
    /// The certificate file held no certificate.
    NoCertificates,
    /// rustls rejected the key offered with the chain: it does not parse
    /// as a supported signing key. A key that parses but belongs to another
    /// certificate is not caught here; that mismatch surfaces only when a
    /// handshake fails.
    CertKeyMismatch,
    /// A trust root was not accepted into the trust store.
    RootNotUsable,
}

/// What reading a key file yields: the single PKCS#8 key it must hold.
pub open spec fn spec_read_key(pem: Seq<u8>) -> Result<Seq<u8>, ConfigError> {
    match pem_pkcs8_keys(pem) {
        None => Err(ConfigError::KeyFileUnreadable),
        Some(keys) => if keys.len() == 1 {
            Ok(keys[0])
        } else {
            Err(ConfigError::KeyCountNotOne)
        },
    }
}

/// Read one private key from PEM text: the text must scan and hold exactly
/// one PKCS#8 key; zero keys or several are a configuration error.
pub fn read_key(pem: &[u8]) -> (r: Result<Vec<u8>, ConfigError>)
    ensures
        match spec_read_key(pem@) {
            Ok(k) => r matches Ok(v) && v@ == k,
            Err(e) => r == Err::<Vec<u8>, ConfigError>(e),
        },
{
    let keys = match parse_pem_pkcs8_keys(pem) {
        Some(keys) => keys,
        None => {
            return Err(ConfigError::KeyFileUnreadable);
        },
    };
    if keys.len() != 1 {
        return Err(ConfigError::KeyCountNotOne);
    }
    let mut keys = keys;
    let ghost ks = keys@;
    let key = keys.pop().unwrap();
    proof {
        assert(spec_der_list(ks)[0] == ks[0]@);
        assert(key@ == spec_der_list(ks)[0]);
    }
    Ok(key)
}

/// What reading a certificate file yields: its non-empty chain.
pub open spec fn spec_read_certs(pem: Seq<u8>) -> Result<Seq<Seq<u8>>, ConfigError> {
    match pem_certificates(pem) {
        None => Err(ConfigError::CertFileUnreadable),
        Some(certs) => if certs.len() >= 1 {
            Ok(certs)
        } else {
            Err(ConfigError::NoCertificates)
        },
    }
}

/// Read a certificate chain from PEM text: the text must scan and hold at
/// least one certificate; none at all is a configuration error.
pub fn read_certs(pem: &[u8]) -> (r: Result<Vec<Vec<u8>>, ConfigError>)
    ensures
        match spec_read_certs(pem@) {
            Ok(chain) => r matches Ok(v) && spec_der_list(v@) == chain,
            Err(e) => r == Err::<Vec<Vec<u8>>, ConfigError>(e),
        },
{
    let certs = match parse_pem_certificates(pem) {
        Some(certs) => certs,
        None => {
            return Err(ConfigError::CertFileUnreadable);
        },
    };
    if certs.len() == 0 {
        return Err(ConfigError::NoCertificates);
    }
    Ok(certs)
}

/// Every certificate of the list can enter a trust store.
pub open spec fn spec_all_roots_usable(roots: Seq<Seq<u8>>) -> bool {
    forall|i: int| 0 <= i < roots.len() ==> trust_anchor_usable(#[trigger] roots[i])
}

/// Check every certificate of a chain against the trust store's rules.
fn all_roots_usable(roots: &Vec<Vec<u8>>) -> (r: bool)
    ensures
        r == spec_all_roots_usable(spec_der_list(roots@)),
{
    let ghost ders = spec_der_list(roots@);
    let mut i: usize = 0;
    while i < roots.len()
        invariant
            i <= roots@.len(),
            ders == spec_der_list(roots@),
            forall|j: int| 0 <= j < i ==> trust_anchor_usable(#[trigger] ders[j]),
        decreases roots@.len() - i,
    {
        let ok = root_usable(&roots[i]);
        proof {
            assert(ders[i as int] == roots@[i as int]@);
        }
        if !ok {
            return false;
        }
        i = i + 1;
    }
    true
}

/// An identity to present in a handshake: a certificate chain, leaf first,
/// and the single private key offered with it, all DER bytes.
pub struct Identity {
    pub certificate_chain: Vec<Vec<u8>>,
    pub private_key: Vec<u8>,
}

/// What loading a trust-root file yields: its usable, non-empty roots.
pub open spec fn spec_load_roots(pem: Seq<u8>) -> Result<Seq<Seq<u8>>, ConfigError> {
    match spec_read_certs(pem) {
        Err(e) => Err(e),
        Ok(roots) => if spec_all_roots_usable(roots) {
            Ok(roots)
        } else {
            Err(ConfigError::RootNotUsable)
        },
    }
}

/// Load trust roots from PEM text: at least one certificate, each accepted
/// into the trust store.
pub fn load_roots(pem: &[u8]) -> (r: Result<Vec<Vec<u8>>, ConfigError>)
    ensures
        match spec_load_roots(pem@) {
            Ok(roots) => r matches Ok(v) && spec_der_list(v@) == roots,
            Err(e) => r == Err::<Vec<Vec<u8>>, ConfigError>(e),
        },
{
    let roots = match read_certs(pem) {
        Ok(rs) => rs,
        Err(e) => {
            return Err(e);
        },
    };
    if !all_roots_usable(&roots) {
        return Err(ConfigError::RootNotUsable);
    }
    Ok(roots)
}

/// What loading a server identity yields: the chain, then the key, then the
/// pair's usability, in that order of checks.
pub open spec fn spec_load_identity(cert_pem: Seq<u8>, key_pem: Seq<u8>) -> Result<
    (Seq<Seq<u8>>, Seq<u8>),
    ConfigError,
> {
    match spec_read_certs(cert_pem) {
        Err(e) => Err(e),
        Ok(chain) => match spec_read_key(key_pem) {
            Err(e) => Err(e),
            Ok(key) => if cert_key_pair_usable(chain, key) {
                Ok((chain, key))
            } else {
                Err(ConfigError::CertKeyMismatch)
            },
        },
    }
}

/// Load a server identity from PEM texts: a non-empty chain and exactly one
/// key that rustls accepts as a signing key.
pub fn load_identity(cert_pem: &[u8], key_pem: &[u8]) -> (r: Result<Identity, ConfigError>)
    ensures
        match spec_load_identity(cert_pem@, key_pem@) {
            Ok(m) => {
                &&& r matches Ok(id)
                &&& spec_der_list(id.certificate_chain@) == m.0
                &&& id.private_key@ == m.1
                &&& id.certificate_chain@.len() >= 1
            },
            Err(e) => r == Err::<Identity, ConfigError>(e),
        },
{
    let chain = match read_certs(cert_pem) {
        Ok(c) => c,
        Err(e) => {
            return Err(e);
        },
    };
    let key = match read_key(key_pem) {
        Ok(k) => k,
        Err(e) => {
            return Err(e);
        },
    };
    if !server_pair_usable(&chain, &key) {
        return Err(ConfigError::CertKeyMismatch);
    }
    Ok(Identity { certificate_chain: chain, private_key: key })
}

/// As `spec_load_identity`, but against the client-side rules.
pub open spec fn spec_load_client_identity(cert_pem: Seq<u8>, key_pem: Seq<u8>) -> Result<
    (Seq<Seq<u8>>, Seq<u8>),
    ConfigError,
> {
    match spec_read_certs(cert_pem) {
        Err(e) => Err(e),
        Ok(chain) => match spec_read_key(key_pem) {
            Err(e) => Err(e),
            Ok(key) => if client_cert_key_usable(chain, key) {
                Ok((chain, key))
            } else {
                Err(ConfigError::CertKeyMismatch)
            },
        },
    }
}

/// Load a client identity from PEM texts: a non-empty chain and exactly one
/// key that rustls accepts for client authentication.
pub fn load_client_identity(cert_pem: &[u8], key_pem: &[u8]) -> (r: Result<Identity, ConfigError>)
    ensures
        match spec_load_client_identity(cert_pem@, key_pem@) {
            Ok(m) => {
                &&& r matches Ok(id)
                &&& spec_der_list(id.certificate_chain@) == m.0
                &&& id.private_key@ == m.1
                &&& id.certificate_chain@.len() >= 1
            },
            Err(e) => r == Err::<Identity, ConfigError>(e),
        },
{
    let chain = match read_certs(cert_pem) {
        Ok(c) => c,
        Err(e) => {
            return Err(e);
        },
    };
    let key = match read_key(key_pem) {
        Ok(k) => k,
        Err(e) => {
            return Err(e);
        },
    };
    if !client_pair_usable(&chain, &key) {
        return Err(ConfigError::CertKeyMismatch);
    }
    Ok(Identity { certificate_chain: chain, private_key: key })
}

/// TLS identity material for a server: its identity and — when mutual
/// authentication is on — the trust roots a client's certificate must chain
/// to. Immutable once the listener starts: there is no live rotation.
pub struct TlsMaterial {
    pub identity: Identity,
    pub trusted_roots: Option<Vec<Vec<u8>>>,
}

impl TlsMaterial {
    /// The well-formedness the loader establishes: a non-empty chain whose
    /// key rustls accepts, and usable, non-empty trust roots where peer
    /// authentication is on.
    pub open spec fn wf(&self) -> bool {
        &&& self.identity.certificate_chain@.len() >= 1
        &&& cert_key_pair_usable(
            spec_der_list(self.identity.certificate_chain@),
            self.identity.private_key@,
        )
        &&& match self.trusted_roots {
            Some(roots) => roots@.len() >= 1 && spec_all_roots_usable(spec_der_list(roots@)),
            None => true,
        }
    }
}

/// What assembling a server's TLS setup yields, in the order the checks run:
/// first the client-authentication roots, then the identity.
pub open spec fn spec_make_server_config(
    cert_pem: Seq<u8>,
    key_pem: Seq<u8>,
    client_auth_pem: Option<Seq<u8>>,
) -> Result<(Seq<Seq<u8>>, Seq<u8>, Option<Seq<Seq<u8>>>), ConfigError> {
    let roots = match client_auth_pem {
        None => Ok(None),
        Some(pem) => match spec_load_roots(pem) {
            Err(e) => Err(e),
            Ok(rs) => Ok(Some(rs)),
        },
    };
    match roots {
        Err(e) => Err(e),
        Ok(roots) => match spec_load_identity(cert_pem, key_pem) {
            Err(e) => Err(e),
            Ok(id) => Ok((id.0, id.1, roots)),
        },
    }
}

/// Assemble a server's TLS material from PEM texts: certificate chain and
/// single key, with optional client-authentication roots. Succeeds exactly
/// when every text scans, the counts are right, the roots are usable and
/// rustls accepts the key; the result is well-formed material.
pub fn make_server_config(
    cert_pem: &[u8],
    key_pem: &[u8],
    client_auth_pem: Option<&[u8]>,
) -> (r: Result<TlsMaterial, ConfigError>)
    ensures
        match spec_make_server_config(
            cert_pem@,
            key_pem@,
            match client_auth_pem {
                Some(p) => Some(p@),
                None => None,
            },
        ) {
            Ok(m) => {
                &&& r matches Ok(t)
                &&& t.wf()
                &&& spec_der_list(t.identity.certificate_chain@) == m.0
                &&& t.identity.private_key@ == m.1
                &&& match m.2 {
                    Some(rs) => t.trusted_roots matches Some(v) && spec_der_list(v@) == rs,
                    None => t.trusted_roots is None,
                }
            },
            Err(e) => r == Err::<TlsMaterial, ConfigError>(e),
        },
{
    let trusted_roots = match client_auth_pem {
        None => None,
        Some(pem) => match load_roots(pem) {
            Ok(rs) => Some(rs),
            Err(e) => {
                return Err(e);
            },
        },
    };
    let identity = match load_identity(cert_pem, key_pem) {
        Ok(id) => id,
        Err(e) => {
            return Err(e);
        },
    };
    Ok(TlsMaterial { identity, trusted_roots })
}

/// A client's TLS setup: the roots that servers must chain to, and an
/// optional identity to present when the server asks.
pub struct ClientTlsConfig {
    pub trusted_roots: Vec<Vec<u8>>,
    pub identity: Option<Identity>,
}

impl ClientTlsConfig {
    /// The well-formedness the loader establishes.
    pub open spec fn wf(&self) -> bool {
        &&& self.trusted_roots@.len() >= 1
        &&& spec_all_roots_usable(spec_der_list(self.trusted_roots@))
        &&& match self.identity {
            Some(id) => id.certificate_chain@.len() >= 1 && client_cert_key_usable(
                spec_der_list(id.certificate_chain@),
                id.private_key@,
            ),
            None => true,
        }
    }
}

/// What assembling a client's TLS setup yields, in the order the checks run:
/// first the trust roots, then — when an identity is given — the identity.
pub open spec fn spec_make_client_config(
    root_pem: Seq<u8>,
    cert_pem: Option<Seq<u8>>,
    key_pem: Option<Seq<u8>>,
) -> Result<(Seq<Seq<u8>>, Option<(Seq<Seq<u8>>, Seq<u8>)>), ConfigError> {
    match spec_load_roots(root_pem) {
        Err(e) => Err(e),
        Ok(roots) => match cert_pem {
            None => Ok((roots, None)),
            Some(cp) => match spec_load_client_identity(cp, key_pem->0) {
                Err(e) => Err(e),
                Ok(id) => Ok((roots, Some(id))),
            },
        },
    }
}

/// Assemble a client's TLS setup from PEM texts: the trust roots the server
/// must chain to, and an optional client identity; a certificate given
/// without its key is a caller bug, excluded by contract. Succeeds exactly
/// when every text scans, the counts are right, the roots are usable and
/// rustls accepts any identity's key; the result is well-formed.
pub fn make_client_config(
    root_pem: &[u8],
    cert_pem: Option<&[u8]>,
    key_pem: Option<&[u8]>,
) -> (r: Result<ClientTlsConfig, ConfigError>)
    requires
        cert_pem is Some ==> key_pem is Some,
    ensures
        match spec_make_client_config(
            root_pem@,
            match cert_pem {
                Some(p) => Some(p@),
                None => None,
            },
            match key_pem {
                Some(p) => Some(p@),
                None => None,
            },
        ) {
            Ok(m) => {
                &&& r matches Ok(t)
                &&& t.wf()
                &&& spec_der_list(t.trusted_roots@) == m.0
                &&& match m.1 {
                    Some(id) => t.identity matches Some(i) && spec_der_list(i.certificate_chain@)
                        == id.0 && i.private_key@ == id.1,
                    None => t.identity is None,
                }
            },
            Err(e) => r == Err::<ClientTlsConfig, ConfigError>(e),
        },
{
    let roots = match load_roots(root_pem) {
        Ok(rs) => rs,
        Err(e) => {
            return Err(e);
        },
    };
    let identity = match cert_pem {
        None => None,
        Some(cp) => match load_client_identity(cp, key_pem.unwrap()) {
            Ok(id) => Some(id),
            Err(e) => {
                return Err(e);
            },
        },
    };
    Ok(ClientTlsConfig { trusted_roots: roots, identity })
}

} // verus!
