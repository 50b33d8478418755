//! Loading and checking the TLS key material before any socket is bound.

use vstd::prelude::*;

use std::sync::Arc;

use rustls::ServerConfig;
use rustls_pki_types::pem::PemObject;
use rustls_pki_types::{CertificateDer, PrivateKeyDer};

use crate::config::TlsConfig;

verus! {

#[verifier::external_type_specification]
#[verifier::external_body]
pub struct ExServerConfig(rustls::ServerConfig);

/// What rustls makes of a certificate chain and a private key.
#[derive(Clone, Copy, PartialEq, Eq, Structural, Debug)]
pub enum CertCheck {
    /// The key parses and matches the first certificate of the chain.
    Accepted,
    /// The key is not one that rustls can sign with.
    KeyRejected,
    /// The chain is empty, or its first certificate does not parse.
    ChainRejected,
    /// The key does not belong to the first certificate of the chain.
    Mismatch,
}

/// Why TLS key material could not be loaded.
#[derive(Clone, Copy, PartialEq, Eq, Structural, Debug)]
pub enum TlsError {
    InvalidKey,
    InvalidCertificate,
    KeyCertMismatch,
    /// The key or the certificate chain is missing.
    Incomplete,
}

/// The DER bytes of the first private key in PEM text, if there is one.
pub uninterp spec fn pem_private_key(pem: Seq<u8>) -> Option<Seq<u8>>;

/// The DER bytes of each certificate in PEM text, if every section parses.
pub uninterp spec fn pem_certificates(pem: Seq<u8>) -> Option<Seq<Seq<u8>>>;

/// What rustls makes of a DER certificate chain and a DER private key.
pub uninterp spec fn single_cert_check(chain: Seq<Seq<u8>>, key: Seq<u8>) -> CertCheck;

/// Relies on rustls-pki-types' `PrivateKeyDer::from_pem_slice`: the first
/// private-key section of the PEM text, whose DER bytes `secret_der` gives.
#[verifier::external_body]
fn private_key_der(pem: &[u8]) -> (r: Option<Vec<u8>>)
    ensures
        match r {
            Some(v) => pem_private_key(pem@) == Some(v@),
            None => pem_private_key(pem@) is None,
        },
{
    PrivateKeyDer::from_pem_slice(pem).ok().map(|k| k.secret_der().to_vec())
}

/// Relies on rustls-pki-types' `CertificateDer::pem_slice_iter`: each
/// certificate section of the PEM text, in order, or an error from one of them.
#[verifier::external_body]
fn certificate_chain_der(pem: &[u8]) -> (r: Option<Vec<Vec<u8>>>)
    ensures
        match r {
            Some(v) => pem_certificates(pem@) == Some(v.deep_view()),
            None => pem_certificates(pem@) is None,
        },
{
    CertificateDer::pem_slice_iter(pem).map(|c| c.map(|c| c.to_vec())).collect::<Result<
        Vec<Vec<u8>>,
        _,
    >>().ok()
}

/// Relies on rustls-pki-types' `PrivateKeyDer::try_from`, which tells the key's
/// encoding from its DER bytes, and on rustls' `ServerConfig::builder()`,
/// `with_no_client_auth` and `with_single_cert`, which load the key with the
/// ring provider (failing with `Error::General`), parse the first certificate
/// and compare its public key with the key's (`Error::InconsistentKeys`).
#[verifier::external_body]
fn single_cert_config(chain: Vec<Vec<u8>>, key: Vec<u8>) -> (r: Result<ServerConfig, CertCheck>)
    ensures
        r is Ok <==> single_cert_check(chain.deep_view(), key@) == CertCheck::Accepted,
        r matches Err(e) ==> e == single_cert_check(chain.deep_view(), key@),
{
    let key = PrivateKeyDer::try_from(key).map_err(|_| CertCheck::KeyRejected)?;
    let chain = chain.into_iter().map(CertificateDer::from).collect();
    ServerConfig::builder().with_no_client_auth().with_single_cert(chain, key).map_err(|e| match e {
        rustls::Error::InconsistentKeys(_) => CertCheck::Mismatch,
        rustls::Error::General(_) => CertCheck::KeyRejected,
        _ => CertCheck::ChainRejected,
    })
}

/// The error for each way rustls can refuse a chain and a key.
pub open spec fn rejection_error(c: CertCheck) -> TlsError {
    match c {
        CertCheck::KeyRejected => TlsError::InvalidKey,
        CertCheck::Mismatch => TlsError::KeyCertMismatch,
        _ => TlsError::InvalidCertificate,
    }
}

/// The outcome of loading TLS material, given what rustls made of it.
pub open spec fn check_result(c: CertCheck) -> Result<(), TlsError> {
    if c == CertCheck::Accepted {
        Ok(())
    } else {
        Err(rejection_error(c))
    }
}

/// Maps what rustls made of a chain and a key to the loader's outcome.
pub fn check_outcome(c: CertCheck) -> (r: Result<(), TlsError>)
    ensures
        r == check_result(c),
{
    match c {
        CertCheck::Accepted => Ok(()),
        CertCheck::KeyRejected => Err(TlsError::InvalidKey),
        CertCheck::Mismatch => Err(TlsError::KeyCertMismatch),
        CertCheck::ChainRejected => Err(TlsError::InvalidCertificate),
    }
}

/// The DER bytes of the private key in PEM text.
pub fn get_priv_key_from_pem(pem: &[u8]) -> (r: Result<Vec<u8>, TlsError>)
    ensures
        match r {
            Ok(v) => pem_private_key(pem@) == Some(v@),
            Err(e) => pem_private_key(pem@) is None && e == TlsError::InvalidKey,
        },
{
    match private_key_der(pem) {
        Some(v) => Ok(v),
        None => Err(TlsError::InvalidKey),
    }
}

/// The DER bytes of each certificate in PEM text, in order.
pub fn get_pub_cert_chain_from_pem(pem: &[u8]) -> (r: Result<Vec<Vec<u8>>, TlsError>)
    ensures
        match r {
            Ok(v) => pem_certificates(pem@) == Some(v.deep_view()),
            Err(e) => pem_certificates(pem@) is None && e == TlsError::InvalidCertificate,
        },
{
    match certificate_chain_der(pem) {
        Some(v) => Ok(v),
        None => Err(TlsError::InvalidCertificate),
    }
}

/// A private key and certificate chain that rustls accepted together, and the
/// server configuration built from them; shared read-only by every secure
/// accept loop.
pub struct TlsMaterial {
    config: Arc<ServerConfig>,
    chain: Ghost<Seq<Seq<u8>>>,
    key: Ghost<Seq<u8>>,
}

impl TlsMaterial {
    /// The DER certificate chain the material was built from.
    pub closed spec fn chain(&self) -> Seq<Seq<u8>> {
        self.chain@
    }

    /// The DER private key the material was built from.
    pub closed spec fn key(&self) -> Seq<u8> {
        self.key@
    }

    /// The server configuration that the secure accept loops share.
    pub closed spec fn shared_config(&self) -> Arc<ServerConfig> {
        self.config
    }

    /// Material exists only for a key that rustls accepted with its chain.
    pub open spec fn wf(&self) -> bool {
        single_cert_check(self.chain(), self.key()) == CertCheck::Accepted
    }

    /// Builds the material from DER bytes. It fails with `Incomplete` where the
    /// key or the chain is missing, and otherwise as rustls judges the pair:
    /// `KeyCertMismatch` exactly where the key does not belong to the chain.
    pub fn try_from_config(config: TlsConfig) -> (r: Result<TlsMaterial, TlsError>)
        ensures
            !config.complete() ==> r is Err && r->Err_0 == TlsError::Incomplete,
            config.complete() ==> ({
                let c = single_cert_check(
                    config.tls_pub_cert.unwrap().deep_view(),
                    config.tls_priv_key.unwrap()@,
                );
                &&& r is Ok <==> c == CertCheck::Accepted
                &&& r matches Err(e) ==> Err::<(), TlsError>(e) == check_result(c)
                &&& r matches Ok(m) ==> m.wf() && m.chain()
                    == config.tls_pub_cert.unwrap().deep_view() && m.key()
                    == config.tls_priv_key.unwrap()@
            }),
    {
        let key = match config.tls_priv_key {
            Some(k) => k,
            None => return Err(TlsError::Incomplete),
        };
        let chain = match config.tls_pub_cert {
            Some(c) => c,
            None => return Err(TlsError::Incomplete),
        };
        let ghost chain_view = chain.deep_view();
        let ghost key_view = key@;
        match single_cert_config(chain, key) {
            Ok(server_config) => Ok(TlsMaterial {
                config: Arc::new(server_config),
                chain: Ghost(chain_view),
                key: Ghost(key_view),
            }),
            Err(c) => match check_outcome(c) {
                // rustls refuses only with a rejection, never with `Accepted`
                Ok(()) => Err(TlsError::InvalidCertificate),
                Err(e) => Err(e),
            },
        }
    }

    /// Loads the material from PEM text: the key first, then the chain, then
    /// the pair as rustls judges it.
    pub fn load(key_pem: &[u8], cert_pem: &[u8]) -> (r: Result<TlsMaterial, TlsError>)
        ensures
            pem_private_key(key_pem@) is None ==> r is Err && r->Err_0 == TlsError::InvalidKey,
            pem_private_key(key_pem@) is Some && pem_certificates(cert_pem@) is None
                ==> r is Err && r->Err_0 == TlsError::InvalidCertificate,
            pem_private_key(key_pem@) is Some && pem_certificates(cert_pem@) is Some ==> ({
                let c = single_cert_check(
                    pem_certificates(cert_pem@).unwrap(),
                    pem_private_key(key_pem@).unwrap(),
                );
                &&& r is Ok <==> c == CertCheck::Accepted
                &&& r matches Err(e) ==> Err::<(), TlsError>(e) == check_result(c)
                &&& r matches Ok(m) ==> m.wf() && m.chain() == pem_certificates(cert_pem@).unwrap()
                    && m.key() == pem_private_key(key_pem@).unwrap()
            }),
    {
        let key = match get_priv_key_from_pem(key_pem) {
            Ok(k) => k,
            Err(e) => return Err(e),
        };
        let chain = match get_pub_cert_chain_from_pem(cert_pem) {
            Ok(c) => c,
            Err(e) => return Err(e),
        };
        TlsMaterial::try_from_config(TlsConfig { tls_priv_key: Some(key), tls_pub_cert: Some(chain) })
    }

    /// The server configuration, shared.
    pub fn server_config(&self) -> (r: Arc<ServerConfig>)
        ensures
            r == self.shared_config(),
    {
        self.config.clone()
    }
}

} // verus!
