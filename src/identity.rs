//! Loading a server identity (certificate chain and signing key) from one
//! PEM bundle per hostname.

use vstd::prelude::*;

use std::sync::Arc;
use tokio_rustls::rustls::sign::CertifiedKey;
use tokio_rustls::rustls::{Certificate, PrivateKey};

verus! {

#[verifier::external_type_specification]
#[verifier::external_body]
pub struct ExCertifiedKey(CertifiedKey);

/// The certificates that rustls_pemfile finds in a PEM text, in order, or
/// `None` where the text is malformed.
pub uninterp spec fn pem_certs_of(pem: Seq<u8>) -> Option<Seq<Seq<u8>>>;

/// The PKCS#8 private keys that rustls_pemfile finds in a PEM text, in
/// order, or `None` where the text is malformed.
pub uninterp spec fn pem_pkcs8_keys_of(pem: Seq<u8>) -> Option<Seq<Seq<u8>>>;

/// Relies on rustls_pemfile::certs: the DER bodies of the certificate
/// sections of the text, in order; it fails only on a malformed section.
#[verifier::external_body]
fn pem_certs(pem: &[u8]) -> (r: Option<Vec<Vec<u8>>>)
    ensures
        match r {
            Some(v) => pem_certs_of(pem@) == Some(v.deep_view()),
            None => pem_certs_of(pem@) is None,
        },
{
    let mut rd: &[u8] = pem;
    rustls_pemfile::certs(&mut rd).ok()
}

/// Relies on rustls_pemfile::pkcs8_private_keys: the DER bodies of the
/// PKCS#8 key sections of the text, in order; it fails only on a malformed
/// section.
#[verifier::external_body]
fn pem_pkcs8_keys(pem: &[u8]) -> (r: Option<Vec<Vec<u8>>>)
    ensures
        match r {
            Some(v) => pem_pkcs8_keys_of(pem@) == Some(v.deep_view()),
            None => pem_pkcs8_keys_of(pem@) is None,
        },
{
    let mut rd: &[u8] = pem;
    rustls_pemfile::pkcs8_private_keys(&mut rd).ok()
}

/// Relies on rustls::sign::any_supported_type to turn the key into a signing
/// key, and on CertifiedKey::new to pair it with the chain, which it keeps as
/// given; the signing key is a trait object, so the two calls stand together.
/// Whether a key is taken may depend on the system's random number generator
/// (ECDSA keys draw a nonce key from it), so nothing is promised of the result.
#[verifier::external_body]
fn certified_key(chain: &Vec<Vec<u8>>, key: &Vec<u8>) -> (r: Option<CertifiedKey>) {
    match tokio_rustls::rustls::sign::any_supported_type(&PrivateKey(key.clone())) {
        Ok(signer) => Some(CertifiedKey::new(chain.iter().map(|c| Certificate(c.clone())).collect(), signer)),
        Err(_) => None,
    }
}

/// A server identity: the rustls identity that handshakes present, with the
/// certificate chain (leaf first) and the private key it was built from.
pub struct Identity {
    chain: Vec<Vec<u8>>,
    key: Ghost<Seq<u8>>,
    certified: Arc<CertifiedKey>,
}

impl View for Identity {
    /// The chain, leaf first, and the private key, as DER.
    type V = (Seq<Seq<u8>>, Seq<u8>);

    closed spec fn view(&self) -> Self::V {
        (self.chain.deep_view(), self.key@)
    }
}

impl Identity {
    /// The certificate chain, leaf first, as DER.
    pub fn chain(&self) -> (r: &Vec<Vec<u8>>)
        ensures
            r.deep_view() == self@.0,
    {
        &self.chain
    }

    /// The rustls identity built from the chain and key.
    pub closed spec fn rustls_identity(&self) -> Arc<CertifiedKey> {
        self.certified
    }

    /// The rustls identity, to present in a handshake.
    pub fn certified(&self) -> (r: Arc<CertifiedKey>)
        ensures
            r == self.rustls_identity(),
    {
        self.certified.clone()
    }
}

/// Why no identity could be had for a hostname.
#[derive(Clone, Copy, Debug, PartialEq, Eq, Structural)]
pub enum LoadError {
    /// There is no bundle stored for the hostname.
    NotFound,
    /// The certificate sections of the bundle are malformed.
    InvalidCert,
    /// The key sections of the bundle are malformed.
    InvalidKey,
    /// The bundle holds no PKCS#8 private key.
    NoKey,
    /// rustls did not take the first private key.
    UnsupportedKey,
}

/// The parts of a bundle that an identity is built from: the certificate
/// chain, leaf first, and the first PKCS#8 private key.
pub struct Bundle {
    pub chain: Vec<Vec<u8>>,
    pub key: Vec<u8>,
}

/// What a bundle's text yields: its chain and first key, or why not.
pub open spec fn bundle_of(pem: Seq<u8>) -> Result<(Seq<Seq<u8>>, Seq<u8>), LoadError> {
    match pem_certs_of(pem) {
        None => Err(LoadError::InvalidCert),
        Some(chain) => match pem_pkcs8_keys_of(pem) {
            None => Err(LoadError::InvalidKey),
            Some(keys) => if keys.len() == 0 {
                Err(LoadError::NoKey)
            } else {
                Ok((chain, keys[0]))
            },
        },
    }
}

/// `r` is an outcome that loading an identity from a bundle's text may have:
/// the chain and first key of the bundle; or exactly the error that the
/// bundle's text gives; or, where the text is sound, a key that rustls did
/// not take.
pub open spec fn admits(pem: Seq<u8>, r: Result<(Seq<Seq<u8>>, Seq<u8>), LoadError>) -> bool {
    match r {
        Ok(v) => bundle_of(pem) == Ok::<(Seq<Seq<u8>>, Seq<u8>), LoadError>(v),
        Err(e) => match bundle_of(pem) {
            Err(f) => e == f,
            Ok(_) => e == LoadError::UnsupportedKey,
        },
    }
}

/// Directory under which the bundles are stored.
pub const CERTS_ROOT: &'static str = "certs";

/// Where the bundle for hostname `h` is stored: `<root>/ssl/<h>.both.pem`.
pub open spec fn bundle_path_of(h: Seq<char>) -> Seq<char> {
    CERTS_ROOT@ + "/ssl/"@ + h + ".both.pem"@
}

/// The path of the bundle stored for a hostname.
pub fn bundle_path(domain: &str) -> (r: String)
    ensures
        r@ == bundle_path_of(domain@),
{
    let mut p = CERTS_ROOT.to_string();
    p.append("/ssl/");
    p.append(domain);
    p.append(".both.pem");
    p
}

/// Splits a bundle's text into its certificate chain and first private key.
pub fn parse_bundle(pem: &[u8]) -> (r: Result<Bundle, LoadError>)
    ensures
        match r {
            Ok(b) => bundle_of(pem@) == Ok::<(Seq<Seq<u8>>, Seq<u8>), LoadError>(
                (b.chain.deep_view(), b.key@),
            ),
            Err(e) => bundle_of(pem@) == Err::<(Seq<Seq<u8>>, Seq<u8>), LoadError>(e),
        },
{
    let chain = match pem_certs(pem) {
        Some(c) => c,
        None => return Err(LoadError::InvalidCert),
    };
    let mut keys = match pem_pkcs8_keys(pem) {
        Some(k) => k,
        None => return Err(LoadError::InvalidKey),
    };
    if keys.len() == 0 {
        return Err(LoadError::NoKey);
    }
    let ghost all_keys = keys.deep_view();
    let key = keys.swap_remove(0);
    assert(key@ == all_keys[0]);
    Ok(Bundle { chain, key })
}

/// Builds the server identity held in a bundle's text.
pub fn load_certified_key(pem: &[u8]) -> (r: Result<Identity, LoadError>)
    ensures
        admits(
            pem@,
            match r {
                Ok(id) => Ok(id@),
                Err(e) => Err(e),
            },
        ),
{
    let bundle = parse_bundle(pem)?;
    match certified_key(&bundle.chain, &bundle.key) {
        Some(k) => Ok(
            Identity { chain: bundle.chain, key: Ghost(bundle.key@), certified: Arc::new(k) },
        ),
        None => Err(LoadError::UnsupportedKey),
    }
}

} // verus!
