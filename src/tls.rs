//! Selection of the serving certificate chain and private key from PEM text.

use vstd::prelude::*;

verus! {

/// The DER contents of the certificate sections of PEM text, in order, or
/// `None` where the text cannot be read as PEM.
pub uninterp spec fn pem_certificates_of(pem: Seq<u8>) -> Option<Seq<Seq<u8>>>;

/// The DER contents of the RSA private key sections of PEM text, in order,
/// or `None` where the text cannot be read as PEM.
pub uninterp spec fn pem_rsa_keys_of(pem: Seq<u8>) -> Option<Seq<Seq<u8>>>;

pub open spec fn blobs_view(v: Seq<Vec<u8>>) -> Seq<Seq<u8>> {
    v.map_values(|b: Vec<u8>| b@)
}

pub open spec fn opt_blobs_view(v: Option<Vec<Vec<u8>>>) -> Option<Seq<Seq<u8>>> {
    match v {
        Some(v) => Some(blobs_view(v@)),
        None => None,
    }
}

/// Relies on `rustls_pemfile::certs`: the certificate sections of the text,
/// other sections skipped, or an error; it reads nothing but the bytes given.
#[verifier::external_body]
fn read_pem_certificates(pem: &[u8]) -> (r: Option<Vec<Vec<u8>>>)
    ensures
        opt_blobs_view(r) == pem_certificates_of(pem@),
{
    let mut reader = pem;
    rustls_pemfile::certs(&mut reader).ok()
}

/// Relies on `rustls_pemfile::rsa_private_keys`: the RSA private key sections
/// of the text, other sections skipped, or an error; it reads nothing but the
/// bytes given.
#[verifier::external_body]
fn read_pem_rsa_keys(pem: &[u8]) -> (r: Option<Vec<Vec<u8>>>)
    ensures
        opt_blobs_view(r) == pem_rsa_keys_of(pem@),
{
    let mut reader = pem;
    rustls_pemfile::rsa_private_keys(&mut reader).ok()
}

/// Why the serving certificate or key cannot be used.
#[derive(Debug, Clone, Copy, PartialEq, Eq, Structural)]
pub enum TlsError {
    /// The file is not PEM text.
    UnreadablePem,
    /// The file holds no certificate.
    NoCertificates,
    /// The file holds this many RSA private keys, not exactly one.
    KeyCount(usize),
}

pub open spec fn certificates_result(parsed: Option<Seq<Seq<u8>>>) -> Result<Seq<Seq<u8>>, TlsError> {
    match parsed {
        None => Err(TlsError::UnreadablePem),
        Some(c) => if c.len() == 0 {
            Err(TlsError::NoCertificates)
        } else {
            Ok(c)
        },
    }
}

pub open spec fn key_result(parsed: Option<Seq<Seq<u8>>>) -> Result<Seq<u8>, TlsError> {
    match parsed {
        None => Err(TlsError::UnreadablePem),
        Some(k) => if k.len() != 1 {
            Err(TlsError::KeyCount(k.len() as usize))
        } else {
            Ok(k[0])
        },
    }
}

pub open spec fn chain_view(r: Result<Vec<Vec<u8>>, TlsError>) -> Result<Seq<Seq<u8>>, TlsError> {
    match r {
        Ok(v) => Ok(blobs_view(v@)),
        Err(e) => Err(e),
    }
}

pub open spec fn key_view(r: Result<Vec<u8>, TlsError>) -> Result<Seq<u8>, TlsError> {
    match r {
        Ok(v) => Ok(v@),
        Err(e) => Err(e),
    }
}

/// Keeps a parsed certificate chain, which must hold at least one certificate.
pub fn select_certificates(parsed: Option<Vec<Vec<u8>>>) -> (r: Result<Vec<Vec<u8>>, TlsError>)
    ensures
        chain_view(r) == certificates_result(opt_blobs_view(parsed)),
{
    match parsed {
        None => Err(TlsError::UnreadablePem),
        Some(certs) => {
            if certs.len() == 0 {
                Err(TlsError::NoCertificates)
            } else {
                Ok(certs)
            }
        },
    }
}

/// Keeps the one parsed private key; none or several is an error.
pub fn select_private_key(parsed: Option<Vec<Vec<u8>>>) -> (r: Result<Vec<u8>, TlsError>)
    ensures
        key_view(r) == key_result(opt_blobs_view(parsed)),
{
    match parsed {
        None => Err(TlsError::UnreadablePem),
        Some(mut keys) => {
            if keys.len() != 1 {
                Err(TlsError::KeyCount(keys.len()))
            } else {
                let ghost all = keys@;
                match keys.pop() {
                    Some(key) => {
                        assert(key == all[0]);
                        Ok(key)
                    },
                    None => Err(TlsError::KeyCount(0)),
                }
            }
        },
    }
}

/// The certificate chain of a PEM file's contents.
pub fn certificates_from_pem(pem: &[u8]) -> (r: Result<Vec<Vec<u8>>, TlsError>)
    ensures
        chain_view(r) == certificates_result(pem_certificates_of(pem@)),
{
    select_certificates(read_pem_certificates(pem))
}

/// The RSA private key of a PEM file's contents.
pub fn private_key_from_pem(pem: &[u8]) -> (r: Result<Vec<u8>, TlsError>)
    ensures
        key_view(r) == key_result(pem_rsa_keys_of(pem@)),
{
    select_private_key(read_pem_rsa_keys(pem))
}

} // verus!
