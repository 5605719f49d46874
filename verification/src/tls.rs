//! The server's TLS certificate: a fresh self-signed one, and the server
//! configuration built from a certificate and key.

use vstd::prelude::*;

verus! {

#[verifier::external_type_specification]
#[verifier::external_body]
pub struct ExServerConfig(rustls::ServerConfig);

#[verifier::external_type_specification]
#[verifier::external_body]
pub struct ExKeyPair(rcgen::KeyPair);

/// Generates a fresh key pair, by `rcgen::KeyPair::generate`, or the error's text.
/// The key is random: nothing is claimed of it.
#[verifier::external_body]
fn rcgen_generate_key() -> (r: Result<rcgen::KeyPair, String>)
{
    rcgen::KeyPair::generate().map_err(|e| e.to_string())
}

/// Name for whether rustls accepts a certificate and PKCS#8 key (in DER) as a
/// server's single certificate.
pub uninterp spec fn rustls_accepts(cert_der: Seq<u8>, key_der: Seq<u8>) -> bool;

/// Builds a server configuration without client authentication and with the given
/// certificate and key, by `ServerConfig::builder().with_no_client_auth()
/// .with_single_cert`. Claims success exactly when the named acceptance holds; what
/// the configuration holds is left to rustls.
#[verifier::external_body]
fn rustls_single_cert(cert_der: Vec<u8>, key_der: Vec<u8>) -> (r: Result<rustls::ServerConfig, String>)
    ensures
        r is Ok == rustls_accepts(cert_der@, key_der@),
{
    let certs = vec![rustls::pki_types::CertificateDer::from(cert_der)];
    let key = rustls::pki_types::PrivateKeyDer::Pkcs8(rustls::pki_types::PrivatePkcs8KeyDer::from(key_der));
    match rustls::ServerConfig::builder().with_no_client_auth().with_single_cert(certs, key) {
        Ok(c) => Ok(c),
        Err(e) => Err(e.to_string()),
    }
}

/// Signs a certificate with rcgen's default parameters for the key, by
/// `CertificateParams::self_signed`, and hands it out with the key it was made for,
/// in DER: the certificate, then the key as `KeyPair::serialize_der` encodes it
/// (PKCS#8; that call panics only for remote keys, never made here); or the error's
/// text. The signature is randomised, so of the bytes it claims only that both are
/// not empty and that rustls accepts the pair: `with_single_cert` fails only for a
/// key its provider cannot load or whose public key differs from the certificate's,
/// and `self_signed` puts the key's own public key in the certificate, in a key
/// format that the ring provider loads.
#[verifier::external_body]
fn rcgen_self_signed(key: &rcgen::KeyPair) -> (r: Result<(Vec<u8>, Vec<u8>), String>)
    ensures
        r matches Ok((c, k)) ==> c@.len() > 0 && k@.len() > 0 && rustls_accepts(c@, k@),
{
    match rcgen::CertificateParams::default().self_signed(key) {
        Ok(cert) => Ok((cert.der().to_vec(), key.serialize_der())),
        Err(e) => Err(e.to_string()),
    }
}

/// Generates a self-signed certificate and its key (DER), or the error's text; a
/// generated pair always makes a server configuration (`build_server_config`).
pub fn generate_self_signed_cert() -> (r: Result<(Vec<u8>, Vec<u8>), String>)
    ensures
        r matches Ok((c, k)) ==> c@.len() > 0 && k@.len() > 0 && rustls_accepts(c@, k@),
{
    let key = match rcgen_generate_key() {
        Ok(k) => k,
        Err(e) => return Err(e),
    };
    rcgen_self_signed(&key)
}

/// Builds the server's TLS configuration from a certificate and a PKCS#8 key (DER);
/// the error's text when rustls refuses them.
pub fn build_server_config(cert_der: Vec<u8>, key_der: Vec<u8>) -> (r: Result<rustls::ServerConfig, String>)
    ensures
        r is Ok == rustls_accepts(cert_der@, key_der@),
{
    rustls_single_cert(cert_der, key_der)
}

} // verus!
