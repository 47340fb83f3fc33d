//! The authentication engine: one authentication attempt per
//! invocation.  Credential inspection, key material decoding and
//! certificate parsing happen here; the transport round-trip that
//! presents the prepared attempt to the server is performed outside and
//! its verdict is mapped back through `finish_authentication`.

use vstd::prelude::*;

use crate::errors::{AuthenticationMethod, SSHError};

verus! {

#[verifier::external_type_specification]
#[verifier::external_body]
pub struct ExPrivateKey(russh::keys::PrivateKey);

#[verifier::external_type_specification]
#[verifier::external_body]
pub struct ExCertificate(russh::keys::Certificate);

/// A tagged transient credential; never persisted by this engine.
#[derive(Debug, Clone)]
pub enum AuthenticationData {
    Password { password: String },
    PublicKey { private_key: String, passphrase: Option<String> },
    Certificate { private_key: String, passphrase: Option<String>, certificate: String },
}

/// The fixed hash-algorithm policy for public-key signatures: SHA-512,
/// selected for RSA-family keys and ignored by other key types.
#[derive(Debug, Clone, Copy, PartialEq, Eq, Structural)]
pub enum HashPolicy {
    Sha512,
}

/// One prepared authentication attempt, ready to be presented to the
/// server.  Key material has already been decoded and the certificate
/// blob parsed.
pub enum AuthAttempt {
    Password { password: String },
    PublicKey { key: russh::keys::PrivateKey, hash: HashPolicy },
    Certificate { key: russh::keys::PrivateKey, certificate: russh::keys::Certificate },
}

/// Whether the given key material, with the given passphrase, decodes
/// to a private key; decoding is a function of the text and passphrase
/// alone.
pub uninterp spec fn secret_key_decodes(secret: Seq<char>, passphrase: Option<Seq<char>>) -> bool;

/// Whether the given certificate text parses as an OpenSSH-formatted
/// certificate; a function of the text alone.
pub uninterp spec fn certificate_parses(certificate: Seq<char>) -> bool;

/// The view of an optional borrowed string.
pub open spec fn opt_str_view(o: Option<&str>) -> Option<Seq<char>> {
    match o {
        Some(s) => Some(s@),
        None => None,
    }
}

/// The view of an optional owned string.
pub open spec fn opt_string_view(o: Option<String>) -> Option<Seq<char>> {
    match o {
        Some(s) => Some(s@),
        None => None,
    }
}

/// An empty passphrase means no passphrase.
pub open spec fn spec_normalized_passphrase(p: Option<Seq<char>>) -> Option<Seq<char>> {
    match p {
        Some(s) => if s.len() == 0 {
            None
        } else {
            Some(s)
        },
        None => None,
    }
}

/// Relies on russh's `decode_secret_key`: parses (and with a passphrase
/// deciphers) OpenSSH / PEM / PPK secret-key text, deterministically in
/// its two arguments.
#[verifier::external_body]
fn decode_secret_key(secret: &str, passphrase: Option<&str>) -> (r: Option<
    russh::keys::PrivateKey,
>)
    ensures
        r is Some <==> secret_key_decodes(secret@, opt_str_view(passphrase)),
{
    russh::keys::decode_secret_key(secret, passphrase).ok()
}

/// Relies on `Certificate::from_openssh` of the ssh-key crate russh
/// re-exports: parses OpenSSH-formatted certificate text,
/// deterministically in its argument.
#[verifier::external_body]
fn parse_certificate(certificate: &str) -> (r: Option<russh::keys::Certificate>)
    ensures
        r is Some <==> certificate_parses(certificate@),
{
    russh::keys::Certificate::from_openssh(certificate).ok()
}

/// Collapses the legacy flat parameter surface (optional password,
/// optional private key, optional passphrase) into one tagged
/// credential; a private key takes precedence over a password.
pub fn credential_of(password: Option<String>, private_key: Option<String>, passphrase: Option<
    String,
>) -> (r: Option<AuthenticationData>)
    ensures
        private_key matches Some(k) ==> (r matches Some(
            AuthenticationData::PublicKey { private_key: rk, passphrase: rp },
        ) && rk == k && rp == passphrase),
        private_key is None ==> (password matches Some(p) ==> r == Some(
            AuthenticationData::Password { password: p },
        )),
        private_key is None && password is None ==> r is None,
{
    match private_key {
        Some(k) => Some(AuthenticationData::PublicKey { private_key: k, passphrase }),
        None => match password {
            Some(p) => Some(AuthenticationData::Password { password: p }),
            None => None,
        },
    }
}

/// An empty passphrase is treated as absent.
fn normalize_passphrase(passphrase: Option<String>) -> (r: Option<String>)
    ensures
        opt_string_view(r) == spec_normalized_passphrase(opt_string_view(passphrase)),
{
    match passphrase {
        Some(p) => {
            if p.as_str().is_empty() {
                None
            } else {
                Some(p)
            }
        }
        None => None,
    }
}

/// Prepares one authentication attempt from the supplied credential.
///
/// - No credential at all fails immediately with
///   `AuthenticationFailed { Unsupported }`, before any transport
///   round-trip.
/// - A public-key credential with empty or undecodable key material
///   fails with `AuthenticationFailed { PublicKey }`.
/// - A certificate credential with empty or undecodable key material
///   or an empty certificate fails with
///   `AuthenticationFailed { Certificate }`; a malformed certificate
///   blob is the distinct `CertificateParseError`, not an
///   authentication failure.
pub fn prepare_authentication(credential: Option<AuthenticationData>) -> (r: Result<
    AuthAttempt,
    SSHError,
>)
    ensures
        credential is None ==> r == Err::<AuthAttempt, SSHError>(
            SSHError::AuthenticationFailed { method: AuthenticationMethod::Unsupported },
        ),
        credential matches Some(AuthenticationData::Password { password }) ==> (r matches Ok(
            AuthAttempt::Password { password: p },
        ) && p == password),
        credential matches Some(
            AuthenticationData::PublicKey { private_key, passphrase },
        ) ==> {
            &&& private_key@.len() == 0 ==> r == Err::<AuthAttempt, SSHError>(
                SSHError::AuthenticationFailed { method: AuthenticationMethod::PublicKey },
            )
            &&& private_key@.len() > 0 && !secret_key_decodes(
                private_key@,
                spec_normalized_passphrase(opt_string_view(passphrase)),
            ) ==> r == Err::<AuthAttempt, SSHError>(
                SSHError::AuthenticationFailed { method: AuthenticationMethod::PublicKey },
            )
            &&& private_key@.len() > 0 && secret_key_decodes(
                private_key@,
                spec_normalized_passphrase(opt_string_view(passphrase)),
            ) ==> (r matches Ok(AuthAttempt::PublicKey { key: _, hash }) && hash
                == HashPolicy::Sha512)
        },
        credential matches Some(
            AuthenticationData::Certificate { private_key, passphrase, certificate },
        ) ==> {
            &&& private_key@.len() == 0 ==> r == Err::<AuthAttempt, SSHError>(
                SSHError::AuthenticationFailed { method: AuthenticationMethod::Certificate },
            )
            &&& private_key@.len() > 0 && certificate@.len() == 0 ==> r == Err::<
                AuthAttempt,
                SSHError,
            >(SSHError::AuthenticationFailed { method: AuthenticationMethod::Certificate })
            &&& private_key@.len() > 0 && certificate@.len() > 0 && !secret_key_decodes(
                private_key@,
                spec_normalized_passphrase(opt_string_view(passphrase)),
            ) ==> r == Err::<AuthAttempt, SSHError>(
                SSHError::AuthenticationFailed { method: AuthenticationMethod::Certificate },
            )
            &&& private_key@.len() > 0 && certificate@.len() > 0 && secret_key_decodes(
                private_key@,
                spec_normalized_passphrase(opt_string_view(passphrase)),
            ) && !certificate_parses(certificate@) ==> r == Err::<AuthAttempt, SSHError>(
                SSHError::CertificateParseError,
            )
            &&& private_key@.len() > 0 && certificate@.len() > 0 && secret_key_decodes(
                private_key@,
                spec_normalized_passphrase(opt_string_view(passphrase)),
            ) && certificate_parses(certificate@) ==> r matches Ok(
                AuthAttempt::Certificate { .. },
            )
        },
{
    match credential {
        None => Err(
            SSHError::AuthenticationFailed { method: AuthenticationMethod::Unsupported },
        ),
        Some(AuthenticationData::Password { password }) => Ok(AuthAttempt::Password { password }),
        Some(AuthenticationData::PublicKey { private_key, passphrase }) => {
            if private_key.as_str().is_empty() {
                return Err(
                    SSHError::AuthenticationFailed { method: AuthenticationMethod::PublicKey },
                );
            }
            let passphrase = normalize_passphrase(passphrase);
            let pass = match &passphrase {
                Some(p) => Some(p.as_str()),
                None => None,
            };
            match decode_secret_key(private_key.as_str(), pass) {
                Some(key) => Ok(AuthAttempt::PublicKey { key, hash: HashPolicy::Sha512 }),
                None => Err(
                    SSHError::AuthenticationFailed { method: AuthenticationMethod::PublicKey },
                ),
            }
        }
        Some(AuthenticationData::Certificate { private_key, passphrase, certificate }) => {
            if private_key.as_str().is_empty() {
                return Err(
                    SSHError::AuthenticationFailed { method: AuthenticationMethod::Certificate },
                );
            }
            if certificate.as_str().is_empty() {
                return Err(
                    SSHError::AuthenticationFailed { method: AuthenticationMethod::Certificate },
                );
            }
            let passphrase = normalize_passphrase(passphrase);
            let pass = match &passphrase {
                Some(p) => Some(p.as_str()),
                None => None,
            };
            let key = match decode_secret_key(private_key.as_str(), pass) {
                Some(key) => key,
                None => {
                    return Err(
                        SSHError::AuthenticationFailed {
                            method: AuthenticationMethod::Certificate,
                        },
                    );
                }
            };
            match parse_certificate(certificate.as_str()) {
                Some(cert) => Ok(AuthAttempt::Certificate { key, certificate: cert }),
                None => Err(SSHError::CertificateParseError),
            }
        }
    }
}

/// Maps the server's verdict on one attempt: success is `Ok`, refusal
/// is `AuthenticationFailed` naming the method that was tried.
pub fn finish_authentication(method: AuthenticationMethod, success: bool) -> (r: Result<
    (),
    SSHError,
>)
    ensures
        success ==> r == Ok::<(), SSHError>(()),
        !success ==> r == Err::<(), SSHError>(SSHError::AuthenticationFailed { method }),
{
    if success {
        Ok(())
    } else {
        Err(SSHError::AuthenticationFailed { method })
    }
}

} // verus!
