//! Host-key trust decisions over the check/learn store.

use ssh_core::connect::SSHSessionCheckServerKey;
use ssh_core::errors::SSHError;
use ssh_core::session::SSHSessionId;
use ssh_core::trust::{SSHClient, TrustStore};

fn client(policy: Option<SSHSessionCheckServerKey>) -> SSHClient {
    SSHClient::new(SSHSessionId::new(1), "example.com".to_string(), 22, policy)
}

#[test]
fn add_and_continue_learns_the_exact_triple() {
    // First connection to an unknown host under AddAndContinue: the
    // connection proceeds and the triple is persisted, so a later
    // check succeeds for exactly that triple.
    let mut store = TrustStore::new();
    let c = client(Some(SSHSessionCheckServerKey::AddAndContinue));
    let key = "ssh-ed25519 AAAAC3NzaC1lZDI1NTE5AAAAIKey1".to_string();

    assert!(!store.check(&"example.com".to_string(), 22, &key));
    let r = c.check_server_key(&mut store, &key, "ssh-ed25519".to_string(), "SHA256:k1".to_string());
    assert_eq!(r, Ok(true));
    assert!(store.check(&"example.com".to_string(), 22, &key));

    // A different key for the same host is rejected unless a policy is
    // applied again.
    let other_key = "ssh-ed25519 AAAAC3NzaC1lZDI1NTE5AAAAIKey2".to_string();
    let strict = client(None);
    let r = strict.check_server_key(
        &mut store,
        &other_key,
        "ssh-ed25519".to_string(),
        "SHA256:k2".to_string(),
    );
    assert_eq!(
        r,
        Err(SSHError::UnknownHostKey {
            algorithm: "ssh-ed25519".to_string(),
            fingerprint: "SHA256:k2".to_string(),
        })
    );
    assert!(!store.check(&"example.com".to_string(), 22, &other_key));
}

#[test]
fn continue_proceeds_once_without_learning() {
    let mut store = TrustStore::new();
    let c = client(Some(SSHSessionCheckServerKey::Continue));
    let key = "k".to_string();
    let r = c.check_server_key(&mut store, &key, "alg".to_string(), "fp".to_string());
    assert_eq!(r, Ok(true));
    // Nothing was persisted: the next connect without a policy fails.
    let strict = client(None);
    let r = strict.check_server_key(&mut store, &key, "alg".to_string(), "fp".to_string());
    assert_eq!(
        r,
        Err(SSHError::UnknownHostKey { algorithm: "alg".to_string(), fingerprint: "fp".to_string() })
    );
}

#[test]
fn trusted_triple_proceeds_without_policy() {
    let mut store = TrustStore::new();
    store.learn("example.com".to_string(), 22, "k".to_string());
    let c = client(None);
    let r = c.check_server_key(&mut store, &"k".to_string(), "alg".to_string(), "fp".to_string());
    assert_eq!(r, Ok(true));
}

#[test]
fn trust_is_scoped_to_host_and_port() {
    let mut store = TrustStore::new();
    store.learn("example.com".to_string(), 22, "k".to_string());
    assert!(store.check(&"example.com".to_string(), 22, &"k".to_string()));
    assert!(!store.check(&"example.com".to_string(), 2222, &"k".to_string()));
    assert!(!store.check(&"other.com".to_string(), 22, &"k".to_string()));
}

#[test]
fn unknown_key_error_names_algorithm_and_fingerprint() {
    let mut store = TrustStore::new();
    let c = client(None);
    let r = c.check_server_key(
        &mut store,
        &"k".to_string(),
        "rsa-sha2-512".to_string(),
        "SHA256:abcdef".to_string(),
    );
    assert_eq!(
        r,
        Err(SSHError::UnknownHostKey {
            algorithm: "rsa-sha2-512".to_string(),
            fingerprint: "SHA256:abcdef".to_string(),
        })
    );
}
