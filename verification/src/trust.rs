//! Host-key trust: the check/learn interface over (host, port, key)
//! triples and the policy decision taken when a server presents its
//! key during connection establishment.

use vstd::prelude::*;

use crate::connect::SSHSessionCheckServerKey;
use crate::errors::SSHError;
use crate::registry::{Registry, RegistryKey};
use crate::session::SSHSessionId;

verus! {

/// One persisted trust triple: host, port, and the encoded public key
/// as presented by the server.
pub struct TrustKey {
    pub host: String,
    pub port: u16,
    pub key: String,
}

impl View for TrustKey {
    type V = (Seq<char>, u16, Seq<char>);

    open spec fn view(&self) -> (Seq<char>, u16, Seq<char>) {
        (self.host@, self.port, self.key@)
    }
}

impl RegistryKey for TrustKey {
    fn key_eq(&self, other: &Self) -> (r: bool) {
        self.host == other.host && self.port == other.port && self.key == other.key
    }
}

/// The set of trusted (host, port, key) triples.  The running system
/// keeps this file-backed in host-key-database conventions; the engine
/// only checks and learns through this interface.
pub struct TrustStore {
    entries: Registry<TrustKey, ()>,
}

impl View for TrustStore {
    type V = Map<(Seq<char>, u16, Seq<char>), ()>;

    closed spec fn view(&self) -> Map<(Seq<char>, u16, Seq<char>), ()> {
        self.entries@
    }
}

impl TrustStore {
    pub closed spec fn wf(&self) -> bool {
        self.entries.wf()
    }

    /// A store that trusts nothing yet.
    pub fn new() -> (r: TrustStore)
        ensures
            r.wf(),
            r@ == Map::<(Seq<char>, u16, Seq<char>), ()>::empty(),
    {
        TrustStore { entries: Registry::new() }
    }

    /// Whether this exact (host, port, key) triple is trusted.  A
    /// different key for the same host and port does not match.
    pub fn check(&self, host: &String, port: u16, key: &String) -> (r: bool)
        requires
            self.wf(),
        ensures
            r == self@.contains_key((host@, port, key@)),
    {
        let probe = TrustKey { host: host.clone(), port, key: key.clone() };
        self.entries.contains(&probe)
    }

    /// Records the triple as trusted.
    pub fn learn(&mut self, host: String, port: u16, key: String)
        requires
            old(self).wf(),
        ensures
            final(self).wf(),
            final(self)@ == old(self)@.insert((host@, port, key@), ()),
    {
        let entry = TrustKey { host, port, key };
        self.entries.insert(entry, ());
    }
}

/// The transport callback identity for one connecting session: which
/// session the events belong to, the dialed endpoint, and the host-key
/// policy the caller supplied for this connect.
pub struct SSHClient {
    pub ssh_session_id: SSHSessionId,
    pub hostname: String,
    pub port: u16,
    pub check_server_key: Option<SSHSessionCheckServerKey>,
}

impl SSHClient {
    pub fn new(
        ssh_session_id: SSHSessionId,
        hostname: String,
        port: u16,
        check_server_key: Option<SSHSessionCheckServerKey>,
    ) -> (r: SSHClient)
        ensures
            r.ssh_session_id == ssh_session_id,
            r.hostname == hostname,
            r.port == port,
            r.check_server_key == check_server_key,
    {
        SSHClient { ssh_session_id, hostname, port, check_server_key }
    }

    /// Decides whether to proceed with the server's presented key:
    ///
    /// - a trusted (host, port, key) triple always proceeds;
    /// - an unknown key proceeds under `Continue`, and under
    ///   `AddAndContinue` is persisted into the store before
    ///   proceeding;
    /// - with no policy an unknown key fails with `UnknownHostKey`
    ///   naming the key's algorithm and fingerprint.
    pub fn check_server_key(
        &self,
        store: &mut TrustStore,
        key: &String,
        algorithm: String,
        fingerprint: String,
    ) -> (r: Result<bool, SSHError>)
        requires
            old(store).wf(),
        ensures
            final(store).wf(),
            old(store)@.contains_key((self.hostname@, self.port, key@)) ==> r == Ok::<
                bool,
                SSHError,
            >(true) && final(store)@ == old(store)@,
            !old(store)@.contains_key((self.hostname@, self.port, key@)) ==> match self.check_server_key {
                Some(SSHSessionCheckServerKey::Continue) => r == Ok::<bool, SSHError>(true)
                    && final(store)@ == old(store)@,
                Some(SSHSessionCheckServerKey::AddAndContinue) => r == Ok::<bool, SSHError>(true)
                    && final(store)@ == old(store)@.insert((self.hostname@, self.port, key@), ()),
                None => r == Err::<bool, SSHError>(
                    SSHError::UnknownHostKey { algorithm, fingerprint },
                ) && final(store)@ == old(store)@,
            },
    {
        if store.check(&self.hostname, self.port, key) {
            return Ok(true);
        }
        match self.check_server_key {
            Some(SSHSessionCheckServerKey::Continue) => Ok(true),
            Some(SSHSessionCheckServerKey::AddAndContinue) => {
                store.learn(self.hostname.clone(), self.port, key.clone());
                Ok(true)
            }
            None => Err(SSHError::UnknownHostKey { algorithm, fingerprint }),
        }
    }
}

/// Learning a previously-unknown triple under `AddAndContinue` makes a
/// subsequent check succeed for that exact triple, and only for it: a
/// different key for the same host and port stays untrusted until a
/// policy is applied again.
pub proof fn lemma_learn_trusts_exact_triple(
    store: Map<(Seq<char>, u16, Seq<char>), ()>,
    host: Seq<char>,
    port: u16,
    key: Seq<char>,
    other_key: Seq<char>,
)
    requires
        !store.contains_key((host, port, other_key)),
        other_key != key,
    ensures
        store.insert((host, port, key), ()).contains_key((host, port, key)),
        !store.insert((host, port, key), ()).contains_key((host, port, other_key)),
{
}

} // verus!
