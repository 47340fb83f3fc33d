//! The engine's shared state: the session registry and the three
//! forwarding registries, with every caller-facing registry operation.
//!
//! Cancellation channels are modelled by tokens: opening a local or
//! dynamic forwarding registers a fresh token under the forwarding key,
//! and closing removes and returns the token so the owner of the
//! matching channel can be signalled.  A second open on the same key
//! overwrites the registration, which orphans the first token: no close
//! can return it afterwards (see `lemma_reopen_orphans_previous_token`).

use vstd::prelude::*;

use crate::errors::SSHError;
use crate::registry::{Registry, RegistryKey};
use crate::session::{ChannelId, SSHSession, SSHSessionId, Size};

verus! {

impl RegistryKey for SSHSessionId {
    fn key_eq(&self, other: &Self) -> (r: bool) {
        self.id == other.id
    }
}

/// A forwarding registration key: (session, bind-or-remote address,
/// port).  The three forwarding kinds keep distinct key spaces, so
/// uniqueness is enforced per registry.
pub struct ForwardingKey {
    pub session_id: SSHSessionId,
    pub address: String,
    pub port: u16,
}

impl View for ForwardingKey {
    type V = (u128, Seq<char>, u16);

    open spec fn view(&self) -> (u128, Seq<char>, u16) {
        (self.session_id@, self.address@, self.port)
    }
}

impl RegistryKey for ForwardingKey {
    fn key_eq(&self, other: &Self) -> (r: bool) {
        self.session_id.id == other.session_id.id && self.address == other.address
            && self.port == other.port
    }
}

/// Where the server-side end of a remote forwarding should be relayed:
/// the local address the client dials on each forwarded connection.
#[derive(Debug, Clone, PartialEq, Eq)]
pub struct RemoteForwardingTarget {
    pub address: String,
    pub port: u16,
}

/// A client-initiated "direct-tcpip" channel request: tunnel to `host:
/// port` through the session, tagged with the originator that caused
/// it.
#[derive(Debug, Clone, PartialEq, Eq)]
pub struct DirectTcpIp {
    pub host: String,
    pub port: u16,
    pub originator_address: String,
    pub originator_port: u16,
}

/// A request that the server bind `address:port` and forward accepted
/// connections back over the session.
#[derive(Debug, Clone, PartialEq, Eq)]
pub struct TcpIpForward {
    pub address: String,
    pub port: u16,
}

/// The channel requests that set up an interactive shell: the
/// environment to export, the terminal type to request a pty with at
/// the given dimensions, and then a shell request.
#[derive(Debug, Clone, PartialEq, Eq)]
pub struct ShellSetup {
    pub env_name: String,
    pub env_value: String,
    pub term: String,
    pub size: Size,
}

/// The registries the engine shares between its tasks.  In the running
/// system each map sits behind its own mutual exclusion and is held
/// only for the map operation itself, never across transport I/O; these
/// operations are exactly those critical sections.
pub struct SSHManager {
    pub sessions: Registry<SSHSessionId, SSHSession>,
    pub local_port_forwardings: Registry<ForwardingKey, u64>,
    pub dynamic_port_forwardings: Registry<ForwardingKey, u64>,
    pub remote_port_forwardings: Registry<ForwardingKey, RemoteForwardingTarget>,
    pub next_token: u64,
}

impl SSHManager {
    /// Well-formed: registries have unique keys, each session record
    /// carries the id it is registered under, and every registered
    /// cancellation token was allocated below `next_token`.
    pub open spec fn wf(&self) -> bool {
        &&& self.sessions.wf()
        &&& self.local_port_forwardings.wf()
        &&& self.dynamic_port_forwardings.wf()
        &&& self.remote_port_forwardings.wf()
        &&& forall|id: u128|
            #[trigger] self.sessions@.contains_key(id) ==> self.sessions@[id].ssh_session_id@ == id
        &&& forall|k: (u128, Seq<char>, u16)|
            #[trigger] self.local_port_forwardings@.contains_key(k)
                ==> self.local_port_forwardings@[k] < self.next_token
        &&& forall|k: (u128, Seq<char>, u16)|
            #[trigger] self.dynamic_port_forwardings@.contains_key(k)
                ==> self.dynamic_port_forwardings@[k] < self.next_token
    }

    /// An engine with no sessions and no forwardings.
    pub fn init() -> (r: SSHManager)
        ensures
            r.wf(),
            r.sessions@ == Map::<u128, SSHSession>::empty(),
            r.local_port_forwardings@ == Map::<(u128, Seq<char>, u16), u64>::empty(),
            r.dynamic_port_forwardings@ == Map::<(u128, Seq<char>, u16), u64>::empty(),
            r.remote_port_forwardings@ == Map::<(u128, Seq<char>, u16), RemoteForwardingTarget>::empty(),
    {
        SSHManager {
            sessions: Registry::new(),
            local_port_forwardings: Registry::new(),
            dynamic_port_forwardings: Registry::new(),
            remote_port_forwardings: Registry::new(),
            next_token: 0,
        }
    }

    /// Whether a live (registered and not transport-closed) session
    /// exists for `id`.  A connect call for a live id is a no-op
    /// success.
    pub fn session_is_live(&self, id: &SSHSessionId) -> (r: bool)
        requires
            self.wf(),
        ensures
            r == (self.sessions@.contains_key(id@) && !self.sessions@[id@].closed),
    {
        match self.sessions.get(id) {
            Some(session) => !session.closed,
            None => false,
        }
    }

    /// Registers the freshly connected session under `id`, overwriting
    /// a stale record if one is present.
    pub fn register_session(&mut self, id: SSHSessionId)
        requires
            old(self).wf(),
        ensures
            final(self).wf(),
            final(self).sessions@ == old(self).sessions@.insert(
                id@,
                (SSHSession { ssh_session_id: id, shell_channel: None, closed: false }),
            ),
            final(self).local_port_forwardings@ == old(self).local_port_forwardings@,
            final(self).dynamic_port_forwardings@ == old(self).dynamic_port_forwardings@,
            final(self).remote_port_forwardings@ == old(self).remote_port_forwardings@,
            final(self).next_token == old(self).next_token,
    {
        let session = SSHSession::new(id);
        self.sessions.insert(id, session);
    }

    /// Removes the session for `id` from the registry and returns its
    /// record.  Forwarding registrations under the id are not cascaded.
    pub fn remove_session(&mut self, id: &SSHSessionId) -> (r: Option<SSHSession>)
        requires
            old(self).wf(),
        ensures
            final(self).wf(),
            final(self).sessions@ == old(self).sessions@.remove(id@),
            match r {
                Some(s) => old(self).sessions@.contains_key(id@) && s == old(self).sessions@[id@],
                None => !old(self).sessions@.contains_key(id@),
            },
            final(self).local_port_forwardings@ == old(self).local_port_forwardings@,
            final(self).dynamic_port_forwardings@ == old(self).dynamic_port_forwardings@,
            final(self).remote_port_forwardings@ == old(self).remote_port_forwardings@,
            final(self).next_token == old(self).next_token,
    {
        self.sessions.remove(id)
    }

    /// Records that the transport under session `id` has closed
    /// without the session having been removed yet.  A subsequent
    /// connect for the id is then no longer a no-op.
    pub fn mark_session_closed(&mut self, id: &SSHSessionId)
        requires
            old(self).wf(),
        ensures
            final(self).wf(),
            old(self).sessions@.contains_key(id@) ==> final(self).sessions@ == old(
                self,
            ).sessions@.insert(
                id@,
                (SSHSession {
                    ssh_session_id: old(self).sessions@[id@].ssh_session_id,
                    shell_channel: old(self).sessions@[id@].shell_channel,
                    closed: true,
                }),
            ),
            !old(self).sessions@.contains_key(id@) ==> final(self).sessions@ == old(self).sessions@,
            final(self).local_port_forwardings@ == old(self).local_port_forwardings@,
            final(self).dynamic_port_forwardings@ == old(self).dynamic_port_forwardings@,
            final(self).remote_port_forwardings@ == old(self).remote_port_forwardings@,
            final(self).next_token == old(self).next_token,
    {
        match self.sessions.remove(id) {
            Some(session) => {
                let updated = SSHSession {
                    ssh_session_id: session.ssh_session_id,
                    shell_channel: session.shell_channel,
                    closed: true,
                };
                self.sessions.insert(SSHSessionId { id: id.id }, updated);
                proof {
                    assert(self.sessions@ =~= old(self).sessions@.insert(
                        id@,
                        (SSHSession {
                            ssh_session_id: old(self).sessions@[id@].ssh_session_id,
                            shell_channel: old(self).sessions@[id@].shell_channel,
                            closed: true,
                        }),
                    ));
                }
            }
            None => (),
        }
    }

    /// Whether `channel` is the interactive shell channel of session
    /// `id`.
    pub fn is_shell_channel(&self, id: &SSHSessionId, channel: ChannelId) -> (r: bool)
        requires
            self.wf(),
        ensures
            r == (self.sessions@.contains_key(id@) && self.sessions@[id@].shell_channel
                == Some(channel)),
    {
        match self.sessions.get(id) {
            Some(session) => match session.shell_channel {
                Some(shell) => shell.id == channel.id,
                None => false,
            },
            None => false,
        }
    }

    /// Records `channel` as the shell channel of session `id` once the
    /// transport has opened it.
    pub fn register_shell(&mut self, id: &SSHSessionId, channel: ChannelId) -> (r: Result<
        (),
        SSHError,
    >)
        requires
            old(self).wf(),
        ensures
            final(self).wf(),
            old(self).sessions@.contains_key(id@) ==> r is Ok && final(self).sessions@ == old(
                self,
            ).sessions@.insert(
                id@,
                (SSHSession {
                    ssh_session_id: old(self).sessions@[id@].ssh_session_id,
                    shell_channel: Some(channel),
                    closed: old(self).sessions@[id@].closed,
                }),
            ),
            !old(self).sessions@.contains_key(id@) ==> r == Err::<(), SSHError>(
                SSHError::NotFoundSession,
            ) && final(self).sessions@ == old(self).sessions@,
            final(self).local_port_forwardings@ == old(self).local_port_forwardings@,
            final(self).dynamic_port_forwardings@ == old(self).dynamic_port_forwardings@,
            final(self).remote_port_forwardings@ == old(self).remote_port_forwardings@,
            final(self).next_token == old(self).next_token,
    {
        match self.sessions.remove(id) {
            Some(session) => {
                let updated = SSHSession {
                    ssh_session_id: session.ssh_session_id,
                    shell_channel: Some(channel),
                    closed: session.closed,
                };
                self.sessions.insert(SSHSessionId { id: id.id }, updated);
                proof {
                    assert(self.sessions@ =~= old(self).sessions@.insert(
                        id@,
                        (SSHSession {
                            ssh_session_id: old(self).sessions@[id@].ssh_session_id,
                            shell_channel: Some(channel),
                            closed: old(self).sessions@[id@].closed,
                        }),
                    ));
                }
                Ok(())
            }
            None => Err(SSHError::NotFoundSession),
        }
    }

    /// Decides how to open the interactive shell for session `id`.  A
    /// session that already has a shell channel makes the call a no-op
    /// success; an unknown session id is `NotFoundSession`; otherwise
    /// the returned setup names the channel requests to perform, after
    /// which the opened channel is recorded with `register_shell`.
    pub fn open_shell(&self, id: &SSHSessionId, size: Size) -> (r: Result<Option<ShellSetup>, SSHError>)
        requires
            self.wf(),
        ensures
            (self.sessions@.contains_key(id@) && self.sessions@[id@].shell_channel is Some) ==> r
                == Ok::<Option<ShellSetup>, SSHError>(None),
            !self.sessions@.contains_key(id@) ==> r == Err::<Option<ShellSetup>, SSHError>(
                SSHError::NotFoundSession,
            ),
            (self.sessions@.contains_key(id@) && self.sessions@[id@].shell_channel is None) ==> (r
                matches Ok(Some(setup)) && setup.env_name@ == "LANG"@ && setup.env_value@
                == "en_US.UTF-8"@ && setup.term@ == "xterm-256color"@ && setup.size == size),
    {
        match self.sessions.get(id) {
            Some(session) => {
                if session.shell_channel.is_some() {
                    Ok(None)
                } else {
                    Ok(Some(ShellSetup {
                        env_name: "LANG".to_owned(),
                        env_value: "en_US.UTF-8".to_owned(),
                        term: "xterm-256color".to_owned(),
                        size,
                    }))
                }
            }
            None => Err(SSHError::NotFoundSession),
        }
    }

    /// Opens a local forwarding: registers a fresh cancellation token
    /// under (session, bind address, bind port) and returns it.  An
    /// existing registration under the same key is overwritten and its
    /// token orphaned; the session itself is not consulted here — each
    /// accepted connection looks it up via `plan_local_relay`.
    pub fn open_local_forwarding(&mut self, id: SSHSessionId, local_address: String, local_port: u16) -> (token: u64)
        requires
            old(self).wf(),
            old(self).next_token < u64::MAX,
        ensures
            final(self).wf(),
            token == old(self).next_token,
            final(self).next_token == old(self).next_token + 1,
            final(self).local_port_forwardings@ == old(self).local_port_forwardings@.insert(
                (id@, local_address@, local_port),
                token,
            ),
            final(self).sessions@ == old(self).sessions@,
            final(self).dynamic_port_forwardings@ == old(self).dynamic_port_forwardings@,
            final(self).remote_port_forwardings@ == old(self).remote_port_forwardings@,
    {
        let token = self.next_token;
        let key = ForwardingKey { session_id: id, address: local_address, port: local_port };
        self.local_port_forwardings.insert(key, token);
        self.next_token = token + 1;
        token
    }

    /// Closes a local forwarding: removes the registration and returns
    /// its cancellation token so the owning accept loop can be
    /// signalled.  A key that is not registered yields
    /// `NotFoundPortForwarding`, not silent success.
    pub fn close_local_forwarding(&mut self, id: &SSHSessionId, local_address: &String, local_port: u16) -> (r: Result<u64, SSHError>)
        requires
            old(self).wf(),
        ensures
            final(self).wf(),
            old(self).local_port_forwardings@.contains_key((id@, local_address@, local_port))
                ==> r == Ok::<u64, SSHError>(
                old(self).local_port_forwardings@[(id@, local_address@, local_port)],
            ) && final(self).local_port_forwardings@ == old(self).local_port_forwardings@.remove(
                (id@, local_address@, local_port),
            ),
            !old(self).local_port_forwardings@.contains_key((id@, local_address@, local_port))
                ==> r == Err::<u64, SSHError>(SSHError::NotFoundPortForwarding)
                && final(self).local_port_forwardings@ == old(self).local_port_forwardings@,
            final(self).sessions@ == old(self).sessions@,
            final(self).dynamic_port_forwardings@ == old(self).dynamic_port_forwardings@,
            final(self).remote_port_forwardings@ == old(self).remote_port_forwardings@,
            final(self).next_token == old(self).next_token,
    {
        let key = ForwardingKey {
            session_id: SSHSessionId { id: id.id },
            address: local_address.clone(),
            port: local_port,
        };
        match self.local_port_forwardings.remove(&key) {
            Some(token) => Ok(token),
            None => Err(SSHError::NotFoundPortForwarding),
        }
    }

    /// Opens a dynamic forwarding listener registration; the same
    /// cancellation-token pattern as `open_local_forwarding`.
    pub fn open_dynamic_forwarding(&mut self, id: SSHSessionId, local_address: String, local_port: u16) -> (token: u64)
        requires
            old(self).wf(),
            old(self).next_token < u64::MAX,
        ensures
            final(self).wf(),
            token == old(self).next_token,
            final(self).next_token == old(self).next_token + 1,
            final(self).dynamic_port_forwardings@ == old(self).dynamic_port_forwardings@.insert(
                (id@, local_address@, local_port),
                token,
            ),
            final(self).sessions@ == old(self).sessions@,
            final(self).local_port_forwardings@ == old(self).local_port_forwardings@,
            final(self).remote_port_forwardings@ == old(self).remote_port_forwardings@,
    {
        let token = self.next_token;
        let key = ForwardingKey { session_id: id, address: local_address, port: local_port };
        self.dynamic_port_forwardings.insert(key, token);
        self.next_token = token + 1;
        token
    }

    /// Closes a dynamic forwarding; the counterpart of
    /// `close_local_forwarding` in the dynamic key space.
    pub fn close_dynamic_forwarding(&mut self, id: &SSHSessionId, local_address: &String, local_port: u16) -> (r: Result<u64, SSHError>)
        requires
            old(self).wf(),
        ensures
            final(self).wf(),
            old(self).dynamic_port_forwardings@.contains_key((id@, local_address@, local_port))
                ==> r == Ok::<u64, SSHError>(
                old(self).dynamic_port_forwardings@[(id@, local_address@, local_port)],
            ) && final(self).dynamic_port_forwardings@ == old(
                self,
            ).dynamic_port_forwardings@.remove((id@, local_address@, local_port)),
            !old(self).dynamic_port_forwardings@.contains_key((id@, local_address@, local_port))
                ==> r == Err::<u64, SSHError>(SSHError::NotFoundPortForwarding)
                && final(self).dynamic_port_forwardings@ == old(self).dynamic_port_forwardings@,
            final(self).sessions@ == old(self).sessions@,
            final(self).local_port_forwardings@ == old(self).local_port_forwardings@,
            final(self).remote_port_forwardings@ == old(self).remote_port_forwardings@,
            final(self).next_token == old(self).next_token,
    {
        let key = ForwardingKey {
            session_id: SSHSessionId { id: id.id },
            address: local_address.clone(),
            port: local_port,
        };
        match self.dynamic_port_forwardings.remove(&key) {
            Some(token) => Ok(token),
            None => Err(SSHError::NotFoundPortForwarding),
        }
    }

    /// The channel request for one connection accepted by a local
    /// forwarding listener: a direct-tcpip tunnel to the configured
    /// remote target, tagged with the accepted peer as originator.
    /// Fails with `NotFoundSession` if the owning session is gone; such
    /// a failure is isolated to this connection.
    pub fn plan_local_relay(
        &self,
        id: &SSHSessionId,
        remote_address: &String,
        remote_port: u16,
        peer_address: String,
        peer_port: u16,
    ) -> (r: Result<DirectTcpIp, SSHError>)
        requires
            self.wf(),
        ensures
            self.sessions@.contains_key(id@) ==> (r matches Ok(d) && d.host@ == remote_address@
                && d.port == remote_port && d.originator_address@ == peer_address@
                && d.originator_port == peer_port),
            !self.sessions@.contains_key(id@) ==> r == Err::<DirectTcpIp, SSHError>(
                SSHError::NotFoundSession,
            ),
    {
        if self.sessions.contains(id) {
            Ok(DirectTcpIp {
                host: remote_address.clone(),
                port: remote_port,
                originator_address: peer_address,
                originator_port: peer_port,
            })
        } else {
            Err(SSHError::NotFoundSession)
        }
    }

    /// Opens a remote forwarding: records the target mapping, then —
    /// only if the session exists — hands back the forward-request to
    /// issue to the server.  As in the running system, the mapping is
    /// recorded even when the session lookup then fails.
    pub fn open_remote_forwarding(
        &mut self,
        id: SSHSessionId,
        remote_address: String,
        remote_port: u16,
        local_address: String,
        local_port: u16,
    ) -> (r: Result<TcpIpForward, SSHError>)
        requires
            old(self).wf(),
        ensures
            final(self).wf(),
            final(self).remote_port_forwardings@ == old(self).remote_port_forwardings@.insert(
                (id@, remote_address@, remote_port),
                (RemoteForwardingTarget { address: local_address, port: local_port }),
            ),
            old(self).sessions@.contains_key(id@) ==> (r matches Ok(f) && f.address@
                == remote_address@ && f.port == remote_port),
            !old(self).sessions@.contains_key(id@) ==> r == Err::<TcpIpForward, SSHError>(
                SSHError::NotFoundSession,
            ),
            final(self).sessions@ == old(self).sessions@,
            final(self).local_port_forwardings@ == old(self).local_port_forwardings@,
            final(self).dynamic_port_forwardings@ == old(self).dynamic_port_forwardings@,
            final(self).next_token == old(self).next_token,
    {
        let target = RemoteForwardingTarget { address: local_address, port: local_port };
        let key = ForwardingKey {
            session_id: id,
            address: remote_address.clone(),
            port: remote_port,
        };
        self.remote_port_forwardings.insert(key, target);
        if self.sessions.contains(&id) {
            Ok(TcpIpForward { address: remote_address, port: remote_port })
        } else {
            Err(SSHError::NotFoundSession)
        }
    }

    /// First half of closing a remote forwarding: checks the session
    /// and the registration and hands back the cancel-forward request
    /// to send to the server.  The mapping itself is removed by
    /// `finish_close_remote_forwarding` only after the cancel request
    /// has been issued, to narrow the race against in-flight
    /// server-initiated opens.
    pub fn begin_close_remote_forwarding(&self, id: &SSHSessionId, remote_address: &String, remote_port: u16) -> (r: Result<TcpIpForward, SSHError>)
        requires
            self.wf(),
        ensures
            !self.sessions@.contains_key(id@) ==> r == Err::<TcpIpForward, SSHError>(
                SSHError::NotFoundSession,
            ),
            self.sessions@.contains_key(id@) && !self.remote_port_forwardings@.contains_key(
                (id@, remote_address@, remote_port),
            ) ==> r == Err::<TcpIpForward, SSHError>(SSHError::NotFoundPortForwarding),
            self.sessions@.contains_key(id@) && self.remote_port_forwardings@.contains_key(
                (id@, remote_address@, remote_port),
            ) ==> (r matches Ok(f) && f.address@ == remote_address@ && f.port == remote_port),
    {
        if !self.sessions.contains(id) {
            return Err(SSHError::NotFoundSession);
        }
        let key = ForwardingKey {
            session_id: SSHSessionId { id: id.id },
            address: remote_address.clone(),
            port: remote_port,
        };
        if !self.remote_port_forwardings.contains(&key) {
            return Err(SSHError::NotFoundPortForwarding);
        }
        Ok(TcpIpForward { address: remote_address.clone(), port: remote_port })
    }

    /// Second half of closing a remote forwarding: removes the target
    /// mapping once the cancel request has been sent.
    pub fn finish_close_remote_forwarding(&mut self, id: &SSHSessionId, remote_address: &String, remote_port: u16)
        requires
            old(self).wf(),
        ensures
            final(self).wf(),
            final(self).remote_port_forwardings@ == old(self).remote_port_forwardings@.remove(
                (id@, remote_address@, remote_port),
            ),
            final(self).sessions@ == old(self).sessions@,
            final(self).local_port_forwardings@ == old(self).local_port_forwardings@,
            final(self).dynamic_port_forwardings@ == old(self).dynamic_port_forwardings@,
            final(self).next_token == old(self).next_token,
    {
        let key = ForwardingKey {
            session_id: SSHSessionId { id: id.id },
            address: remote_address.clone(),
            port: remote_port,
        };
        self.remote_port_forwardings.remove(&key);
    }

    /// Looks up where a server-initiated "forwarded-tcpip" channel open
    /// for (connected address, connected port) should be bridged.
    pub fn lookup_remote_forwarding(&self, id: &SSHSessionId, connected_address: &String, connected_port: u16) -> (r: Result<RemoteForwardingTarget, SSHError>)
        requires
            self.wf(),
        ensures
            self.remote_port_forwardings@.contains_key((id@, connected_address@, connected_port))
                ==> (r matches Ok(t) && t.address@ == self.remote_port_forwardings@[
                (id@, connected_address@, connected_port)
            ].address@ && t.port == self.remote_port_forwardings@[
                (id@, connected_address@, connected_port)
            ].port),
            !self.remote_port_forwardings@.contains_key((id@, connected_address@, connected_port))
                ==> r == Err::<RemoteForwardingTarget, SSHError>(SSHError::NotFoundPortForwarding),
    {
        let key = ForwardingKey {
            session_id: SSHSessionId { id: id.id },
            address: connected_address.clone(),
            port: connected_port,
        };
        match self.remote_port_forwardings.get(&key) {
            Some(target) => Ok(RemoteForwardingTarget {
                address: target.address.clone(),
                port: target.port,
            }),
            None => Err(SSHError::NotFoundPortForwarding),
        }
    }
}

/// Two sequential opens on the same local-forwarding key overwrite the
/// registration: a later close reaches only the second token, and the
/// first token is orphaned — it is registered under no key at all, so
/// no close call on any key can return it and signal the first accept
/// loop.
pub proof fn lemma_reopen_orphans_previous_token(
    m0: SSHManager,
    m1: SSHManager,
    m2: SSHManager,
    key: (u128, Seq<char>, u16),
    t1: u64,
    t2: u64,
)
    requires
        m0.wf(),
        t1 == m0.next_token,
        m1.next_token == m0.next_token + 1,
        m1.local_port_forwardings@ == m0.local_port_forwardings@.insert(key, t1),
        t2 == m1.next_token,
        m2.next_token == m1.next_token + 1,
        m2.local_port_forwardings@ == m1.local_port_forwardings@.insert(key, t2),
    ensures
        m2.local_port_forwardings@[key] == t2,
        t1 != t2,
        forall|k: (u128, Seq<char>, u16)|
            #[trigger] m2.local_port_forwardings@.contains_key(k)
                ==> m2.local_port_forwardings@[k] != t1,
{
    assert forall|k: (u128, Seq<char>, u16)|
        #[trigger] m2.local_port_forwardings@.contains_key(k) implies m2.local_port_forwardings@[k]
        != t1 by {
        if k == key {
            assert(m2.local_port_forwardings@[k] == t2);
        } else {
            assert(m2.local_port_forwardings@[k] == m0.local_port_forwardings@[k]);
            assert(m0.local_port_forwardings@.contains_key(k));
        }
    }
}

} // verus!
