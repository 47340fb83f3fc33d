//! Session identity and the per-session record.

use vstd::prelude::*;

verus! {

/// Caller-supplied opaque unique session identifier.  Callers hand in a
/// UUID-shaped value; the engine only compares identifiers, so it holds
/// the 128 raw bits.
#[derive(Clone, Copy, Debug, PartialEq, Eq, Structural, Hash)]
pub struct SSHSessionId {
    pub id: u128,
}

impl View for SSHSessionId {
    type V = u128;

    open spec fn view(&self) -> u128 {
        self.id
    }
}

impl SSHSessionId {
    pub fn new(id: u128) -> (r: SSHSessionId)
        ensures
            r@ == id,
    {
        SSHSessionId { id }
    }
}

impl From<u128> for SSHSessionId {
    fn from(value: u128) -> (r: SSHSessionId) {
        SSHSessionId { id: value }
    }
}

impl vstd::std_specs::convert::FromSpecImpl<u128> for SSHSessionId {
    open spec fn obeys_from_spec() -> bool {
        true
    }

    open spec fn from_spec(value: u128) -> SSHSessionId {
        SSHSessionId { id: value }
    }
}

/// Transport-scoped identifier correlating inbound data, EOF and close
/// events to a logical owner.
#[derive(Clone, Copy, Debug, PartialEq, Eq, Structural, Hash)]
pub struct ChannelId {
    pub id: u32,
}

impl View for ChannelId {
    type V = u32;

    open spec fn view(&self) -> u32 {
        self.id
    }
}

impl ChannelId {
    pub fn new(id: u32) -> (r: ChannelId)
        ensures
            r@ == id,
    {
        ChannelId { id }
    }
}

/// Terminal dimensions for the interactive shell.
#[derive(Clone, Copy, Debug, PartialEq, Eq, Structural)]
pub struct Size {
    pub col: u32,
    pub row: u32,
    pub width: u32,
    pub height: u32,
}

/// Why a session ended: the server sent a disconnect, or the transport
/// failed with the carried detail.
#[derive(Debug, Clone, PartialEq, Eq)]
pub enum DisconnectReason {
    Server,
    Error(String),
}

/// Structured lifecycle message pushed to the session's consumer.
#[derive(Debug, Clone, PartialEq, Eq)]
pub enum SessionIpcChannelData {
    Disconnect(DisconnectReason),
}

/// Lifecycle message of the queue-based consumer surface; carries the
/// same payload as `SessionIpcChannelData`.
#[derive(Debug, Clone, PartialEq, Eq)]
pub enum MessageChannelData {
    Disconnect(DisconnectReason),
}

/// One authenticated multiplexed connection, as the registry tracks it:
/// its identifier, at most one interactive shell channel, and whether
/// the transport has reported it closed.
#[derive(Debug, Clone, PartialEq, Eq)]
pub struct SSHSession {
    pub ssh_session_id: SSHSessionId,
    pub shell_channel: Option<ChannelId>,
    pub closed: bool,
}

impl SSHSession {
    /// A freshly connected session: no shell yet, transport open.
    pub fn new(ssh_session_id: SSHSessionId) -> (r: SSHSession)
        ensures
            r.ssh_session_id@ == ssh_session_id@,
            r.shell_channel is None,
            !r.closed,
    {
        SSHSession { ssh_session_id, shell_channel: None, closed: false }
    }
}

} // verus!
