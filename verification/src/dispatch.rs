//! The event/data relay core: one sequential dispatcher consumes
//! (session id, event) pairs and routes each to its logical consumer.
//! Strictly in-order processing of this single queue is what keeps a
//! session's shell byte stream unreordered.

use vstd::prelude::*;

use crate::errors::SSHError;
use crate::manager::{RemoteForwardingTarget, SSHManager};
use crate::session::{ChannelId, DisconnectReason, SSHSessionId, SessionIpcChannelData, Size};

verus! {

use vstd::string::StringSliceAdditionalSpecFns;

/// One queued transport event for a session.
#[derive(Debug, Clone, PartialEq, Eq)]
pub enum UnboundedChannelMessage {
    /// The transport ended, by the server or with an error.
    Disconnect(DisconnectReason),
    /// Inbound bytes arrived on a channel.
    Receive(ChannelId, Vec<u8>),
    /// The caller wants these bytes written to the shell.
    Send(Vec<u8>),
    /// A channel signalled end of stream.
    ChannelEof(ChannelId),
    /// A channel closed.
    ChannelClose(ChannelId),
    /// The caller resized the terminal.
    Resize(Size),
    /// The server opened a forwarded-tcpip channel for (address, port)
    /// and its bridge target must be looked up.
    RemoteForwardLookup(String, u16),
}

/// What the dispatcher asks its surroundings to perform for one event.
#[derive(Debug, Clone, PartialEq, Eq)]
pub enum DispatchAction {
    /// Push shell output bytes to the session's raw-bytes consumer.
    EmitShellOutput(Vec<u8>),
    /// Push a lifecycle message to the session's structured consumer.
    NotifyLifecycle(SessionIpcChannelData),
    /// Write bytes to the session's shell channel.
    WriteShell(ChannelId, Vec<u8>),
    /// Send a window-change request on the shell channel.
    ResizeShell(ChannelId, Size),
    /// Bridge the server-opened channel to this dialed target.
    BridgeForwarded(RemoteForwardingTarget),
}

/// Whether `channel` is the shell channel of `id` in this state.
pub open spec fn spec_is_shell(m: SSHManager, id: u128, channel: ChannelId) -> bool {
    m.sessions@.contains_key(id) && m.sessions@[id].shell_channel == Some(channel)
}

/// Whether `id` has a session with an open shell channel.
pub open spec fn spec_has_shell(m: SSHManager, id: u128) -> bool {
    m.sessions@.contains_key(id) && m.sessions@[id].shell_channel is Some
}

impl SSHManager {
    /// Routes one event.  Channel-scoped events are matched against
    /// the session's shell channel by identifier equality; events for
    /// other channels belong to forwarding relays and yield no action
    /// here.  A terminal disconnect removes the session and notifies
    /// its lifecycle consumer exactly once: a second disconnect for the
    /// same id finds no session and notifies nobody.
    pub fn dispatch(&mut self, id: &SSHSessionId, message: UnboundedChannelMessage) -> (r: Result<
        Option<DispatchAction>,
        SSHError,
    >)
        requires
            old(self).wf(),
        ensures
            final(self).wf(),
            final(self).local_port_forwardings@ == old(self).local_port_forwardings@,
            final(self).dynamic_port_forwardings@ == old(self).dynamic_port_forwardings@,
            final(self).remote_port_forwardings@ == old(self).remote_port_forwardings@,
            final(self).next_token == old(self).next_token,
            !(message is Disconnect) ==> final(self).sessions@ == old(self).sessions@,
            message matches UnboundedChannelMessage::Disconnect(reason) ==> {
                &&& final(self).sessions@ == old(self).sessions@.remove(id@)
                &&& old(self).sessions@.contains_key(id@) ==> r == Ok::<
                    Option<DispatchAction>,
                    SSHError,
                >(Some(DispatchAction::NotifyLifecycle(SessionIpcChannelData::Disconnect(reason))))
                &&& !old(self).sessions@.contains_key(id@) ==> r == Ok::<
                    Option<DispatchAction>,
                    SSHError,
                >(None)
            },
            message matches UnboundedChannelMessage::Receive(channel, data) ==> {
                &&& spec_is_shell(*old(self), id@, channel) ==> r == Ok::<
                    Option<DispatchAction>,
                    SSHError,
                >(Some(DispatchAction::EmitShellOutput(data)))
                &&& !spec_is_shell(*old(self), id@, channel) ==> r == Ok::<
                    Option<DispatchAction>,
                    SSHError,
                >(None)
            },
            message matches UnboundedChannelMessage::Send(data) ==> {
                &&& spec_has_shell(*old(self), id@) ==> r == Ok::<Option<DispatchAction>, SSHError>(
                    Some(
                        DispatchAction::WriteShell(
                            old(self).sessions@[id@].shell_channel->Some_0,
                            data,
                        ),
                    ),
                )
                &&& !spec_has_shell(*old(self), id@) ==> r == Ok::<
                    Option<DispatchAction>,
                    SSHError,
                >(None)
            },
            message matches UnboundedChannelMessage::Resize(size) ==> {
                &&& spec_has_shell(*old(self), id@) ==> r == Ok::<Option<DispatchAction>, SSHError>(
                    Some(
                        DispatchAction::ResizeShell(
                            old(self).sessions@[id@].shell_channel->Some_0,
                            size,
                        ),
                    ),
                )
                &&& !spec_has_shell(*old(self), id@) ==> r == Ok::<
                    Option<DispatchAction>,
                    SSHError,
                >(None)
            },
            message matches UnboundedChannelMessage::ChannelEof(channel) ==> {
                &&& spec_is_shell(*old(self), id@, channel) ==> r == Ok::<
                    Option<DispatchAction>,
                    SSHError,
                >(
                    Some(
                        DispatchAction::NotifyLifecycle(
                            SessionIpcChannelData::Disconnect(DisconnectReason::Server),
                        ),
                    ),
                )
                &&& !spec_is_shell(*old(self), id@, channel) ==> r == Ok::<
                    Option<DispatchAction>,
                    SSHError,
                >(None)
            },
            message matches UnboundedChannelMessage::ChannelClose(channel) ==> {
                &&& spec_is_shell(*old(self), id@, channel) ==> r == Ok::<
                    Option<DispatchAction>,
                    SSHError,
                >(
                    Some(
                        DispatchAction::NotifyLifecycle(
                            SessionIpcChannelData::Disconnect(DisconnectReason::Server),
                        ),
                    ),
                )
                &&& !spec_is_shell(*old(self), id@, channel) ==> r == Ok::<
                    Option<DispatchAction>,
                    SSHError,
                >(None)
            },
            message matches UnboundedChannelMessage::RemoteForwardLookup(address, port) ==> {
                &&& old(self).remote_port_forwardings@.contains_key((id@, address@, port)) ==> (r
                    matches Ok(Some(DispatchAction::BridgeForwarded(target)))
                    && target.address@ == old(self).remote_port_forwardings@[
                    (id@, address@, port)
                ].address@ && target.port == old(self).remote_port_forwardings@[
                    (id@, address@, port)
                ].port)
                &&& !old(self).remote_port_forwardings@.contains_key((id@, address@, port)) ==> r
                    == Err::<Option<DispatchAction>, SSHError>(SSHError::NotFoundPortForwarding)
            },
    {
        match message {
            UnboundedChannelMessage::Disconnect(reason) => {
                match self.remove_session(id) {
                    Some(_) => Ok(
                        Some(
                            DispatchAction::NotifyLifecycle(
                                SessionIpcChannelData::Disconnect(reason),
                            ),
                        ),
                    ),
                    None => Ok(None),
                }
            }
            UnboundedChannelMessage::Receive(channel, data) => {
                if self.is_shell_channel(id, channel) {
                    Ok(Some(DispatchAction::EmitShellOutput(data)))
                } else {
                    Ok(None)
                }
            }
            UnboundedChannelMessage::Send(data) => {
                match self.sessions.get(id) {
                    Some(session) => match session.shell_channel {
                        Some(shell) => Ok(Some(DispatchAction::WriteShell(shell, data))),
                        None => Ok(None),
                    },
                    None => Ok(None),
                }
            }
            UnboundedChannelMessage::Resize(size) => {
                match self.sessions.get(id) {
                    Some(session) => match session.shell_channel {
                        Some(shell) => Ok(Some(DispatchAction::ResizeShell(shell, size))),
                        None => Ok(None),
                    },
                    None => Ok(None),
                }
            }
            UnboundedChannelMessage::ChannelEof(channel) => {
                if self.is_shell_channel(id, channel) {
                    Ok(
                        Some(
                            DispatchAction::NotifyLifecycle(
                                SessionIpcChannelData::Disconnect(DisconnectReason::Server),
                            ),
                        ),
                    )
                } else {
                    Ok(None)
                }
            }
            UnboundedChannelMessage::ChannelClose(channel) => {
                if self.is_shell_channel(id, channel) {
                    Ok(
                        Some(
                            DispatchAction::NotifyLifecycle(
                                SessionIpcChannelData::Disconnect(DisconnectReason::Server),
                            ),
                        ),
                    )
                } else {
                    Ok(None)
                }
            }
            UnboundedChannelMessage::RemoteForwardLookup(address, port) => {
                match self.lookup_remote_forwarding(id, &address, port) {
                    Ok(target) => Ok(Some(DispatchAction::BridgeForwarded(target))),
                    Err(e) => Err(e),
                }
            }
        }
    }
}

/// The caller's keyboard input as it is written to the shell channel:
/// the text's UTF-8 bytes, unchanged.
pub fn shell_input_bytes(data: &str) -> (r: Vec<u8>)
    ensures
        r@ == data.spec_bytes(),
{
    vstd::slice::slice_to_vec(data.as_bytes())
}

} // verus!
