//! Connection planning: how a session for a given id is established —
//! directly, through a single proxy hop, or through an ordered proxy
//! chain — and how connect failures are classified.

use vstd::prelude::*;

use crate::errors::{ConnectionContext, SSHError};
use crate::manager::{DirectTcpIp, SSHManager};
use crate::session::SSHSessionId;

verus! {

/// What to do when the server's host key is not yet trusted: proceed
/// this once, or persist the key and proceed.
#[derive(Debug, Clone, Copy, PartialEq, Eq, Structural)]
pub enum SSHSessionCheckServerKey {
    Continue,
    AddAndContinue,
}

/// One proxy hop: an already-connected session and the address it was
/// connected to.
#[derive(Debug, Clone)]
pub struct ProxyJumpConfig {
    pub session_id: SSHSessionId,
    pub hostname: String,
    pub port: u16,
}

/// An ordered proxy chain; only the last named hop carries the tunnel
/// (earlier entries are accepted as input but not used).
#[derive(Debug, Clone)]
pub struct ProxyJumpChainConfig {
    pub chain: Vec<ProxyJumpConfig>,
}

/// Fixed transport configuration of every session.
#[derive(Debug, Clone, PartialEq, Eq)]
pub struct TransportSettings {
    pub inactivity_timeout_secs: u64,
    pub keepalive_interval_secs: u64,
    pub window_size: u32,
    pub maximum_packet_size: u32,
    pub channel_buffer_size: u32,
    pub nodelay: bool,
}

/// The transport is configured with a 30-minute inactivity timeout and
/// 5-second keepalive probing; exceeding inactivity ends the session.
pub fn transport_settings() -> (r: TransportSettings)
    ensures
        r.inactivity_timeout_secs == 1800,
        r.keepalive_interval_secs == 5,
        r.window_size == 0x2000000,
        r.maximum_packet_size == 65536,
        r.channel_buffer_size == 1048576,
        r.nodelay,
{
    TransportSettings {
        inactivity_timeout_secs: 1800,
        keepalive_interval_secs: 5,
        window_size: 0x2000000,
        maximum_packet_size: 65536,
        channel_buffer_size: 1048576,
        nodelay: true,
    }
}

/// How the transport stream for a new session is to be produced.
#[derive(Debug, Clone, PartialEq, Eq)]
pub enum ConnectRoute {
    /// Dial `hostname:port` over a fresh stream.
    Direct { hostname: String, port: u16 },
    /// Open a direct-tcpip channel on the session of the terminal hop
    /// toward the ultimate destination and layer the transport on that
    /// channel's byte stream.
    Tunnel { hop: SSHSessionId, open: DirectTcpIp },
}

impl SSHManager {
    /// Decides how to establish a session for `id`, per the connect
    /// operation's rules:
    ///
    /// - a live session for `id` makes the call a no-op success;
    /// - an ordered chain routes through the **last** named hop only,
    ///   an empty chain is a connect failure, and a chain or proxy
    ///   whose hop session is unknown is `NotFoundSession`;
    /// - otherwise the destination is dialed directly.
    pub fn plan_connect(
        &self,
        id: &SSHSessionId,
        hostname: String,
        port: u16,
        proxy_jump: Option<&ProxyJumpConfig>,
        proxy_jump_chain: Option<&ProxyJumpChainConfig>,
    ) -> (r: Result<Option<ConnectRoute>, SSHError>)
        requires
            self.wf(),
        ensures
            (self.sessions@.contains_key(id@) && !self.sessions@[id@].closed) ==> r == Ok::<
                Option<ConnectRoute>,
                SSHError,
            >(None),
            !(self.sessions@.contains_key(id@) && !self.sessions@[id@].closed) ==> match proxy_jump_chain {
                Some(chain) => {
                    &&& chain.chain@.len() == 0 ==> r == Err::<Option<ConnectRoute>, SSHError>(
                        SSHError::ConnectionFailed {
                            address: hostname,
                            port,
                            context: ConnectionContext::ProxyChain,
                        },
                    )
                    &&& (chain.chain@.len() > 0 && !self.sessions@.contains_key(
                        chain.chain@.last().session_id@,
                    )) ==> r == Err::<Option<ConnectRoute>, SSHError>(SSHError::NotFoundSession)
                    &&& (chain.chain@.len() > 0 && self.sessions@.contains_key(
                        chain.chain@.last().session_id@,
                    )) ==> (r matches Ok(Some(ConnectRoute::Tunnel { hop, open }))
                        && hop@ == chain.chain@.last().session_id@
                        && open.host@ == hostname@ && open.port == port
                        && open.originator_address@ == "127.0.0.1"@ && open.originator_port == 0)
                },
                None => match proxy_jump {
                    Some(hop_config) => {
                        &&& !self.sessions@.contains_key(hop_config.session_id@) ==> r == Err::<
                            Option<ConnectRoute>,
                            SSHError,
                        >(SSHError::NotFoundSession)
                        &&& self.sessions@.contains_key(hop_config.session_id@) ==> (r matches Ok(
                            Some(ConnectRoute::Tunnel { hop, open }),
                        ) && hop@ == hop_config.session_id@ && open.host@ == hostname@
                            && open.port == port && open.originator_address@ == "127.0.0.1"@
                            && open.originator_port == 0)
                    },
                    None => r matches Ok(Some(ConnectRoute::Direct { hostname: h, port: p }))
                        && h@ == hostname@ && p == port,
                },
            },
    {
        if self.session_is_live(id) {
            return Ok(None);
        }
        match proxy_jump_chain {
            Some(chain_config) => {
                if chain_config.chain.len() == 0 {
                    return Err(SSHError::ConnectionFailed {
                        address: hostname,
                        port,
                        context: ConnectionContext::ProxyChain,
                    });
                }
                let last = &chain_config.chain[chain_config.chain.len() - 1];
                if !self.sessions.contains(&last.session_id) {
                    return Err(SSHError::NotFoundSession);
                }
                Ok(Some(ConnectRoute::Tunnel {
                    hop: last.session_id,
                    open: DirectTcpIp {
                        host: hostname,
                        port,
                        originator_address: "127.0.0.1".to_owned(),
                        originator_port: 0,
                    },
                }))
            }
            None => match proxy_jump {
                Some(hop_config) => {
                    if !self.sessions.contains(&hop_config.session_id) {
                        return Err(SSHError::NotFoundSession);
                    }
                    Ok(Some(ConnectRoute::Tunnel {
                        hop: hop_config.session_id,
                        open: DirectTcpIp {
                            host: hostname,
                            port,
                            originator_address: "127.0.0.1".to_owned(),
                            originator_port: 0,
                        },
                    }))
                }
                None => Ok(Some(ConnectRoute::Direct { hostname, port })),
            },
        }
    }
}

/// Classifies a failed transport dial or handshake.  A transport-level
/// disconnect while connecting is reported as `ConnectionFailed` with
/// the dialed address and the route's context; any other transport
/// fault surfaces as `TransportError`.
pub fn map_connect_failure(disconnected: bool, hostname: String, port: u16, context: ConnectionContext) -> (r: SSHError)
    ensures
        disconnected ==> r == (SSHError::ConnectionFailed { address: hostname, port, context }),
        !disconnected ==> r == SSHError::TransportError,
{
    if disconnected {
        SSHError::ConnectionFailed { address: hostname, port, context }
    } else {
        SSHError::TransportError
    }
}

} // verus!
