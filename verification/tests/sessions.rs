//! Session lifecycle and connection planning.

use ssh_core::connect::{
    map_connect_failure, transport_settings, ConnectRoute, ProxyJumpChainConfig, ProxyJumpConfig,
};
use ssh_core::errors::{ConnectionContext, SSHError};
use ssh_core::manager::SSHManager;
use ssh_core::session::{ChannelId, SSHSessionId, Size};

fn sid(n: u128) -> SSHSessionId {
    SSHSessionId::new(n)
}

fn size() -> Size {
    Size { col: 80, row: 24, width: 640, height: 480 }
}

#[test]
fn reconnecting_a_live_session_is_a_no_op_success() {
    let mut m = SSHManager::init();
    let id = sid(1);
    m.register_session(id);
    let r = m.plan_connect(&id, "example.com".to_string(), 22, None, None).unwrap();
    assert_eq!(r, None);
}

#[test]
fn reconnecting_a_closed_session_establishes_anew() {
    // A session whose transport closed without removal is not live:
    // the connect call plans a fresh establishment instead of the
    // no-op.
    let mut m = SSHManager::init();
    let id = sid(1);
    m.register_session(id);
    m.mark_session_closed(&id);
    let r = m.plan_connect(&id, "example.com".to_string(), 22, None, None).unwrap();
    assert_eq!(r, Some(ConnectRoute::Direct { hostname: "example.com".to_string(), port: 22 }));
}

#[test]
fn direct_connect_dials_the_destination() {
    let m = SSHManager::init();
    let r = m.plan_connect(&sid(1), "example.com".to_string(), 22, None, None).unwrap();
    assert_eq!(r, Some(ConnectRoute::Direct { hostname: "example.com".to_string(), port: 22 }));
}

#[test]
fn two_hop_chain_tunnels_only_through_last_hop() {
    // Connecting through an ordered two-hop chain opens the
    // destination channel against the last-named hop's session —
    // never the first.
    let mut m = SSHManager::init();
    let first_hop = sid(10);
    let last_hop = sid(20);
    m.register_session(first_hop);
    m.register_session(last_hop);

    let chain = ProxyJumpChainConfig {
        chain: vec![
            ProxyJumpConfig { session_id: first_hop, hostname: "hop1".to_string(), port: 22 },
            ProxyJumpConfig { session_id: last_hop, hostname: "hop2".to_string(), port: 22 },
        ],
    };
    let r = m
        .plan_connect(&sid(30), "target.internal".to_string(), 22, None, Some(&chain))
        .unwrap();
    match r {
        Some(ConnectRoute::Tunnel { hop, open }) => {
            assert_eq!(hop, last_hop);
            assert_ne!(hop, first_hop);
            assert_eq!(open.host, "target.internal".to_string());
            assert_eq!(open.port, 22);
            assert_eq!(open.originator_address, "127.0.0.1".to_string());
            assert_eq!(open.originator_port, 0);
        }
        other => panic!("unexpected route {:?}", other),
    }
}

#[test]
fn empty_chain_is_a_connect_failure_with_chain_context() {
    let m = SSHManager::init();
    let chain = ProxyJumpChainConfig { chain: vec![] };
    let r = m.plan_connect(&sid(1), "target".to_string(), 22, None, Some(&chain));
    assert_eq!(
        r,
        Err(SSHError::ConnectionFailed {
            address: "target".to_string(),
            port: 22,
            context: ConnectionContext::ProxyChain,
        })
    );
}

#[test]
fn chain_with_unknown_hop_session_is_not_found() {
    let m = SSHManager::init();
    let chain = ProxyJumpChainConfig {
        chain: vec![ProxyJumpConfig { session_id: sid(99), hostname: "hop".to_string(), port: 22 }],
    };
    let r = m.plan_connect(&sid(1), "target".to_string(), 22, None, Some(&chain));
    assert_eq!(r, Err(SSHError::NotFoundSession));
}

#[test]
fn single_proxy_hop_tunnels_through_it() {
    let mut m = SSHManager::init();
    let hop = sid(5);
    m.register_session(hop);
    let jump = ProxyJumpConfig { session_id: hop, hostname: "bastion".to_string(), port: 22 };
    let r = m.plan_connect(&sid(6), "inner".to_string(), 2222, Some(&jump), None).unwrap();
    match r {
        Some(ConnectRoute::Tunnel { hop: h, open }) => {
            assert_eq!(h, hop);
            assert_eq!(open.host, "inner".to_string());
            assert_eq!(open.port, 2222);
        }
        other => panic!("unexpected route {:?}", other),
    }
}

#[test]
fn proxy_hop_without_session_is_not_found() {
    let m = SSHManager::init();
    let jump = ProxyJumpConfig { session_id: sid(5), hostname: "bastion".to_string(), port: 22 };
    let r = m.plan_connect(&sid(6), "inner".to_string(), 2222, Some(&jump), None);
    assert_eq!(r, Err(SSHError::NotFoundSession));
}

#[test]
fn connect_failure_classification() {
    assert_eq!(
        map_connect_failure(true, "h".to_string(), 22, ConnectionContext::Direct),
        SSHError::ConnectionFailed {
            address: "h".to_string(),
            port: 22,
            context: ConnectionContext::Direct,
        }
    );
    assert_eq!(
        map_connect_failure(false, "h".to_string(), 22, ConnectionContext::Proxy),
        SSHError::TransportError
    );
}

#[test]
fn transport_uses_inactivity_timeout_and_keepalive() {
    let t = transport_settings();
    assert_eq!(t.inactivity_timeout_secs, 30 * 60);
    assert_eq!(t.keepalive_interval_secs, 5);
    assert_eq!(t.window_size, 1 << 25);
    assert_eq!(t.maximum_packet_size, 65536);
    assert!(t.nodelay);
}

#[test]
fn disconnect_removes_session_but_not_forwardings() {
    let mut m = SSHManager::init();
    let id = sid(2);
    m.register_session(id);
    m.open_local_forwarding(id, "127.0.0.1".to_string(), 8080);
    m.open_remote_forwarding(id, "0.0.0.0".to_string(), 2222, "localhost".to_string(), 22)
        .unwrap();

    let removed = m.remove_session(&id);
    assert!(removed.is_some());
    assert!(m.remove_session(&id).is_none());

    // Forwarding registrations under the id are not cascaded.
    assert!(m.close_local_forwarding(&id, &"127.0.0.1".to_string(), 8080).is_ok());
    assert!(m.lookup_remote_forwarding(&id, &"0.0.0.0".to_string(), 2222).is_ok());
}

#[test]
fn shell_setup_and_registration() {
    let mut m = SSHManager::init();
    let id = sid(3);
    assert_eq!(m.open_shell(&id, size()), Err(SSHError::NotFoundSession));

    m.register_session(id);
    let setup = m.open_shell(&id, size()).unwrap().expect("a fresh session needs a shell");
    assert_eq!(setup.term, "xterm-256color".to_string());
    assert_eq!(setup.env_name, "LANG".to_string());
    assert_eq!(setup.env_value, "en_US.UTF-8".to_string());
    assert_eq!(setup.size, size());

    let channel = ChannelId::new(7);
    m.register_shell(&id, channel).unwrap();
    assert!(m.is_shell_channel(&id, channel));
    assert!(!m.is_shell_channel(&id, ChannelId::new(8)));

    // Opening the shell again is a no-op success.
    assert_eq!(m.open_shell(&id, size()), Ok(None));
}

#[test]
fn register_shell_for_unknown_session_fails() {
    let mut m = SSHManager::init();
    assert_eq!(m.register_shell(&sid(9), ChannelId::new(1)), Err(SSHError::NotFoundSession));
}

#[test]
fn session_id_wraps_uuid_bits() {
    let id = SSHSessionId::from(0x0123_4567_89ab_cdef_0123_4567_89ab_cdefu128);
    assert_eq!(id, SSHSessionId::new(0x0123_4567_89ab_cdef_0123_4567_89ab_cdefu128));
}
