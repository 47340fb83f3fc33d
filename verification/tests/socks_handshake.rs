//! The SOCKS4/5 handshake machine of dynamic forwarding.

use ssh_core::errors::SSHError;
use ssh_core::manager::SSHManager;
use ssh_core::session::SSHSessionId;
use ssh_core::socks::{
    connect_reply, Handler, SocksCommand, SocksDestination, SocksHandshake, SocksHost, SocksStep,
    SocksVersion,
};

fn v5_connect_domain(domain: &[u8], port: u16) -> Vec<u8> {
    let mut req = vec![5u8, 1, 0, 3, domain.len() as u8];
    req.extend_from_slice(domain);
    req.push((port >> 8) as u8);
    req.push((port & 0xff) as u8);
    req
}

#[test]
fn socks5_connect_to_domain_opens_tunnel_and_replies_wildcard() {
    // A SOCKS5 CONNECT to example.com:443 through the dynamic
    // listener: the method selection accepts "no authentication", the
    // tunnel is requested for exactly that domain and port, and the
    // success reply carries a wildcard bound address.
    let mut hs = SocksHandshake::new();

    match hs.advance(&[5u8, 1, 0]) {
        SocksStep::SendMethodSelection(reply) => assert_eq!(reply, vec![5u8, 0]),
        other => panic!("unexpected step {:?}", other),
    }

    match hs.advance(&v5_connect_domain(b"example.com", 443)) {
        SocksStep::OpenTunnel { version, dest } => {
            assert_eq!(version, SocksVersion::V5);
            assert_eq!(dest.host, SocksHost::Domain(b"example.com".to_vec()));
            assert_eq!(dest.port, 443);
        }
        other => panic!("unexpected step {:?}", other),
    }

    assert_eq!(connect_reply(SocksVersion::V5, true), vec![5u8, 0, 0, 1, 0, 0, 0, 0, 0, 0]);
    assert_eq!(connect_reply(SocksVersion::V5, false), vec![5u8, 1, 0, 1, 0, 0, 0, 0, 0, 0]);
}

#[test]
fn socks5_bind_is_rejected_before_any_channel_and_listener_stays_usable() {
    // A BIND request is answered with "command not supported" and no
    // tunnel is opened; a fresh connection afterwards still works.
    let mut hs = SocksHandshake::new();
    hs.advance(&[5u8, 1, 0]);

    // BIND (command 2) to 1.2.3.4:80.
    match hs.advance(&[5u8, 2, 0, 1, 1, 2, 3, 4, 0, 80]) {
        SocksStep::RejectCommand { reply } => {
            assert_eq!(reply, vec![5u8, 7, 0, 1, 0, 0, 0, 0, 0, 0]);
        }
        other => panic!("unexpected step {:?}", other),
    }

    // The listener hands the next accepted connection a fresh
    // handshake, which proceeds normally.
    let mut next = SocksHandshake::new();
    next.advance(&[5u8, 1, 0]);
    match next.advance(&v5_connect_domain(b"example.com", 443)) {
        SocksStep::OpenTunnel { .. } => {}
        other => panic!("unexpected step {:?}", other),
    }
}

#[test]
fn socks5_udp_associate_is_rejected() {
    let mut hs = SocksHandshake::new();
    hs.advance(&[5u8, 1, 0]);
    match hs.advance(&[5u8, 3, 0, 1, 1, 2, 3, 4, 0, 80]) {
        SocksStep::RejectCommand { reply } => {
            assert_eq!(reply, vec![5u8, 7, 0, 1, 0, 0, 0, 0, 0, 0]);
        }
        other => panic!("unexpected step {:?}", other),
    }
}

#[test]
fn socks5_without_no_auth_method_is_rejected() {
    let mut hs = SocksHandshake::new();
    // Only username/password (2) offered.
    match hs.advance(&[5u8, 1, 2]) {
        SocksStep::RejectMethod(reply) => assert_eq!(reply, vec![5u8, 255]),
        other => panic!("unexpected step {:?}", other),
    }
}

#[test]
fn socks5_ipv4_connect_parses_address_and_port() {
    let mut hs = SocksHandshake::new();
    // Greeting arrives in two pieces: version + count, then the two
    // offered methods (no-auth and gssapi).
    assert_eq!(hs.advance(&[5u8, 2]), SocksStep::NeedMore);
    match hs.advance(&[0u8, 1]) {
        SocksStep::SendMethodSelection(reply) => assert_eq!(reply, vec![5u8, 0]),
        other => panic!("unexpected step {:?}", other),
    }
    match hs.advance(&[5u8, 1, 0, 1, 10, 0, 0, 1, 1, 187]) {
        SocksStep::OpenTunnel { version, dest } => {
            assert_eq!(version, SocksVersion::V5);
            assert_eq!(dest.host, SocksHost::Ipv4(10, 0, 0, 1));
            assert_eq!(dest.port, 443);
        }
        other => panic!("unexpected step {:?}", other),
    }
}

#[test]
fn socks5_request_arriving_byte_by_byte_is_assembled() {
    let mut hs = SocksHandshake::new();
    assert_eq!(hs.advance(&[5u8]), SocksStep::NeedMore);
    match hs.advance(&[1u8, 0]) {
        SocksStep::SendMethodSelection(_) => {}
        other => panic!("unexpected step {:?}", other),
    }
    let req = v5_connect_domain(b"example.com", 443);
    for chunk in req.chunks(3) {
        match hs.advance(chunk) {
            SocksStep::NeedMore => {}
            SocksStep::OpenTunnel { dest, .. } => {
                assert_eq!(dest.host, SocksHost::Domain(b"example.com".to_vec()));
                assert_eq!(dest.port, 443);
                return;
            }
            other => panic!("unexpected step {:?}", other),
        }
    }
    panic!("handshake never opened the tunnel");
}

#[test]
fn bytes_after_the_request_are_kept_for_the_tunnel() {
    // Early client data that followed the CONNECT request in the same
    // read belongs to the relay, not the handshake.
    let mut hs = SocksHandshake::new();
    hs.advance(&[5u8, 1, 0]);
    let mut bytes = v5_connect_domain(b"example.com", 443);
    bytes.extend_from_slice(b"GET / HTTP/1.0\r\n\r\n");
    match hs.advance(&bytes) {
        SocksStep::OpenTunnel { .. } => {}
        other => panic!("unexpected step {:?}", other),
    }
    assert_eq!(hs.buffer, b"GET / HTTP/1.0\r\n\r\n".to_vec());
}

#[test]
fn socks4_connect_opens_tunnel() {
    let mut hs = SocksHandshake::new();
    // CONNECT to 10.0.0.1:443, user id "me\0".
    match hs.advance(&[4u8, 1, 1, 187, 10, 0, 0, 1, b'm', b'e', 0]) {
        SocksStep::OpenTunnel { version, dest } => {
            assert_eq!(version, SocksVersion::V4);
            assert_eq!(dest.host, SocksHost::Ipv4(10, 0, 0, 1));
            assert_eq!(dest.port, 443);
        }
        other => panic!("unexpected step {:?}", other),
    }
    assert_eq!(connect_reply(SocksVersion::V4, true), vec![0u8, 90, 0, 0, 0, 0, 0, 0]);
}

#[test]
fn socks4_bind_is_rejected_identically() {
    let mut hs = SocksHandshake::new();
    match hs.advance(&[4u8, 2, 1, 187, 10, 0, 0, 1, 0]) {
        SocksStep::RejectCommand { reply } => {
            assert_eq!(reply, vec![0u8, 91, 0, 0, 0, 0, 0, 0]);
        }
        other => panic!("unexpected step {:?}", other),
    }
}

#[test]
fn unknown_version_byte_is_malformed() {
    let mut hs = SocksHandshake::new();
    assert_eq!(hs.advance(&[6u8, 1, 0]), SocksStep::Malformed);
}

#[test]
fn handler_negotiates_only_no_auth() {
    let h = Handler::new(SSHSessionId::new(1), "127.0.0.1".to_string(), 1080);
    assert_eq!(h.negotiate_method(&vec![0u8, 2]), Some(0));
    assert_eq!(h.negotiate_method(&vec![2u8, 3]), None);
    assert_eq!(h.negotiate_method(&vec![]), None);
}

#[test]
fn handler_allows_only_connect() {
    let h = Handler::new(SSHSessionId::new(1), "127.0.0.1".to_string(), 1080);
    assert!(h.allow_command(SocksCommand::Connect));
    assert!(!h.allow_command(SocksCommand::Bind));
    assert!(!h.allow_command(SocksCommand::UdpAssociate));
}

#[test]
fn socks_relay_uses_listener_address_as_originator() {
    let mut m = SSHManager::init();
    let id = SSHSessionId::new(11);
    m.register_session(id);
    let h = Handler::new(id, "127.0.0.1".to_string(), 1080);
    let dest = SocksDestination { host: SocksHost::Domain(b"example.com".to_vec()), port: 443 };
    let tunnel = m.plan_socks_relay(&h, dest.clone()).unwrap();
    assert_eq!(tunnel.dest, dest);
    assert_eq!(tunnel.originator_address, "127.0.0.1".to_string());
    assert_eq!(tunnel.originator_port, 1080);
}

#[test]
fn socks_relay_without_session_fails_isolated() {
    let m = SSHManager::init();
    let h = Handler::new(SSHSessionId::new(12), "127.0.0.1".to_string(), 1080);
    let dest = SocksDestination { host: SocksHost::Ipv4(1, 2, 3, 4), port: 80 };
    assert_eq!(m.plan_socks_relay(&h, dest), Err(SSHError::NotFoundSession));
}
