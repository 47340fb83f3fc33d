//! Event routing: shell matching, lifecycle notification, and the
//! exactly-once disconnect.

use ssh_core::dispatch::{shell_input_bytes, DispatchAction, UnboundedChannelMessage};
use ssh_core::errors::SSHError;
use ssh_core::manager::SSHManager;
use ssh_core::session::{ChannelId, DisconnectReason, SSHSessionId, SessionIpcChannelData, Size};

fn shell_session(m: &mut SSHManager, n: u128, channel: u32) -> SSHSessionId {
    let id = SSHSessionId::new(n);
    m.register_session(id);
    m.register_shell(&id, ChannelId::new(channel)).unwrap();
    id
}

#[test]
fn shell_bytes_reach_the_data_consumer_in_order() {
    let mut m = SSHManager::init();
    let id = shell_session(&mut m, 1, 7);
    let r = m
        .dispatch(&id, UnboundedChannelMessage::Receive(ChannelId::new(7), b"output".to_vec()))
        .unwrap();
    assert_eq!(r, Some(DispatchAction::EmitShellOutput(b"output".to_vec())));
}

#[test]
fn bytes_of_other_channels_are_not_shell_output() {
    let mut m = SSHManager::init();
    let id = shell_session(&mut m, 1, 7);
    let r = m
        .dispatch(&id, UnboundedChannelMessage::Receive(ChannelId::new(8), b"relay".to_vec()))
        .unwrap();
    assert_eq!(r, None);
}

#[test]
fn send_writes_to_the_shell_channel() {
    let mut m = SSHManager::init();
    let id = shell_session(&mut m, 1, 7);
    let r = m.dispatch(&id, UnboundedChannelMessage::Send(b"ls\n".to_vec())).unwrap();
    assert_eq!(r, Some(DispatchAction::WriteShell(ChannelId::new(7), b"ls\n".to_vec())));

    let mut no_shell = SSHManager::init();
    let id2 = SSHSessionId::new(2);
    no_shell.register_session(id2);
    let r = no_shell.dispatch(&id2, UnboundedChannelMessage::Send(b"ls\n".to_vec())).unwrap();
    assert_eq!(r, None);
}

#[test]
fn resize_reaches_the_shell_channel() {
    let mut m = SSHManager::init();
    let id = shell_session(&mut m, 1, 7);
    let s = Size { col: 100, row: 40, width: 800, height: 600 };
    let r = m.dispatch(&id, UnboundedChannelMessage::Resize(s)).unwrap();
    assert_eq!(r, Some(DispatchAction::ResizeShell(ChannelId::new(7), s)));
}

#[test]
fn shell_eof_and_close_notify_the_lifecycle_channel() {
    let mut m = SSHManager::init();
    let id = shell_session(&mut m, 1, 7);
    let r = m.dispatch(&id, UnboundedChannelMessage::ChannelEof(ChannelId::new(7))).unwrap();
    assert_eq!(
        r,
        Some(DispatchAction::NotifyLifecycle(SessionIpcChannelData::Disconnect(
            DisconnectReason::Server
        )))
    );
    let r = m.dispatch(&id, UnboundedChannelMessage::ChannelClose(ChannelId::new(7))).unwrap();
    assert_eq!(
        r,
        Some(DispatchAction::NotifyLifecycle(SessionIpcChannelData::Disconnect(
            DisconnectReason::Server
        )))
    );
    // A forwarding channel's EOF is not the shell's.
    let r = m.dispatch(&id, UnboundedChannelMessage::ChannelEof(ChannelId::new(9))).unwrap();
    assert_eq!(r, None);
}

#[test]
fn disconnect_notifies_exactly_once_and_removes_the_session() {
    let mut m = SSHManager::init();
    let id = shell_session(&mut m, 1, 7);

    let first = m
        .dispatch(
            &id,
            UnboundedChannelMessage::Disconnect(DisconnectReason::Error("broken pipe".to_string())),
        )
        .unwrap();
    assert_eq!(
        first,
        Some(DispatchAction::NotifyLifecycle(SessionIpcChannelData::Disconnect(
            DisconnectReason::Error("broken pipe".to_string())
        )))
    );

    // The session is gone: a second terminal disconnect notifies nobody.
    let second = m
        .dispatch(&id, UnboundedChannelMessage::Disconnect(DisconnectReason::Server))
        .unwrap();
    assert_eq!(second, None);
}

#[test]
fn server_initiated_disconnect_carries_its_reason() {
    let mut m = SSHManager::init();
    let id = shell_session(&mut m, 3, 2);
    let r = m
        .dispatch(&id, UnboundedChannelMessage::Disconnect(DisconnectReason::Server))
        .unwrap();
    assert_eq!(
        r,
        Some(DispatchAction::NotifyLifecycle(SessionIpcChannelData::Disconnect(
            DisconnectReason::Server
        )))
    );
}

#[test]
fn forwarded_channel_open_is_bridged_to_the_mapped_target() {
    let mut m = SSHManager::init();
    let id = SSHSessionId::new(4);
    m.register_session(id);
    m.open_remote_forwarding(id, "0.0.0.0".to_string(), 2222, "localhost".to_string(), 22)
        .unwrap();

    let r = m
        .dispatch(&id, UnboundedChannelMessage::RemoteForwardLookup("0.0.0.0".to_string(), 2222))
        .unwrap();
    match r {
        Some(DispatchAction::BridgeForwarded(target)) => {
            assert_eq!(target.address, "localhost".to_string());
            assert_eq!(target.port, 22);
        }
        other => panic!("unexpected action {:?}", other),
    }

    let r = m.dispatch(&id, UnboundedChannelMessage::RemoteForwardLookup("0.0.0.0".to_string(), 9));
    assert_eq!(r, Err(SSHError::NotFoundPortForwarding));
}

#[test]
fn keyboard_input_bytes_are_the_exact_utf8_of_the_text() {
    assert_eq!(shell_input_bytes("ls -la\n"), b"ls -la\n".to_vec());
    assert_eq!(shell_input_bytes(""), Vec::<u8>::new());
}
