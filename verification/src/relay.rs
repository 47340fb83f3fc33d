//! The blind bidirectional relay that every accepted forwarding
//! connection runs: bytes pass unchanged in both directions until
//! either side closes.  Each relay is its own task; its failure is
//! isolated and never affects the listener, sibling relays, or the
//! owning session.

use vstd::prelude::*;

verus! {

/// Something happened on one side of the relay.
#[derive(Debug, Clone, PartialEq, Eq)]
pub enum RelayEvent {
    /// The accepted connection produced bytes.
    ClientData(Vec<u8>),
    /// The tunnelled channel produced bytes.
    ChannelData(Vec<u8>),
    /// The accepted connection closed or failed.
    ClientClosed,
    /// The tunnelled channel closed or failed.
    ChannelClosed,
}

/// What the relay does in response.
#[derive(Debug, Clone, PartialEq, Eq)]
pub enum RelayAction {
    /// Write these bytes to the tunnelled channel.
    WriteChannel(Vec<u8>),
    /// Write these bytes to the accepted connection.
    WriteClient(Vec<u8>),
    /// Stop the relay; both directions end.
    Shutdown,
}

/// One relay step: bytes cross unchanged, and the relay ends exactly
/// when either side closes.
pub fn relay_step(event: RelayEvent) -> (r: RelayAction)
    ensures
        event matches RelayEvent::ClientData(data) ==> r == RelayAction::WriteChannel(data),
        event matches RelayEvent::ChannelData(data) ==> r == RelayAction::WriteClient(data),
        event is ClientClosed ==> r is Shutdown,
        event is ChannelClosed ==> r is Shutdown,
{
    match event {
        RelayEvent::ClientData(data) => RelayAction::WriteChannel(data),
        RelayEvent::ChannelData(data) => RelayAction::WriteClient(data),
        RelayEvent::ClientClosed => RelayAction::Shutdown,
        RelayEvent::ChannelClosed => RelayAction::Shutdown,
    }
}

} // verus!

