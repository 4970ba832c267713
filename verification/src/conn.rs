//! The per-connection state machine.
//!
//! A connection is handshaking until the protocol upgrade settles, open
//! while frames are being exchanged, and closed once a close frame or a
//! transport error arrives. A text frame never closes the connection,
//! whether or not its text decodes to a request: decoding failures are
//! answered with a `parse_error` response instead.

use vstd::prelude::*;

verus! {

/// Where a connection stands in its life cycle.
#[derive(Clone, Copy, PartialEq, Eq, Structural, Debug)]
pub enum ConnState {
    Handshaking,
    Open,
    Closed,
}

/// One observable event on a connection.
#[derive(Clone, Copy, PartialEq, Eq, Structural, Debug)]
pub enum ConnEvent {
    UpgradeSucceeded,
    UpgradeFailed,
    TextFrame { well_formed: bool },
    NonTextFrame,
    CloseFrame,
    TransportError,
}

/// The connection's next state after an event: upgrades settle the
/// handshake, close frames and transport errors end an open connection,
/// text and other frames leave it open, and a closed connection stays
/// closed.
pub open spec fn spec_transition(s: ConnState, e: ConnEvent) -> ConnState {
    match s {
        ConnState::Handshaking => match e {
            ConnEvent::UpgradeSucceeded => ConnState::Open,
            ConnEvent::UpgradeFailed => ConnState::Closed,
            _ => ConnState::Handshaking,
        },
        ConnState::Open => match e {
            ConnEvent::CloseFrame => ConnState::Closed,
            ConnEvent::TransportError => ConnState::Closed,
            _ => ConnState::Open,
        },
        ConnState::Closed => ConnState::Closed,
    }
}

/// Advances the connection state machine by one event.
pub fn transition(s: ConnState, e: ConnEvent) -> (r: ConnState)
    ensures
        r == spec_transition(s, e),
{
    match s {
        ConnState::Handshaking => match e {
            ConnEvent::UpgradeSucceeded => ConnState::Open,
            ConnEvent::UpgradeFailed => ConnState::Closed,
            _ => ConnState::Handshaking,
        },
        ConnState::Open => match e {
            ConnEvent::CloseFrame => ConnState::Closed,
            ConnEvent::TransportError => ConnState::Closed,
            _ => ConnState::Open,
        },
        ConnState::Closed => ConnState::Closed,
    }
}

/// A text frame never closes an open connection: after any text frame,
/// well-formed or not, the connection is still open and usable.
pub proof fn lemma_text_frame_keeps_connection_open(well_formed: bool)
    ensures
        spec_transition(ConnState::Open, ConnEvent::TextFrame { well_formed }) == ConnState::Open,
{
}

} // verus!
