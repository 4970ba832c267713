use pursuit_server::conn::ConnEvent;
use pursuit_server::conn::ConnState;
use pursuit_server::conn::transition;

#[test]
fn successful_upgrade_opens_the_connection() {
    assert_eq!(transition(ConnState::Handshaking, ConnEvent::UpgradeSucceeded), ConnState::Open);
}

#[test]
fn failed_upgrade_closes_the_connection() {
    assert_eq!(transition(ConnState::Handshaking, ConnEvent::UpgradeFailed), ConnState::Closed);
}

#[test]
fn text_frames_keep_the_connection_open() {
    assert_eq!(
        transition(ConnState::Open, ConnEvent::TextFrame { well_formed: true }),
        ConnState::Open
    );
    assert_eq!(
        transition(ConnState::Open, ConnEvent::TextFrame { well_formed: false }),
        ConnState::Open
    );
    assert_eq!(transition(ConnState::Open, ConnEvent::NonTextFrame), ConnState::Open);
}

#[test]
fn close_frame_and_transport_error_close_the_connection() {
    assert_eq!(transition(ConnState::Open, ConnEvent::CloseFrame), ConnState::Closed);
    assert_eq!(transition(ConnState::Open, ConnEvent::TransportError), ConnState::Closed);
}

#[test]
fn closed_connection_stays_closed() {
    assert_eq!(
        transition(ConnState::Closed, ConnEvent::TextFrame { well_formed: true }),
        ConnState::Closed
    );
    assert_eq!(transition(ConnState::Closed, ConnEvent::UpgradeSucceeded), ConnState::Closed);
}
