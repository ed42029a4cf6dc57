use picoquic_core::address::{IpAddress, SocketAddress};
use picoquic_core::connection::{
    Connection, ConnectionType, STATE_CLIENT_READY, STATE_DISCONNECTED, STATE_SERVER_READY,
};
use picoquic_core::error::{ErrorKind, TLS_HANDSHAKE_FAILED};

#[test]
fn unspecified_addresses_are_detected() {
    for port in [0u16, 80, 12345, u16::MAX] {
        let v4 = SocketAddress {
            ip: IpAddress::V4(0),
            port,
        };
        assert!(v4.is_unspecified());
        let v6 = SocketAddress {
            ip: IpAddress::V6(0),
            port,
        };
        assert!(v6.is_unspecified());
    }
    let loopback = SocketAddress {
        ip: IpAddress::V4(0x7F00_0001),
        port: 12345,
    };
    assert!(!loopback.is_unspecified());
}

#[test]
fn creation_surfaces_engine_allocation_failure() {
    let addr = SocketAddress {
        ip: IpAddress::V4(0x7F00_0001),
        port: 443,
    };
    assert_eq!(Connection::new(0, &addr), Err(ErrorKind::Unknown));
}

#[test]
fn creation_wraps_the_engine_object() {
    let addr = SocketAddress {
        ip: IpAddress::V6(1),
        port: 4433,
    };
    let con = Connection::new(0x1000, &addr).unwrap();
    assert_eq!(con.as_raw(), 0x1000);
    assert_eq!(con, Connection::from_handle(0x1000));
}

#[test]
fn ready_and_disconnected_are_mutually_exclusive() {
    let con = Connection::from_handle(1);
    // Every state code of the engine's enumeration, sampled in turn: the two
    // ready states, the terminal state, and every opaque intermediate state.
    for state in 0u32..32 {
        let ready = con.is_ready(state);
        let disconnected = con.is_disconnected(state);
        assert!(!(ready && disconnected));
        assert_eq!(
            ready,
            state == STATE_CLIENT_READY || state == STATE_SERVER_READY
        );
        assert_eq!(disconnected, state == STATE_DISCONNECTED);
    }
}

#[test]
fn role_follows_the_engine_client_flag() {
    let con = Connection::from_handle(1);
    assert_eq!(con.con_type(1), ConnectionType::Outgoing);
    assert_eq!(con.con_type(0), ConnectionType::Incoming);
    assert_eq!(con.con_type(-1), ConnectionType::Incoming);
}

#[test]
fn no_error_when_both_codes_are_zero() {
    let con = Connection::from_handle(1);
    assert_eq!(con.error(0, 0), None);
}

#[test]
fn tls_handshake_failure_is_recognized() {
    let con = Connection::from_handle(1);
    assert_eq!(
        con.error(TLS_HANDSHAKE_FAILED, 0),
        Some(ErrorKind::TLSHandshakeError)
    );
    assert_eq!(
        con.error(0, TLS_HANDSHAKE_FAILED),
        Some(ErrorKind::TLSHandshakeError)
    );
}

#[test]
fn unrecognized_codes_classify_as_unknown() {
    let con = Connection::from_handle(1);
    assert_eq!(con.error(0x400, 0), Some(ErrorKind::Unknown));
    assert_eq!(con.error(0, 1), Some(ErrorKind::Unknown));
}

#[test]
fn local_error_takes_precedence_over_remote() {
    let con = Connection::from_handle(1);
    assert_eq!(
        con.error(TLS_HANDSHAKE_FAILED, 7),
        Some(ErrorKind::TLSHandshakeError)
    );
    assert_eq!(
        con.error(7, TLS_HANDSHAKE_FAILED),
        Some(ErrorKind::Unknown)
    );
}

#[test]
fn empty_packet_is_no_data_not_an_error() {
    let con = Connection::from_handle(1);
    assert_eq!(con.create_and_prepare_packet(Ok(0)), Ok(None));
}

#[test]
fn pending_data_yields_the_packet_length() {
    let con = Connection::from_handle(1);
    assert_eq!(con.create_and_prepare_packet(Ok(1200)), Ok(Some(1200)));
    assert_eq!(con.create_and_prepare_packet(Ok(1)), Ok(Some(1)));
}

#[test]
fn preparation_failure_is_surfaced() {
    let con = Connection::from_handle(1);
    assert_eq!(
        con.create_and_prepare_packet(Err(ErrorKind::Unknown)),
        Err(ErrorKind::Unknown)
    );
}

#[test]
fn keep_alive_interval_in_microseconds() {
    let con = Connection::from_handle(1);
    assert_eq!(con.enable_keep_alive(0, 0), 0);
    assert_eq!(con.enable_keep_alive(3, 500_000), 3_000_500);
    assert_eq!(con.enable_keep_alive(1, 999), 1_000_000);
}
