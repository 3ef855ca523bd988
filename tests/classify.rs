use accessory_mode::{Failure, HandshakeError, TransportError};

const ALL: [TransportError; 14] = [
    TransportError::Io,
    TransportError::InvalidParam,
    TransportError::Access,
    TransportError::NoDevice,
    TransportError::NotFound,
    TransportError::Busy,
    TransportError::Timeout,
    TransportError::Overflow,
    TransportError::Pipe,
    TransportError::Interrupted,
    TransportError::NoMem,
    TransportError::NotSupported,
    TransportError::Other,
    TransportError::BadDescriptor,
];

#[test]
fn transport_codes_run_from_one_to_fourteen() {
    for (i, e) in ALL.iter().enumerate() {
        assert_eq!(e.code() as usize, i + 1);
        assert_eq!(Failure::Usb(*e).exit_code() as usize, i + 1);
    }
}

#[test]
fn other_failures_have_their_own_codes() {
    assert_eq!(Failure::Parse.exit_code(), 20);
    assert_eq!(Failure::Args.exit_code(), 30);
    assert_eq!(Failure::UnsupportedVersion(0).exit_code(), 40);
    assert_eq!(Failure::Journal.exit_code(), 50);
}

#[test]
fn handshake_errors_map_to_failures() {
    assert_eq!(
        Failure::from(HandshakeError::TransportFailure(TransportError::Pipe)),
        Failure::Usb(TransportError::Pipe)
    );
    assert_eq!(
        Failure::from(HandshakeError::UnsupportedVersion(0)),
        Failure::UnsupportedVersion(0)
    );
    assert_eq!(Failure::from(HandshakeError::UnsupportedVersion(0)).exit_code(), 40);
    assert_eq!(
        Failure::from(HandshakeError::TransportFailure(TransportError::Timeout)).exit_code(),
        7
    );
}
