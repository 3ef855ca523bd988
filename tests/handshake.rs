use accessory_mode::{
    handshake_transfer, Action, Handshake, HandshakeError, MockDevice, Transfer, TransportError,
};

fn query() -> Transfer {
    Transfer::Read { request_type: 0xC0, request: 51, value: 0, index: 0, length: 2 }
}

fn manufacturer() -> Transfer {
    Transfer::Write { request_type: 0x40, request: 52, value: 0, index: 0, data: b"Android" }
}

fn model() -> Transfer {
    Transfer::Write { request_type: 0x40, request: 52, value: 0, index: 1, data: b"Android Auto" }
}

fn start() -> Transfer {
    Transfer::Write { request_type: 0x40, request: 53, value: 0, index: 0, data: &[] }
}

fn replies(list: &[Result<&[u8], TransportError>]) -> Vec<Result<Vec<u8>, TransportError>> {
    list.iter().map(|r| r.map(|b| b.to_vec())).collect()
}

#[test]
fn transfers_follow_the_wire_table() {
    assert_eq!(handshake_transfer(0), query());
    assert_eq!(handshake_transfer(1), manufacturer());
    assert_eq!(handshake_transfer(2), model());
    assert_eq!(handshake_transfer(3), start());
}

#[test]
fn engine_walks_open_transfers_release_finish() {
    let mut hs = Handshake::new();
    assert_eq!(hs.action(), Action::Open);
    hs.advance(Ok(Vec::new()));
    assert_eq!(hs.action(), Action::Transfer(query()));
    hs.advance(Ok(vec![0x02, 0x00]));
    assert_eq!(hs, Handshake::Transferring { step: 1, version: 2 });
    assert_eq!(hs.action(), Action::Transfer(manufacturer()));
    hs.advance(Ok(Vec::new()));
    assert_eq!(hs.action(), Action::Transfer(model()));
    hs.advance(Ok(Vec::new()));
    assert_eq!(hs.action(), Action::Transfer(start()));
    hs.advance(Ok(Vec::new()));
    assert_eq!(hs.action(), Action::Release);
    assert!(!hs.is_finished());
    hs.advance(Ok(Vec::new()));
    assert!(hs.is_finished());
    assert_eq!(hs.action(), Action::Finish(Ok(2)));
}

#[test]
fn engine_open_failure_finishes_without_release() {
    let mut hs = Handshake::new();
    hs.advance(Err(TransportError::Access));
    assert_eq!(
        hs.action(),
        Action::Finish(Err(HandshakeError::TransportFailure(TransportError::Access)))
    );
}

#[test]
fn scenario_version_one_all_writes_succeed() {
    let mut dev = MockDevice::new(None, replies(&[Ok(&[0x01, 0x00])]));
    assert_eq!(dev.probe(), Ok(1));
    assert_eq!(dev.transfers, vec![query(), manufacturer(), model(), start()]);
    assert_eq!(dev.opens, 1);
    assert_eq!(dev.releases, 1);
}

#[test]
fn scenario_version_zero_is_unsupported() {
    let mut dev = MockDevice::new(None, replies(&[Ok(&[0x00, 0x00])]));
    assert_eq!(dev.probe(), Err(HandshakeError::UnsupportedVersion(0)));
    assert_eq!(dev.transfers, vec![query()]);
    assert_eq!(dev.transfers.iter().filter(|t| matches!(t, Transfer::Write { .. })).count(), 0);
    assert_eq!(dev.opens, 1);
    assert_eq!(dev.releases, 1);
}

#[test]
fn scenario_model_string_fails_with_pipe() {
    let mut dev = MockDevice::new(
        None,
        replies(&[Ok(&[0x01, 0x00]), Ok(&[]), Err(TransportError::Pipe), Ok(&[])]),
    );
    assert_eq!(dev.probe(), Err(HandshakeError::TransportFailure(TransportError::Pipe)));
    assert_eq!(dev.transfers, vec![query(), manufacturer(), model()]);
    assert_eq!(dev.releases, 1);
}

#[test]
fn failing_step_stops_the_sequence_there() {
    let all = [query(), manufacturer(), model(), start()];
    for k in 1..=4usize {
        let mut script: Vec<Result<&[u8], TransportError>> =
            vec![Ok(&[0x02, 0x00]), Ok(&[]), Ok(&[]), Ok(&[])];
        script[k - 1] = Err(TransportError::Timeout);
        let mut dev = MockDevice::new(None, replies(&script));
        assert_eq!(dev.probe(), Err(HandshakeError::TransportFailure(TransportError::Timeout)));
        assert_eq!(dev.transfers.len(), k);
        assert_eq!(dev.transfers[..], all[..k]);
        assert_eq!(dev.opens, 1);
        assert_eq!(dev.releases, 1);
    }
}

#[test]
fn higher_version_is_returned_after_all_four_transfers() {
    let mut dev = MockDevice::new(None, replies(&[Ok(&[0x02, 0x00]), Ok(&[]), Ok(&[]), Ok(&[])]));
    assert_eq!(dev.probe(), Ok(2));
    assert_eq!(dev.transfers.len(), 4);
}

#[test]
fn short_version_reply_is_a_transport_failure() {
    let mut dev = MockDevice::new(None, replies(&[Ok(&[0x01])]));
    assert_eq!(dev.probe(), Err(HandshakeError::TransportFailure(TransportError::Io)));
    assert_eq!(dev.transfers, vec![query()]);
    assert_eq!(dev.releases, 1);
}

#[test]
fn open_failure_attempts_no_transfer_and_releases_nothing() {
    let mut dev = MockDevice::new(Some(TransportError::Busy), replies(&[Ok(&[0x01, 0x00])]));
    assert_eq!(dev.probe(), Err(HandshakeError::TransportFailure(TransportError::Busy)));
    assert!(dev.transfers.is_empty());
    assert_eq!(dev.opens, 1);
    assert_eq!(dev.releases, 0);
}
