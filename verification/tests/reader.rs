use sage_broker::reader::{check_shutdown, keep_alive_window, on_read, ReadOutcome};
use sage_broker::{Packet, Peer, ReasonCode};

#[test]
fn keep_alive_zero_disables_the_window() {
    assert_eq!(keep_alive_window(0), None);
}

#[test]
fn keep_alive_window_is_one_and_a_half_periods() {
    assert_eq!(keep_alive_window(3), Some(4));
    assert_eq!(keep_alive_window(10), Some(15));
    assert_eq!(keep_alive_window(600), Some(900));
    assert_eq!(keep_alive_window(65535), Some(98302));
}

#[test]
fn disabled_keep_alive_never_times_out() {
    let mut peer = Peer::new(1);
    let step = on_read(&mut peer, ReadOutcome::Timeout, None, 0, u64::MAX);
    assert_eq!(step.respond, None);
    assert_eq!(step.forward, None);
    assert!(!peer.closing());
}

#[test]
fn quiet_connection_times_out_after_the_window() {
    let mut peer = Peer::new(1);
    // Window of 4 seconds (keep alive 3): nothing at exactly 4000 ms.
    let step = on_read(&mut peer, ReadOutcome::Timeout, Some(4), 1000, 5000);
    assert_eq!(step.respond, None);
    assert!(!peer.closing());
    // One millisecond later the peer is told and closed.
    let step = on_read(&mut peer, ReadOutcome::Timeout, Some(4), 1000, 5001);
    match step.respond {
        Some(Packet::Disconnect(d)) => {
            assert_eq!(d.reason_code, ReasonCode::KeepAliveTimeout)
        }
        other => panic!("unexpected response: {:?}", other),
    }
    assert_eq!(step.forward, None);
    assert!(peer.closing());
}

#[test]
fn a_closing_peer_is_not_told_of_the_timeout_again() {
    let mut peer = Peer::new(1);
    peer.close();
    let step = on_read(&mut peer, ReadOutcome::Timeout, Some(1), 0, 100_000);
    assert_eq!(step.respond, None);
    assert_eq!(step.forward, None);
}

#[test]
fn decoded_packets_are_forwarded() {
    let mut peer = Peer::new(1);
    let step = on_read(&mut peer, ReadOutcome::Packet(Packet::PingReq), None, 0, 0);
    assert_eq!(step.respond, None);
    assert_eq!(step.forward, Some(Packet::PingReq));
    assert!(!peer.closing());
}

#[test]
fn a_closing_peer_forwards_nothing() {
    let mut peer = Peer::new(1);
    peer.close();
    let step = on_read(&mut peer, ReadOutcome::Packet(Packet::PingReq), None, 0, 0);
    assert_eq!(step.forward, None);
}

#[test]
fn decode_failure_with_a_session_is_answered() {
    let mut peer = Peer::new(1);
    peer.bind(String::from("session_a"));
    let step = on_read(
        &mut peer,
        ReadOutcome::Failure(ReasonCode::MalformedPacket),
        None,
        0,
        0,
    );
    match step.respond {
        Some(Packet::Disconnect(d)) => {
            assert_eq!(d.reason_code, ReasonCode::MalformedPacket)
        }
        other => panic!("unexpected response: {:?}", other),
    }
    assert_eq!(step.forward, None);
    assert!(peer.closing());
}

#[test]
fn decode_failure_without_a_session_closes_silently() {
    let mut peer = Peer::new(1);
    let step = on_read(
        &mut peer,
        ReadOutcome::Failure(ReasonCode::ProtocolError),
        None,
        0,
        0,
    );
    assert_eq!(step.respond, None);
    assert!(peer.closing());
}

#[test]
fn shutdown_disconnects_the_peer_once() {
    let mut peer = Peer::new(1);
    let respond = check_shutdown(&mut peer, true);
    match respond {
        Some(Packet::Disconnect(d)) => {
            assert_eq!(d.reason_code, ReasonCode::ServerShuttingDown)
        }
        other => panic!("unexpected response: {:?}", other),
    }
    assert!(peer.closing());
    // The loop stops on a closing peer: a later read forwards nothing.
    let step = on_read(&mut peer, ReadOutcome::Packet(Packet::PingReq), None, 0, 0);
    assert_eq!(step.forward, None);
}

#[test]
fn no_shutdown_means_no_answer() {
    let mut peer = Peer::new(1);
    assert_eq!(check_shutdown(&mut peer, false), None);
    assert!(!peer.closing());
}
