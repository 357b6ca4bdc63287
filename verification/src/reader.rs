use crate::control::{is_disconnect, plain_disconnect};
use crate::packet::{Packet, ReasonCode};
use crate::peer::Peer;
use vstd::prelude::*;

verus! {

/// The outcome of one attempt to read a packet from a connection, as the
/// reader task sees it: a decoded packet, a decode failure already mapped
/// to the reason code naming it (`MalformedPacket`, `ProtocolError` or
/// `UnspecifiedError`), or nothing within the one second poll timeout.
#[derive(Debug, Clone, PartialEq)]
pub enum ReadOutcome {
    /// One packet was decoded.
    Packet(Packet),
    /// The bytes could not be decoded; the connection is beyond recovery.
    Failure(ReasonCode),
    /// No packet arrived within the poll timeout.
    Timeout,
}

/// What one reader step asks the connection task to do. `respond` is
/// queued on this peer's own outbound channel; `forward` goes to the
/// command loop as a command of this peer.
#[derive(Debug, Clone, PartialEq)]
pub struct ReaderStep {
    /// Packet to send back on this connection, if any.
    pub respond: Option<Packet>,
    /// Packet to hand to the command loop, if any.
    pub forward: Option<Packet>,
}

/// The keep-alive window in seconds: none when the keep-alive period is
/// zero (the timeout is disabled), one and a half times the period,
/// rounded down, otherwise.
pub fn keep_alive_window(keep_alive: u16) -> (r: Option<u32>)
    ensures
        keep_alive == 0 ==> r is None,
        keep_alive != 0 ==> (r matches Some(w) && w == (3 * keep_alive as int) / 2),
{
    if keep_alive == 0 {
        None
    } else {
        Some(3 * (keep_alive as u32) / 2)
    }
}

/// Whether the keep-alive deadline has passed: more than `window` seconds
/// elapsed since the last inbound packet. Times are in milliseconds from a
/// monotonic clock.
pub fn keep_alive_expired(window: u32, last_activity_ms: u64, now_ms: u64) -> (r: bool)
    requires
        last_activity_ms <= now_ms,
    ensures
        r == (now_ms - last_activity_ms > 1000 * window as int),
{
    now_ms - last_activity_ms > 1000 * (window as u64)
}

/// The shutdown check at the top of the reader loop: while the broker
/// shuts down, the peer is told once with a DISCONNECT (reason
/// `ServerShuttingDown`) and closed; after that the loop stops, so no
/// further packet of any kind is emitted for this peer.
pub fn check_shutdown(peer: &mut Peer, shutdown_fired: bool) -> (respond: Option<Packet>)
    ensures
        final(peer).spec_id() == old(peer).spec_id(),
        final(peer).spec_session() == old(peer).spec_session(),
        shutdown_fired ==> (respond matches Some(p) && is_disconnect(
            p,
            ReasonCode::ServerShuttingDown,
        )) && final(peer).spec_closing(),
        !shutdown_fired ==> respond is None && final(peer).spec_closing() == old(
            peer,
        ).spec_closing(),
{
    if shutdown_fired {
        peer.close();
        Some(plain_disconnect(ReasonCode::ServerShuttingDown))
    } else {
        None
    }
}

/// Decides one reader step from the outcome of a read attempt.
///
/// A decoded packet is forwarded to the command loop unless the peer is
/// already closing: a closing peer emits no further commands. A decode
/// failure is fatal for the connection: the peer closes, and is told why
/// only when a session was bound to it. On a quiet poll the keep-alive
/// deadline is checked: with the window disabled nothing ever happens (no
/// `KeepAliveTimeout` is emitted for any input); with a window, once more
/// than the window has elapsed since the last inbound packet, the peer is
/// told (`KeepAliveTimeout`) and closed.
pub fn on_read(
    peer: &mut Peer,
    outcome: ReadOutcome,
    window: Option<u32>,
    last_activity_ms: u64,
    now_ms: u64,
) -> (r: ReaderStep)
    requires
        last_activity_ms <= now_ms,
    ensures
        final(peer).spec_id() == old(peer).spec_id(),
        final(peer).spec_session() == old(peer).spec_session(),
        old(peer).spec_closing() ==> r.forward is None,
        match outcome {
            ReadOutcome::Packet(p) => {
                &&& r.respond is None
                &&& r.forward == (if old(peer).spec_closing() {
                    Option::<Packet>::None
                } else {
                    Some(p)
                })
                &&& final(peer).spec_closing() == old(peer).spec_closing()
            },
            ReadOutcome::Failure(rc) => {
                &&& (if old(peer).spec_session() is Some {
                    r.respond matches Some(p) && is_disconnect(p, rc)
                } else {
                    r.respond is None
                })
                &&& r.forward is None
                &&& final(peer).spec_closing()
            },
            ReadOutcome::Timeout => {
                &&& r.forward is None
                &&& match window {
                    Some(w) => {
                        if now_ms - last_activity_ms > 1000 * (w as int) && !old(
                            peer,
                        ).spec_closing() {
                            (r.respond matches Some(p) && is_disconnect(
                                p,
                                ReasonCode::KeepAliveTimeout,
                            )) && final(peer).spec_closing()
                        } else {
                            r.respond is None && final(peer).spec_closing() == old(
                                peer,
                            ).spec_closing()
                        }
                    },
                    None => r.respond is None && final(peer).spec_closing() == old(
                        peer,
                    ).spec_closing(),
                }
            },
        },
{
    match outcome {
        ReadOutcome::Packet(p) => {
            if peer.closing() {
                ReaderStep { respond: None, forward: None }
            } else {
                ReaderStep { respond: None, forward: Some(p) }
            }
        },
        ReadOutcome::Failure(rc) => {
            let respond = if peer.session().is_some() {
                Some(plain_disconnect(rc))
            } else {
                None
            };
            peer.close();
            ReaderStep { respond, forward: None }
        },
        ReadOutcome::Timeout => {
            match window {
                Some(w) => {
                    if keep_alive_expired(w, last_activity_ms, now_ms) && !peer.closing() {
                        peer.close();
                        ReaderStep {
                            respond: Some(plain_disconnect(ReasonCode::KeepAliveTimeout)),
                            forward: None,
                        }
                    } else {
                        ReaderStep { respond: None, forward: None }
                    }
                },
                None => ReaderStep { respond: None, forward: None },
            }
        },
    }
}

/// With a keep-alive period of `N > 0` seconds the reader's deadline lies
/// between `N` and one and a half times `N`: the quiet time after which the
/// connection is closed is at least the period itself and at most one and
/// a half times the period.
pub proof fn lemma_keep_alive_deadline_bounds(keep_alive: u16)
    requires
        keep_alive > 0,
    ensures
        1000 * ((3 * keep_alive as int) / 2) >= 1000 * keep_alive as int,
        2 * (1000 * ((3 * keep_alive as int) / 2)) <= 3000 * keep_alive as int,
{
    let k = keep_alive as int;
    assert((3 * k) / 2 >= k && 2 * ((3 * k) / 2) <= 3 * k) by (nonlinear_arith)
        requires
            k > 0,
    ;
}

} // verus!
