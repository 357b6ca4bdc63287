use crate::broker_settings::BrokerSettings;
use crate::packet::{Disconnect, Packet, QoS, ReasonCode};
use crate::peer::Peer;
use crate::sessions::Sessions;
use vstd::prelude::*;

/// CONNECT handling: the CONNACK negotiation and session takeover.
pub mod connect;
/// PUBLISH handling: fan-out to the matching sessions.
pub mod publish;
/// SUBSCRIBE handling: per-filter checks and the subscription table.
pub mod subscribe;

verus! {

/// One effect the command dispatcher asks the connection tasks to carry
/// out. Packets for the peer a command came from are `Respond`; packets for
/// another peer name its handle. The `..Close` forms close that peer after
/// the packet is queued.
#[derive(Debug, Clone, PartialEq)]
pub enum Action {
    /// Send the packet to the peer the command came from.
    Respond(Packet),
    /// Send the packet to the peer the command came from, then close it.
    RespondClose(Packet),
    /// Send the packet to the peer with the given handle.
    Send(u64, Packet),
    /// Send the packet to the peer with the given handle, then close it.
    SendClose(u64, Packet),
}

/// Whether the packet is a DISCONNECT with the given reason and no other
/// properties.
pub open spec fn is_disconnect(p: Packet, rc: ReasonCode) -> bool {
    p matches Packet::Disconnect(d) && d.reason_code == rc && d.session_expiry_interval is None
        && d.reason_string is None && d.user_properties@ == Seq::<(String, String)>::empty()
        && d.reference is None
}

/// Whether the packet is the CONNACK this broker answers an unsupported
/// packet with: `ImplementationSpecificError` over the default fields.
pub open spec fn is_error_connack(p: Packet) -> bool {
    p matches Packet::ConnAck(a) && a.reason_code == ReasonCode::ImplementationSpecificError
        && !a.session_present && a.session_expiry_interval is None && a.receive_maximum == 65535
        && a.maximum_qos == QoS::ExactlyOnce && a.retain_available
        && a.maximum_packet_size is None && a.assigned_client_id is None
        && a.topic_alias_maximum == 0 && a.reason_string is None && a.user_properties@ == Seq::<
        (String, String),
    >::empty() && a.keep_alive is None && a.response_information is None && a.reference is None
        && a.authentication is None
}

/// Builds the DISCONNECT packet with the given reason and no other
/// properties.
pub fn plain_disconnect(rc: ReasonCode) -> (r: Packet)
    ensures
        is_disconnect(r, rc),
{
    Packet::Disconnect(Disconnect { reason_code: rc, ..Default::default() })
}

/// Dispatches one command of the command loop: the pair of the peer it came
/// from and the packet it carries, together with the state of the shutdown
/// trigger at that moment. Returns the packets to send, in order.
///
/// While the broker shuts down, every command is answered with a single
/// DISCONNECT (reason `ServerShuttingDown`) and the peer is closed; nothing
/// else is emitted and the registry does not change. Otherwise the packet
/// is dispatched by kind: CONNECT, SUBSCRIBE, PINGREQ and PUBLISH have
/// their handlers, and any other packet is answered with a CONNACK carrying
/// `ImplementationSpecificError` and the peer is closed.
///
/// `assigned_id` and `session_id` are the freshly generated identifiers a
/// CONNECT may consume: the client identifier assigned when the client
/// chose none, and the internal identifier of a session created by this
/// command; the latter must not collide with a registered session.
pub fn run(
    settings: &BrokerSettings,
    sessions: &mut Sessions,
    packet: Packet,
    peer: &mut Peer,
    shutdown_fired: bool,
    assigned_id: String,
    session_id: String,
) -> (actions: Vec<Action>)
    requires
        (!shutdown_fired && packet matches Packet::Connect(_)) ==> !old(
            sessions,
        ).contains_sid(session_id@),
    ensures
        shutdown_fired ==> {
            &&& actions@.len() == 1
            &&& (actions@[0] matches Action::RespondClose(p) && is_disconnect(
                p,
                ReasonCode::ServerShuttingDown,
            ))
            &&& final(sessions)@ == old(sessions)@
            &&& final(peer).spec_id() == old(peer).spec_id()
            &&& final(peer).spec_session() == old(peer).spec_session()
            &&& final(peer).spec_closing()
        },
        !shutdown_fired ==> match packet {
            Packet::Connect(c) => connect::connect_post(
                old(sessions)@,
                final(sessions)@,
                *old(peer),
                *final(peer),
                actions@,
                *settings,
                c,
                assigned_id,
                session_id,
            ),
            Packet::Subscribe(s) => subscribe::subscribe_post(
                old(sessions)@,
                final(sessions)@,
                *old(peer),
                *final(peer),
                actions@,
                *settings,
                s,
            ),
            Packet::PingReq => {
                &&& actions@.len() == 1
                &&& actions@[0] == Action::Respond(Packet::PingResp)
                &&& final(sessions)@ == old(sessions)@
                &&& *final(peer) == *old(peer)
            },
            Packet::Publish(p) => {
                &&& publish::publish_post(old(sessions).elems(), actions@, p)
                &&& final(sessions)@ == old(sessions)@
                &&& final(sessions).elems() == old(sessions).elems()
                &&& *final(peer) == *old(peer)
            },
            _ => {
                &&& actions@.len() == 1
                &&& (actions@[0] matches Action::RespondClose(p) && is_error_connack(p))
                &&& final(sessions)@ == old(sessions)@
                &&& final(peer).spec_id() == old(peer).spec_id()
                &&& final(peer).spec_session() == old(peer).spec_session()
                &&& final(peer).spec_closing()
            },
        },
{
    if shutdown_fired {
        peer.close();
        return vec![Action::RespondClose(plain_disconnect(ReasonCode::ServerShuttingDown))];
    }
    match packet {
        Packet::Connect(c) => connect::run(settings, sessions, c, peer, assigned_id, session_id),
        Packet::Subscribe(s) => subscribe::run(settings, sessions, s, peer),
        Packet::PingReq => vec![Action::Respond(Packet::PingResp)],
        Packet::Publish(p) => publish::run(p, sessions),
        _ => {
            peer.close();
            vec![
                Action::RespondClose(
                    Packet::ConnAck(
                        crate::packet::ConnAck {
                            reason_code: ReasonCode::ImplementationSpecificError,
                            ..Default::default()
                        },
                    ),
                ),
            ]
        },
    }
}

} // verus!
