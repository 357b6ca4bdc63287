use crate::broker_settings::BrokerSettings;
use crate::control::{is_disconnect, Action};
use crate::packet::{ConnAck, Disconnect, Connect, Packet, ReasonCode, SubscriptionOptions};
use crate::peer::Peer;
use crate::session::Session;
use crate::sessions::Sessions;
use vstd::prelude::*;
use vstd::string::StringExecFns;

verus! {

/// The reason code of the CONNACK: enhanced authentication and user names
/// are not supported, everything else is accepted.
pub open spec fn spec_connect_reason(connect: Connect) -> ReasonCode {
    if connect.authentication is Some || connect.user_name is Some {
        ReasonCode::BadAuthenticationMethod
    } else {
        ReasonCode::Success
    }
}

/// The granted session expiry interval: the server's value when forced,
/// otherwise the client's value, falling back to the server's.
pub open spec fn spec_session_expiry(settings: BrokerSettings, connect: Connect) -> Option<u32> {
    if settings.force_session_expiry_interval {
        settings.session_expiry_interval
    } else if connect.session_expiry_interval is Some {
        connect.session_expiry_interval
    } else {
        settings.session_expiry_interval
    }
}

/// The granted maximum packet size: the smaller of the two when both sides
/// name one, the one that is named otherwise, unset when neither is.
pub open spec fn spec_max_packet_size(client: Option<u32>, server: Option<u32>) -> Option<u32> {
    match (client, server) {
        (Some(a), Some(b)) => if a < b {
            Some(a)
        } else {
            Some(b)
        },
        (None, Some(a)) => Some(a),
        (Some(a), None) => Some(a),
        (None, None) => None,
    }
}

/// What the CONNACK answering `connect` under `settings` holds, field by
/// field. `assigned` is the identifier generated for a client that chose no
/// client identifier, and `present` the session-present flag the CONNECT
/// handler decides.
pub open spec fn connack_matches(
    ack: ConnAck,
    settings: BrokerSettings,
    connect: Connect,
    assigned: String,
    present: bool,
) -> bool {
    &&& ack.session_present == present
    &&& ack.reason_code == spec_connect_reason(connect)
    &&& ack.session_expiry_interval == spec_session_expiry(settings, connect)
    &&& ack.receive_maximum == (if connect.receive_maximum < settings.receive_maximum {
        connect.receive_maximum
    } else {
        settings.receive_maximum
    })
    &&& ack.maximum_qos == settings.maximum_qos
    &&& ack.retain_available == settings.retain_enabled
    &&& ack.maximum_packet_size == spec_max_packet_size(
        connect.maximum_packet_size,
        settings.maximum_packet_size,
    )
    &&& ack.assigned_client_id == (if connect.client_id is Some {
        Option::<String>::None
    } else {
        Some(assigned)
    })
    &&& ack.topic_alias_maximum == (if settings.topic_alias_maximum
        < connect.topic_alias_maximum {
        settings.topic_alias_maximum
    } else {
        connect.topic_alias_maximum
    })
    &&& match ack.reason_string {
        Some(s) => spec_connect_reason(connect) == ReasonCode::BadAuthenticationMethod && s@
            == "Enhanced authentication is not supported"@,
        None => spec_connect_reason(connect) == ReasonCode::Success,
    }
    &&& ack.user_properties@ == Seq::<(String, String)>::empty()
    &&& !ack.wildcard_subscription_available
    &&& !ack.subscription_identifiers_available
    &&& !ack.shared_subscription_available
    &&& ack.keep_alive == (if settings.force_keep_alive {
        Some(settings.keep_alive)
    } else {
        Option::<u16>::None
    })
    &&& ack.response_information is None
    &&& ack.reference is None
    &&& ack.authentication is None
}

/// The client identifier a CONNECT asserts: its own, or the assigned one
/// when it chose none.
pub open spec fn spec_chosen_client_id(connect: Connect, assigned: String) -> Seq<char> {
    match connect.client_id {
        Some(c) => c@,
        None => assigned@,
    }
}

/// Computes the CONNACK answering `connect` under the broker policy in
/// `settings`. Pure: the generated identifier a client without one would be
/// assigned is handed in as `assigned`.
pub fn acknowledge_connect(settings: &BrokerSettings, connect: &Connect, assigned: String) -> (ack:
    ConnAck)
    ensures
        connack_matches(ack, *settings, *connect, assigned, false),
{
    let session_expiry_interval = if settings.force_session_expiry_interval {
        settings.session_expiry_interval
    } else if connect.session_expiry_interval.is_some() {
        connect.session_expiry_interval
    } else {
        settings.session_expiry_interval
    };

    let receive_maximum = if connect.receive_maximum < settings.receive_maximum {
        connect.receive_maximum
    } else {
        settings.receive_maximum
    };

    let maximum_packet_size = match (connect.maximum_packet_size, settings.maximum_packet_size) {
        (Some(a), Some(b)) => if a < b {
            Some(a)
        } else {
            Some(b)
        },
        (None, Some(a)) => Some(a),
        (Some(a), None) => Some(a),
        (None, None) => None,
    };

    let assigned_client_id = if connect.client_id.is_some() {
        None
    } else {
        Some(assigned)
    };

    let topic_alias_maximum = if settings.topic_alias_maximum < connect.topic_alias_maximum {
        settings.topic_alias_maximum
    } else {
        connect.topic_alias_maximum
    };

    let keep_alive = if settings.force_keep_alive {
        Some(settings.keep_alive)
    } else {
        None
    };

    let bad_auth = connect.authentication.is_some() || connect.user_name.is_some();
    let (reason_code, reason_string) = if bad_auth {
        (
            ReasonCode::BadAuthenticationMethod,
            Some(String::from_str("Enhanced authentication is not supported")),
        )
    } else {
        (ReasonCode::Success, None)
    };

    ConnAck {
        session_present: false,
        reason_code,
        session_expiry_interval,
        receive_maximum,
        maximum_qos: settings.maximum_qos,
        retain_available: settings.retain_enabled,
        maximum_packet_size,
        assigned_client_id,
        topic_alias_maximum,
        reason_string,
        user_properties: Vec::new(),
        wildcard_subscription_available: false,
        subscription_identifiers_available: false,
        shared_subscription_available: false,
        keep_alive,
        response_information: None,
        reference: None,
        authentication: None,
    }
}

/// What CONNECT handling does: the CONNACK sent, the takeover disconnect
/// when an older peer held the session, and the registry and peer state
/// afterwards.
pub open spec fn connect_post(
    pre_reg: Map<Seq<char>, Session>,
    post_reg: Map<Seq<char>, Session>,
    pre_peer: Peer,
    post_peer: Peer,
    actions: Seq<Action>,
    settings: BrokerSettings,
    connect: Connect,
    assigned: String,
    session_id: String,
) -> bool {
    let cid = spec_chosen_client_id(connect, assigned);
    if spec_connect_reason(connect) != ReasonCode::Success {
        // Rejected: one CONNACK, the peer closes, nothing else changes.
        &&& actions.len() == 1
        &&& (actions[0] matches Action::RespondClose(Packet::ConnAck(a)) && connack_matches(
            a,
            settings,
            connect,
            assigned,
            false,
        ))
        &&& post_reg == pre_reg
        &&& post_peer.spec_id() == pre_peer.spec_id()
        &&& post_peer.spec_session() == pre_peer.spec_session()
        &&& post_peer.spec_closing()
    } else {
        let existing = pre_reg.dom().contains(cid);
        let takeover = existing && pre_reg[cid].spec_peer() is Some;
        let reuse = existing && !connect.clean_start;
        // The prior peer of the session, if any, is told of the takeover
        // and closed, before the new peer hears anything.
        &&& actions.len() == (if takeover {
            2int
        } else {
            1int
        })
        &&& (takeover ==> (actions[0] matches Action::SendClose(p, pkt)
            && p == pre_reg[cid].spec_peer()->0
            && is_disconnect(pkt, ReasonCode::SessionTakenOver)))
        // The new peer receives the CONNACK; the session is present exactly
        // when an existing session is resumed.
        &&& (actions.last() matches Action::Respond(Packet::ConnAck(a)) && connack_matches(
            a,
            settings,
            connect,
            assigned,
            reuse,
        ))
        // Exactly one session for this client identifier afterwards; every
        // other entry of the registry is untouched.
        &&& post_reg.dom() == pre_reg.dom().insert(cid)
        &&& (forall|k: Seq<char>|
            #![auto]
            post_reg.dom().contains(k) && k != cid ==> post_reg[k] == pre_reg[k])
        &&& post_reg[cid].spec_client_id() == cid
        &&& post_reg[cid].spec_peer() == Some(pre_peer.spec_id())
        // With clean start (or no prior session) the session is new: it
        // carries the fresh identifier and no subscriptions. Otherwise the
        // prior session is reused: identifier and subscriptions survive.
        &&& (if reuse {
            post_reg[cid].spec_id() == pre_reg[cid].spec_id() && post_reg[cid].spec_subs()
                == pre_reg[cid].spec_subs()
        } else {
            post_reg[cid].spec_id() == session_id@ && post_reg[cid].spec_subs() == Map::<
                Seq<char>,
                (SubscriptionOptions, Option<u32>),
            >::empty()
        })
        &&& post_peer.spec_id() == pre_peer.spec_id()
        &&& post_peer.spec_session() == Some(post_reg[cid].spec_id())
        &&& post_peer.spec_closing() == pre_peer.spec_closing()
    }
}

/// Handles a CONNECT command: computes the CONNACK, and on success takes
/// over or creates the session for the asserted client identifier, binds it
/// to the peer the command came from, and answers with the CONNACK.
/// `assigned_id` and `session_id` are the freshly generated identifiers
/// this may consume; the session identifier must not collide with a
/// registered one.
pub fn run(
    settings: &BrokerSettings,
    sessions: &mut Sessions,
    connect: Connect,
    peer: &mut Peer,
    assigned_id: String,
    session_id: String,
) -> (actions: Vec<Action>)
    requires
        !old(sessions).contains_sid(session_id@),
    ensures
        connect_post(
            old(sessions)@,
            final(sessions)@,
            *old(peer),
            *final(peer),
            actions@,
            *settings,
            connect,
            assigned_id,
            session_id,
        ),
{
    let cid: String = match &connect.client_id {
        Some(c) => c.clone(),
        None => assigned_id.clone(),
    };
    let mut ack = acknowledge_connect(settings, &connect, assigned_id);

    if !matches!(ack.reason_code, ReasonCode::Success) {
        peer.close();
        return vec![Action::RespondClose(Packet::ConnAck(ack))];
    }

    let mut actions: Vec<Action> = Vec::new();
    let clean_start = connect.clean_start;

    let session: Session = match sessions.take(&cid) {
        Some(mut existing) => {
            // The existing session is being taken over: its prior peer, if
            // it is still around, is disconnected.
            if let Some(prior) = existing.peer() {
                actions.push(
                    Action::SendClose(
                        prior,
                        Packet::Disconnect(
                            Disconnect {
                                reason_code: ReasonCode::SessionTakenOver,
                                ..Default::default()
                            },
                        ),
                    ),
                );
            }
            if clean_start {
                ack.session_present = false;
                Session::new(&cid, peer.id(), session_id)
            } else {
                ack.session_present = true;
                existing.bind(peer.id());
                existing
            }
        },
        None => {
            ack.session_present = false;
            Session::new(&cid, peer.id(), session_id)
        },
    };

    let bound: String = session.id().to_owned();
    sessions.add(session);
    peer.bind(bound);
    actions.push(Action::Respond(Packet::ConnAck(ack)));
    proof {
        assert(sessions@.dom() =~= old(sessions)@.dom().insert(
            spec_chosen_client_id(connect, assigned_id),
        ));
    }
    actions
}

/// For every CONNECT answered with a successful CONNACK, exactly one
/// session stands in the registry for the asserted client identifier right
/// after the answer: the identifier maps to a single session carrying it,
/// and no other entry of the registry changed.
pub proof fn lemma_connect_success_registers(
    pre_reg: Map<Seq<char>, Session>,
    post_reg: Map<Seq<char>, Session>,
    pre_peer: Peer,
    post_peer: Peer,
    actions: Seq<Action>,
    settings: BrokerSettings,
    connect: Connect,
    assigned: String,
    session_id: String,
)
    requires
        connect_post(
            pre_reg,
            post_reg,
            pre_peer,
            post_peer,
            actions,
            settings,
            connect,
            assigned,
            session_id,
        ),
        spec_connect_reason(connect) == ReasonCode::Success,
        pre_reg.dom().finite(),
    ensures
        post_reg.dom().contains(spec_chosen_client_id(connect, assigned)),
        post_reg[spec_chosen_client_id(connect, assigned)].spec_client_id()
            == spec_chosen_client_id(connect, assigned),
        post_reg.dom().len() == pre_reg.dom().len() + (if pre_reg.dom().contains(
            spec_chosen_client_id(connect, assigned),
        ) {
            0int
        } else {
            1
        }),
{
}

/// When a CONNECT succeeds for a client identifier whose session is bound
/// to an older peer, that peer is sent a DISCONNECT with reason
/// `SessionTakenOver` and closed, before the new peer hears its CONNACK.
pub proof fn lemma_takeover_disconnects_prior_peer(
    pre_reg: Map<Seq<char>, Session>,
    post_reg: Map<Seq<char>, Session>,
    pre_peer: Peer,
    post_peer: Peer,
    actions: Seq<Action>,
    settings: BrokerSettings,
    connect: Connect,
    assigned: String,
    session_id: String,
)
    requires
        connect_post(
            pre_reg,
            post_reg,
            pre_peer,
            post_peer,
            actions,
            settings,
            connect,
            assigned,
            session_id,
        ),
        spec_connect_reason(connect) == ReasonCode::Success,
        pre_reg.dom().contains(spec_chosen_client_id(connect, assigned)),
        pre_reg[spec_chosen_client_id(connect, assigned)].spec_peer() is Some,
    ensures
        actions.len() == 2,
        (actions[0] matches Action::SendClose(p, pkt) && p == pre_reg[
            spec_chosen_client_id(connect, assigned)
        ].spec_peer()->0 && is_disconnect(pkt, ReasonCode::SessionTakenOver)),
        (actions[1] matches Action::Respond(Packet::ConnAck(a)) && a.reason_code
            == ReasonCode::Success),
{
    assert(actions.last() == actions[1]);
}

/// With clean start, the session a reconnect produces carries the freshly
/// generated internal identifier: as long as that identifier differs from
/// the prior session's, the reconnect changes the session identifier.
/// Without clean start the prior identifier is preserved.
pub proof fn lemma_clean_start_session_id(
    pre_reg: Map<Seq<char>, Session>,
    post_reg: Map<Seq<char>, Session>,
    pre_peer: Peer,
    post_peer: Peer,
    actions: Seq<Action>,
    settings: BrokerSettings,
    connect: Connect,
    assigned: String,
    session_id: String,
)
    requires
        connect_post(
            pre_reg,
            post_reg,
            pre_peer,
            post_peer,
            actions,
            settings,
            connect,
            assigned,
            session_id,
        ),
        spec_connect_reason(connect) == ReasonCode::Success,
        pre_reg.dom().contains(spec_chosen_client_id(connect, assigned)),
    ensures
        connect.clean_start ==> post_reg[spec_chosen_client_id(connect, assigned)].spec_id()
            == session_id@,
        (connect.clean_start && pre_reg[spec_chosen_client_id(connect, assigned)].spec_id()
            != session_id@) ==> post_reg[spec_chosen_client_id(connect, assigned)].spec_id()
            != pre_reg[spec_chosen_client_id(connect, assigned)].spec_id(),
        !connect.clean_start ==> post_reg[spec_chosen_client_id(connect, assigned)].spec_id()
            == pre_reg[spec_chosen_client_id(connect, assigned)].spec_id(),
{
}

} // verus!
