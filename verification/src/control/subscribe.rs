use crate::broker_settings::BrokerSettings;
use crate::control::Action;
use crate::packet::{Packet, ReasonCode, SubAck, Subscribe, SubscriptionOptions};
use crate::peer::Peer;
use crate::session::Session;
use crate::sessions::{reg_has_sid, Sessions};
use crate::subs::{has_wildcards, is_shared, spec_has_wildcards, spec_is_shared};
use vstd::prelude::*;

verus! {

/// The reason code recorded for one requested subscription: wildcard
/// filters, shared subscription forms and QoS levels above the broker's
/// maximum are rejected, everything else is accepted.
pub open spec fn spec_filter_code(
    settings: BrokerSettings,
    filter: Seq<char>,
    options: SubscriptionOptions,
) -> ReasonCode {
    if spec_has_wildcards(filter) {
        ReasonCode::WildcardSubscriptionsNotSupported
    } else if spec_is_shared(filter) {
        ReasonCode::SharedSubscriptionsNotSupported
    } else if options.qos.level() > settings.maximum_qos.level() {
        ReasonCode::QoSNotSupported
    } else {
        ReasonCode::Success
    }
}

/// The reason codes of the SUBACK, one per requested subscription, in
/// request order.
pub open spec fn spec_reason_codes(
    settings: BrokerSettings,
    subs: Seq<(String, SubscriptionOptions)>,
) -> Seq<ReasonCode> {
    Seq::new(subs.len(), |i: int| spec_filter_code(settings, subs[i].0@, subs[i].1))
}

/// `n` copies of one reason code.
pub open spec fn uniform_codes(n: nat, code: ReasonCode) -> Seq<ReasonCode> {
    Seq::new(n, |i: int| code)
}

/// The subscription table after the accepted entries of the request are
/// added in order (the last entry for a filter wins), the rejected entries
/// skipped. Accepted subscriptions are stored without a subscription
/// identifier.
pub open spec fn apply_subscriptions(
    m: Map<Seq<char>, (SubscriptionOptions, Option<u32>)>,
    settings: BrokerSettings,
    subs: Seq<(String, SubscriptionOptions)>,
) -> Map<Seq<char>, (SubscriptionOptions, Option<u32>)>
    decreases subs.len(),
{
    if subs.len() == 0 {
        m
    } else {
        let rest = apply_subscriptions(m, settings, subs.drop_last());
        let entry = subs.last();
        if spec_filter_code(settings, entry.0@, entry.1) == ReasonCode::Success {
            rest.insert(entry.0@, (entry.1, Option::<u32>::None))
        } else {
            rest
        }
    }
}

/// Whether the packet is the SUBACK with this identifier and these reason
/// codes, and nothing else.
pub open spec fn is_suback(p: Packet, pid: u16, codes: Seq<ReasonCode>) -> bool {
    p matches Packet::SubAck(a) && a.packet_identifier == pid && a.reason_codes@ == codes
        && a.user_properties@ == Seq::<(String, String)>::empty()
}

/// What SUBSCRIBE handling does. A peer without a live bound session is
/// answered with `UnspecifiedError` for every filter and closed. A request
/// carrying a subscription identifier is answered with
/// `SubscriptionIdentifiersNotSupported` for every filter and the peer is
/// closed. Otherwise each filter is checked, the accepted ones enter the
/// session's table, and one SUBACK echoes the packet identifier with the
/// reason codes in request order.
pub open spec fn subscribe_post(
    pre_reg: Map<Seq<char>, Session>,
    post_reg: Map<Seq<char>, Session>,
    pre_peer: Peer,
    post_peer: Peer,
    actions: Seq<Action>,
    settings: BrokerSettings,
    packet: Subscribe,
) -> bool {
    let n = packet.subscriptions@.len();
    let pid = packet.packet_identifier;
    if pre_peer.spec_session() is None || !reg_has_sid(pre_reg, pre_peer.spec_session()->0) {
        &&& actions.len() == 1
        &&& (actions[0] matches Action::RespondClose(p) && is_suback(
            p,
            pid,
            uniform_codes(n, ReasonCode::UnspecifiedError),
        ))
        &&& post_reg == pre_reg
        &&& post_peer.spec_id() == pre_peer.spec_id()
        &&& post_peer.spec_session() == pre_peer.spec_session()
        &&& post_peer.spec_closing()
    } else if packet.subscription_identifier is Some {
        &&& actions.len() == 1
        &&& (actions[0] matches Action::RespondClose(p) && is_suback(
            p,
            pid,
            uniform_codes(n, ReasonCode::SubscriptionIdentifiersNotSupported),
        ))
        &&& post_reg == pre_reg
        &&& post_peer.spec_id() == pre_peer.spec_id()
        &&& post_peer.spec_session() == pre_peer.spec_session()
        &&& post_peer.spec_closing()
    } else {
        let sid = pre_peer.spec_session()->0;
        &&& actions.len() == 1
        &&& (actions[0] matches Action::Respond(p) && is_suback(
            p,
            pid,
            spec_reason_codes(settings, packet.subscriptions@),
        ))
        &&& post_peer.spec_id() == pre_peer.spec_id()
        &&& post_peer.spec_session() == pre_peer.spec_session()
        &&& post_peer.spec_closing() == pre_peer.spec_closing()
        &&& exists|k: Seq<char>|
            {
                &&& #[trigger] pre_reg.dom().contains(k)
                &&& pre_reg[k].spec_id() == sid
                &&& post_reg.dom() == pre_reg.dom()
                &&& (forall|k2: Seq<char>|
                    #![auto]
                    post_reg.dom().contains(k2) && k2 != k ==> post_reg[k2] == pre_reg[k2])
                &&& post_reg[k].spec_id() == pre_reg[k].spec_id()
                &&& post_reg[k].spec_client_id() == pre_reg[k].spec_client_id()
                &&& post_reg[k].spec_peer() == pre_reg[k].spec_peer()
                &&& post_reg[k].spec_subs() == apply_subscriptions(
                    pre_reg[k].spec_subs(),
                    settings,
                    packet.subscriptions@,
                )
            }
    }
}

/// `n` copies of one reason code, as a vector.
fn uniform_vec(n: usize, code: ReasonCode) -> (r: Vec<ReasonCode>)
    ensures
        r@ == uniform_codes(n as nat, code),
{
    let mut r: Vec<ReasonCode> = Vec::new();
    let mut i: usize = 0;
    while i < n
        invariant
            0 <= i <= n,
            r@.len() == i,
            forall|j: int| 0 <= j < i ==> r@[j] == code,
        decreases n - i,
    {
        r.push(code);
        i = i + 1;
    }
    proof {
        assert(r@ =~= uniform_codes(n as nat, code));
    }
    r
}

/// Handles a SUBSCRIBE command for the session bound to the peer the
/// command came from.
pub fn run(
    settings: &BrokerSettings,
    sessions: &mut Sessions,
    packet: Subscribe,
    peer: &mut Peer,
) -> (actions: Vec<Action>)
    ensures
        subscribe_post(
            old(sessions)@,
            final(sessions)@,
            *old(peer),
            *final(peer),
            actions@,
            *settings,
            packet,
        ),
{
    let n = packet.subscriptions.len();

    // Upgrade the peer's session handle against the registry.
    let mut bound: Option<String> = None;
    match peer.session() {
        Some(sid) => {
            match sessions.find_by_session_id(sid) {
                Some(s) => {
                    bound = Some(s.client_id().to_owned());
                },
                None => {},
            }
        },
        None => {},
    }

    match bound {
        None => {
            // No live session: refuse every filter and close the peer.
            let ack = SubAck {
                packet_identifier: packet.packet_identifier,
                user_properties: Vec::new(),
                reason_codes: uniform_vec(n, ReasonCode::UnspecifiedError),
            };
            peer.close();
            vec![Action::RespondClose(Packet::SubAck(ack))]
        },
        Some(cid) => {
            if packet.subscription_identifier.is_some() {
                let ack = SubAck {
                    packet_identifier: packet.packet_identifier,
                    user_properties: Vec::new(),
                    reason_codes: uniform_vec(n, ReasonCode::SubscriptionIdentifiersNotSupported),
                };
                peer.close();
                return vec![Action::RespondClose(Packet::SubAck(ack))];
            }
            let taken = sessions.take(&cid);
            let mut sess = taken.unwrap();
            let ghost pre_sess = sess;
            let mut codes: Vec<ReasonCode> = Vec::new();
            let mut i: usize = 0;
            while i < n
                invariant
                    n == packet.subscriptions@.len(),
                    0 <= i <= n,
                    codes@.len() == i,
                    forall|j: int|
                        0 <= j < i ==> codes@[j] == spec_filter_code(
                            *settings,
                            #[trigger] packet.subscriptions@[j].0@,
                            packet.subscriptions@[j].1,
                        ),
                    sess.spec_id() == pre_sess.spec_id(),
                    sess.spec_client_id() == pre_sess.spec_client_id(),
                    sess.spec_peer() == pre_sess.spec_peer(),
                    sess.spec_subs() == apply_subscriptions(
                        pre_sess.spec_subs(),
                        *settings,
                        packet.subscriptions@.take(i as int),
                    ),
                decreases n - i,
            {
                let entry = &packet.subscriptions[i];
                let code = if has_wildcards(entry.0.as_str()) {
                    ReasonCode::WildcardSubscriptionsNotSupported
                } else if is_shared(entry.0.as_str()) {
                    ReasonCode::SharedSubscriptionsNotSupported
                } else {
                    settings.check_qos(entry.1.qos)
                };
                codes.push(code);
                if matches!(code, ReasonCode::Success) {
                    let _ = sess.subscribe(entry.0.clone(), entry.1, None);
                }
                proof {
                    assert(packet.subscriptions@.take(i as int + 1).drop_last()
                        =~= packet.subscriptions@.take(i as int));
                    assert(packet.subscriptions@.take(i as int + 1).last()
                        == packet.subscriptions@[i as int]);
                }
                i = i + 1;
            }
            let ack = SubAck {
                packet_identifier: packet.packet_identifier,
                user_properties: Vec::new(),
                reason_codes: codes,
            };
            sessions.add(sess);
            proof {
                assert(packet.subscriptions@.take(n as int) =~= packet.subscriptions@);
                assert(ack.reason_codes@ =~= spec_reason_codes(
                    *settings,
                    packet.subscriptions@,
                ));
                assert(sessions@.dom() =~= old(sessions)@.dom());
            }
            vec![Action::Respond(Packet::SubAck(ack))]
        },
    }
}

/// An accepted subscription stands in the table afterwards: when the code
/// recorded for entry `i` of the request is `Success`, the filter of that
/// entry is among the session's filters once the request is applied.
pub proof fn lemma_accepted_subscription_stored(
    m: Map<Seq<char>, (SubscriptionOptions, Option<u32>)>,
    settings: BrokerSettings,
    subs: Seq<(String, SubscriptionOptions)>,
    i: int,
)
    requires
        0 <= i < subs.len(),
        spec_filter_code(settings, subs[i].0@, subs[i].1) == ReasonCode::Success,
    ensures
        apply_subscriptions(m, settings, subs).dom().contains(subs[i].0@),
    decreases subs.len(),
{
    if i == subs.len() - 1 {
    } else {
        assert(subs.drop_last()[i] == subs[i]);
        lemma_accepted_subscription_stored(m, settings, subs.drop_last(), i);
    }
}

} // verus!
