use crate::control::Action;
use crate::packet::{Packet, Publish};
use crate::session::Session;
use crate::sessions::Sessions;
use vstd::prelude::*;

verus! {

/// Whether two PUBLISH packets carry the same message: every field agrees,
/// text and byte contents compared by value.
pub open spec fn publish_equiv(a: Publish, b: Publish) -> bool {
    &&& a.duplicate == b.duplicate
    &&& a.qos == b.qos
    &&& a.retain == b.retain
    &&& a.topic_name@ == b.topic_name@
    &&& a.packet_identifier == b.packet_identifier
    &&& a.payload_format_indicator == b.payload_format_indicator
    &&& a.message_expiry_interval == b.message_expiry_interval
    &&& a.topic_alias == b.topic_alias
    &&& match (a.response_topic, b.response_topic) {
        (Some(x), Some(y)) => x@ == y@,
        (None, None) => true,
        _ => false,
    }
    &&& match (a.correlation_data, b.correlation_data) {
        (Some(x), Some(y)) => x@ == y@,
        (None, None) => true,
        _ => false,
    }
    &&& pairs_equiv(a.user_properties@, b.user_properties@)
    &&& a.subscription_identifiers@ == b.subscription_identifiers@
    &&& a.content_type@ == b.content_type@
    &&& a.message@ == b.message@
}

/// Whether two lists of user properties carry the same pairs of strings.
pub open spec fn pairs_equiv(a: Seq<(String, String)>, b: Seq<(String, String)>) -> bool {
    a.len() == b.len() && (forall|i: int|
        0 <= i < a.len() ==> (#[trigger] a[i]).0@ == b[i].0@ && a[i].1@ == b[i].1@)
}

/// Whether the action delivers this message to the peer with handle `p`.
pub open spec fn action_delivers(a: Action, p: u64, publish: Publish) -> bool {
    a matches Action::Send(q, Packet::Publish(x)) && q == p && publish_equiv(x, publish)
}

/// Whether some action of the list delivers this message to the peer with
/// handle `p`.
pub open spec fn delivered_to(actions: Seq<Action>, p: u64, publish: Publish) -> bool {
    exists|j: int| 0 <= j < actions.len() && action_delivers(#[trigger] actions[j], p, publish)
}

/// Whether the action is a delivery of this message to the bound peer of
/// some session whose table holds the topic name.
pub open spec fn action_justified(reg: Seq<Session>, a: Action, publish: Publish) -> bool {
    exists|i: int|
        0 <= i < reg.len() && (#[trigger] reg[i]).spec_subs().dom().contains(publish.topic_name@)
            && reg[i].spec_peer() is Some && action_delivers(a, reg[i].spec_peer()->0, publish)
}

/// What PUBLISH handling does: every session whose table holds the topic
/// name and that has a bound peer receives a copy of the message, and
/// nothing else is emitted.
pub open spec fn publish_post(reg: Seq<Session>, actions: Seq<Action>, publish: Publish) -> bool {
    &&& (forall|i: int|
        0 <= i < reg.len() && (#[trigger] reg[i]).spec_subs().dom().contains(publish.topic_name@)
            && reg[i].spec_peer() is Some ==> delivered_to(
            actions,
            reg[i].spec_peer()->0,
            publish,
        ))
    &&& (forall|j: int|
        0 <= j < actions.len() ==> action_justified(reg, #[trigger] actions[j], publish))
}

/// Copies a byte buffer.
fn copy_bytes(v: &Vec<u8>) -> (r: Vec<u8>)
    ensures
        r@ == v@,
{
    let mut r: Vec<u8> = Vec::new();
    let n = v.len();
    let mut i: usize = 0;
    while i < n
        invariant
            n == v@.len(),
            0 <= i <= n,
            r@ =~= v@.subrange(0, i as int),
        decreases n - i,
    {
        r.push(v[i]);
        i = i + 1;
    }
    proof {
        assert(r@ =~= v@);
    }
    r
}

/// Copies a list of subscription identifiers.
fn copy_u32s(v: &Vec<u32>) -> (r: Vec<u32>)
    ensures
        r@ == v@,
{
    let mut r: Vec<u32> = Vec::new();
    let n = v.len();
    let mut i: usize = 0;
    while i < n
        invariant
            n == v@.len(),
            0 <= i <= n,
            r@ =~= v@.subrange(0, i as int),
        decreases n - i,
    {
        r.push(v[i]);
        i = i + 1;
    }
    proof {
        assert(r@ =~= v@);
    }
    r
}

/// Copies a list of user properties.
fn copy_pairs(v: &Vec<(String, String)>) -> (r: Vec<(String, String)>)
    ensures
        pairs_equiv(r@, v@),
{
    let mut r: Vec<(String, String)> = Vec::new();
    let n = v.len();
    let mut i: usize = 0;
    while i < n
        invariant
            n == v@.len(),
            0 <= i <= n,
            r@.len() == i,
            forall|j: int|
                0 <= j < i ==> (#[trigger] r@[j]).0@ == v@[j].0@ && r@[j].1@ == v@[j].1@,
        decreases n - i,
    {
        let pair = (v[i].0.clone(), v[i].1.clone());
        r.push(pair);
        i = i + 1;
    }
    r
}

/// Copies a PUBLISH packet so that one copy can go to each subscriber.
fn clone_publish(p: &Publish) -> (r: Publish)
    ensures
        publish_equiv(r, *p),
{
    Publish {
        duplicate: p.duplicate,
        qos: p.qos,
        retain: p.retain,
        topic_name: p.topic_name.clone(),
        packet_identifier: p.packet_identifier,
        payload_format_indicator: p.payload_format_indicator,
        message_expiry_interval: p.message_expiry_interval,
        topic_alias: p.topic_alias,
        response_topic: match &p.response_topic {
            Some(t) => Some(t.clone()),
            None => None,
        },
        correlation_data: match &p.correlation_data {
            Some(d) => Some(copy_bytes(d)),
            None => None,
        },
        user_properties: copy_pairs(&p.user_properties),
        subscription_identifiers: copy_u32s(&p.subscription_identifiers),
        content_type: p.content_type.clone(),
        message: copy_bytes(&p.message),
    }
}

/// Handles a PUBLISH command: walks the registry and hands one copy of the
/// message to the bound peer of every session whose subscriptions hold the
/// topic name. QoS is bounded to level 0, so no acknowledgement flow
/// follows.
pub fn run(publish: Publish, sessions: &Sessions) -> (actions: Vec<Action>)
    ensures
        publish_post(sessions.elems(), actions@, publish),
{
    let mut actions: Vec<Action> = Vec::new();
    let n = sessions.len();
    let mut i: usize = 0;
    while i < n
        invariant
            n == sessions.elems().len(),
            0 <= i <= n,
            forall|k: int|
                0 <= k < i && (#[trigger] sessions.elems()[k]).spec_subs().dom().contains(
                    publish.topic_name@,
                ) && sessions.elems()[k].spec_peer() is Some ==> delivered_to(
                actions@,
                sessions.elems()[k].spec_peer()->0,
                publish,
            ),
            forall|j: int|
                0 <= j < actions@.len() ==> action_justified(
                    sessions.elems(),
                    #[trigger] actions@[j],
                    publish,
                ),
        decreases n - i,
    {
        let ghost prev = actions@;
        let session = sessions.at(i);
        let is_match = session.subs().matches(&publish.topic_name);
        if is_match {
            if let Some(p) = session.peer() {
                let copy = clone_publish(&publish);
                actions.push(Action::Send(p, Packet::Publish(copy)));
                proof {
                    assert(action_delivers(actions@[prev.len() as int], p, publish));
                }
            }
        }
        proof {
            assert forall|k: int|
                0 <= k < i + 1 && (#[trigger] sessions.elems()[k]).spec_subs().dom().contains(
                    publish.topic_name@,
                ) && sessions.elems()[k].spec_peer() is Some implies delivered_to(
                actions@,
                sessions.elems()[k].spec_peer()->0,
                publish,
            ) by {
                let pk = sessions.elems()[k].spec_peer()->0;
                if k < i {
                    let j = choose|j: int|
                        0 <= j < prev.len() && action_delivers(#[trigger] prev[j], pk, publish);
                    assert(actions@[j] == prev[j]);
                    assert(action_delivers(actions@[j], pk, publish));
                } else {
                    assert(delivered_to(actions@, pk, publish));
                }
            }
            assert forall|j: int| 0 <= j < actions@.len() implies action_justified(
                sessions.elems(),
                #[trigger] actions@[j],
                publish,
            ) by {
                if j < prev.len() {
                    assert(actions@[j] == prev[j]);
                    assert(action_justified(sessions.elems(), prev[j], publish));
                } else {
                    let s = sessions.elems()[i as int];
                    assert(s.spec_subs().dom().contains(publish.topic_name@));
                    assert(s.spec_peer() is Some);
                    assert(action_delivers(actions@[j], s.spec_peer()->0, publish));
                }
            }
        }
        i = i + 1;
    }
    actions
}

/// Every session that stores the published topic name as a filter and has
/// a bound peer receives the message: the publish actions deliver it to
/// that peer.
pub proof fn lemma_subscribed_topic_is_delivered(
    reg: Seq<Session>,
    actions: Seq<Action>,
    publish: Publish,
    i: int,
)
    requires
        publish_post(reg, actions, publish),
        0 <= i < reg.len(),
        reg[i].spec_subs().dom().contains(publish.topic_name@),
        reg[i].spec_peer() is Some,
    ensures
        delivered_to(actions, reg[i].spec_peer()->0, publish),
{
}

} // verus!
