use crate::packet::SubscriptionOptions;
use crate::subs::Subs;
use vstd::prelude::*;

verus! {

/// A durable client identity, held by the session registry. A session owns
/// the client's subscriptions, keeps the client-chosen (or assigned) client
/// identifier, an internal session identifier that is stable across
/// reconnects, and a handle to the currently bound peer, if any.
#[derive(Debug)]
pub struct Session {
    id: String,
    client_id: String,
    peer: Option<u64>,
    subs: Subs,
}

impl Session {
    /// The internal session identifier. It is not part of MQTT; it tells a
    /// recreated session from the one it replaced under the same client id.
    pub closed spec fn spec_id(&self) -> Seq<char> {
        self.id@
    }

    /// The client identifier this session belongs to.
    pub closed spec fn spec_client_id(&self) -> Seq<char> {
        self.client_id@
    }

    /// The handle of the currently bound peer, if any.
    pub closed spec fn spec_peer(&self) -> Option<u64> {
        self.peer
    }

    /// The subscription table of this session, as a map from filter to
    /// options.
    pub closed spec fn spec_subs(&self) -> Map<Seq<char>, (SubscriptionOptions, Option<u32>)> {
        self.subs@
    }

    /// Creates a new session for the given client identifier, bound to the
    /// given peer, under the given internal session identifier. It has no
    /// subscriptions yet.
    pub fn new(client_id: &String, peer: u64, id: String) -> (r: Session)
        ensures
            r.spec_id() == id@,
            r.spec_client_id() == client_id@,
            r.spec_peer() == Some(peer),
            r.spec_subs() == Map::<Seq<char>, (SubscriptionOptions, Option<u32>)>::empty(),
    {
        Session { id, client_id: client_id.clone(), peer: Some(peer), subs: Subs::new() }
    }

    /// The unique internal identifier of this session.
    pub fn id(&self) -> (r: &str)
        ensures
            r@ == self.spec_id(),
    {
        self.id.as_str()
    }

    /// The client identifier of this session.
    pub fn client_id(&self) -> (r: &str)
        ensures
            r@ == self.spec_client_id(),
    {
        self.client_id.as_str()
    }

    /// Binds the session to another peer, replacing any prior binding.
    pub fn bind(&mut self, peer: u64)
        ensures
            final(self).spec_id() == old(self).spec_id(),
            final(self).spec_client_id() == old(self).spec_client_id(),
            final(self).spec_peer() == Some(peer),
            final(self).spec_subs() == old(self).spec_subs(),
    {
        self.peer = Some(peer);
    }

    /// Whether this session belongs to the given client identifier.
    pub fn client_id_is(&self, other: &String) -> (r: bool)
        ensures
            r == (self.spec_client_id() == other@),
    {
        self.client_id == *other
    }

    /// Whether this session carries the given internal session identifier.
    pub fn id_is(&self, other: &String) -> (r: bool)
        ensures
            r == (self.spec_id() == other@),
    {
        self.id == *other
    }

    /// The handle of the currently bound peer, if any.
    pub fn peer(&self) -> (r: Option<u64>)
        ensures
            r == self.spec_peer(),
    {
        self.peer
    }

    /// The subscriptions this session has.
    pub fn subs(&self) -> (r: &Subs)
        ensures
            r@ == self.spec_subs(),
    {
        &self.subs
    }

    /// Adds a subscription for the given filter to this session, replacing
    /// any prior entry for the same filter. Returns whether an entry was
    /// replaced.
    pub fn subscribe(
        &mut self,
        topic: String,
        options: SubscriptionOptions,
        identifier: Option<u32>,
    ) -> (replaced: bool)
        ensures
            final(self).spec_id() == old(self).spec_id(),
            final(self).spec_client_id() == old(self).spec_client_id(),
            final(self).spec_peer() == old(self).spec_peer(),
            final(self).spec_subs() == old(self).spec_subs().insert(
                topic@,
                (options, identifier),
            ),
            replaced == old(self).spec_subs().dom().contains(topic@),
    {
        self.subs.add(topic, options, identifier)
    }

    /// A session's subscription table is always finite.
    pub proof fn lemma_subs_finite(&self)
        ensures
            self.spec_subs().dom().finite(),
    {
        self.subs.lemma_finite();
    }
}

} // verus!
