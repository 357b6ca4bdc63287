use crate::session::Session;
use vstd::prelude::*;

verus! {

/// The mathematical content of the registry: the map from client identifier
/// to session that the list of sessions represents, later entries overriding
/// earlier ones.
pub open spec fn registry_view(s: Seq<Session>) -> Map<Seq<char>, Session>
    decreases s.len(),
{
    if s.len() == 0 {
        Map::empty()
    } else {
        registry_view(s.drop_last()).insert(s.last().spec_client_id(), s.last())
    }
}

/// Whether no two sessions of the list share a client identifier.
pub open spec fn distinct_client_ids(s: Seq<Session>) -> bool {
    forall|i: int, j: int|
        0 <= i < j < s.len() ==> s[i].spec_client_id() != s[j].spec_client_id()
}

/// Whether no two sessions of the list share an internal session identifier.
pub open spec fn distinct_session_ids(s: Seq<Session>) -> bool {
    forall|i: int, j: int| 0 <= i < j < s.len() ==> s[i].spec_id() != s[j].spec_id()
}

/// Whether some session of the list has the given internal session
/// identifier.
pub open spec fn seq_contains_sid(s: Seq<Session>, sid: Seq<char>) -> bool {
    exists|i: int| 0 <= i < s.len() && s[i].spec_id() == sid
}

/// Whether some session of the registry map carries the given internal
/// session identifier.
pub open spec fn reg_has_sid(reg: Map<Seq<char>, Session>, sid: Seq<char>) -> bool {
    exists|k: Seq<char>| #[trigger] reg.dom().contains(k) && reg[k].spec_id() == sid
}

proof fn lemma_registry_view_dom(s: Seq<Session>)
    ensures
        forall|c: Seq<char>|
            #[trigger] registry_view(s).dom().contains(c) <==> exists|i: int|
                0 <= i < s.len() && s[i].spec_client_id() == c,
        registry_view(s).dom().finite(),
    decreases s.len(),
{
    if s.len() > 0 {
        lemma_registry_view_dom(s.drop_last());
        assert forall|c: Seq<char>| #[trigger] registry_view(s).dom().contains(c) implies exists|
            i: int,
        |
            0 <= i < s.len() && s[i].spec_client_id() == c by {
            if c == s.last().spec_client_id() {
                assert(s[s.len() - 1].spec_client_id() == c);
            } else {
                let i = choose|i: int|
                    0 <= i < s.drop_last().len() && s.drop_last()[i].spec_client_id() == c;
                assert(s[i].spec_client_id() == c);
            }
        }
        assert forall|c: Seq<char>|
            (exists|i: int| 0 <= i < s.len() && s[i].spec_client_id() == c) implies
            #[trigger] registry_view(s).dom().contains(c) by {
            let i = choose|i: int| 0 <= i < s.len() && s[i].spec_client_id() == c;
            if i < s.len() - 1 {
                assert(s.drop_last()[i].spec_client_id() == c);
            }
        }
    }
}

proof fn lemma_registry_view_len(s: Seq<Session>)
    requires
        distinct_client_ids(s),
    ensures
        registry_view(s).dom().len() == s.len(),
    decreases s.len(),
{
    lemma_registry_view_dom(s);
    if s.len() > 0 {
        let rest = s.drop_last();
        assert(distinct_client_ids(rest));
        lemma_registry_view_len(rest);
        lemma_registry_view_dom(rest);
        assert(!registry_view(rest).dom().contains(s.last().spec_client_id()));
        assert(registry_view(s).dom() =~= registry_view(rest).dom().insert(
            s.last().spec_client_id(),
        ));
    }
}

proof fn lemma_registry_view_get(s: Seq<Session>, i: int)
    requires
        distinct_client_ids(s),
        0 <= i < s.len(),
    ensures
        registry_view(s).dom().contains(s[i].spec_client_id()),
        registry_view(s)[s[i].spec_client_id()] == s[i],
    decreases s.len(),
{
    lemma_registry_view_dom(s);
    if i == s.len() - 1 {
    } else {
        let rest = s.drop_last();
        assert(rest[i] == s[i]);
        lemma_registry_view_get(rest, i);
        assert(s[i].spec_client_id() != s.last().spec_client_id());
    }
}

proof fn lemma_registry_view_remove(s: Seq<Session>, i: int)
    requires
        distinct_client_ids(s),
        0 <= i < s.len(),
    ensures
        registry_view(s.remove(i)) =~= registry_view(s).remove(s[i].spec_client_id()),
    decreases s.len(),
{
    lemma_registry_view_dom(s);
    lemma_registry_view_dom(s.remove(i));
    if i == s.len() - 1 {
        assert(s.remove(i) =~= s.drop_last());
        lemma_registry_view_dom(s.drop_last());
        assert(!registry_view(s.drop_last()).dom().contains(s.last().spec_client_id()));
        assert(registry_view(s.drop_last()) =~= registry_view(s.drop_last()).insert(
            s.last().spec_client_id(),
            s.last(),
        ).remove(s.last().spec_client_id()));
    } else {
        let rest = s.drop_last();
        assert(rest[i] == s[i]);
        lemma_registry_view_remove(rest, i);
        assert(s.remove(i).drop_last() =~= rest.remove(i));
        assert(s.remove(i).last() == s.last());
        assert(s[i].spec_client_id() != s.last().spec_client_id());
        assert(registry_view(s.remove(i)) =~= registry_view(rest.remove(i)).insert(
            s.last().spec_client_id(),
            s.last(),
        ));
        assert(registry_view(rest.remove(i)).insert(s.last().spec_client_id(), s.last())
            =~= registry_view(rest).insert(s.last().spec_client_id(), s.last()).remove(
            s[i].spec_client_id(),
        ));
    }
}

/// The session registry: the set of sessions the broker knows, keyed by
/// client identifier. At most one session exists per client identifier at
/// any time, and every session in the registry has its own stable internal
/// session identifier.
#[derive(Debug)]
pub struct Sessions {
    db: Vec<Session>,
}

impl View for Sessions {
    type V = Map<Seq<char>, Session>;

    closed spec fn view(&self) -> Map<Seq<char>, Session> {
        registry_view(self.db@)
    }
}

impl Sessions {
    #[verifier::type_invariant]
    spec fn wf(&self) -> bool {
        distinct_client_ids(self.db@) && distinct_session_ids(self.db@)
    }

    /// The sessions of the registry, in storage order.
    pub closed spec fn elems(&self) -> Seq<Session> {
        self.db@
    }

    /// Whether some session in the registry has the given internal session
    /// identifier.
    pub open spec fn contains_sid(&self, sid: Seq<char>) -> bool {
        seq_contains_sid(self.elems(), sid)
    }

    /// Builds a new, empty registry.
    pub fn new() -> (r: Sessions)
        ensures
            r@ == Map::<Seq<char>, Session>::empty(),
            r.elems() =~= Seq::<Session>::empty(),
    {
        Sessions { db: Vec::new() }
    }

    /// The registry always holds finitely many sessions.
    pub proof fn lemma_finite(&self)
        ensures
            self@.dom().finite(),
    {
        lemma_registry_view_dom(self.db@);
    }

    /// The number of sessions in the registry.
    pub fn len(&self) -> (r: usize)
        ensures
            r == self@.dom().len(),
            r == self.elems().len(),
            self@.dom().finite(),
    {
        proof {
            use_type_invariant(&*self);
            lemma_registry_view_dom(self.db@);
            lemma_registry_view_len(self.db@);
        }
        self.db.len()
    }

    /// Whether the registry holds no session.
    pub fn is_empty(&self) -> (r: bool)
        ensures
            r == (self@.dom().len() == 0),
    {
        self.len() == 0
    }

    /// The session at the given storage position. It is registered in the
    /// registry under its client identifier.
    pub fn at(&self, i: usize) -> (r: &Session)
        requires
            i < self.elems().len(),
        ensures
            *r == self.elems()[i as int],
            self@.dom().contains(r.spec_client_id()),
            self@[r.spec_client_id()] == *r,
    {
        proof {
            use_type_invariant(&*self);
            lemma_registry_view_get(self.db@, i as int);
        }
        &self.db[i]
    }

    /// Atomically removes and returns the session with the given client
    /// identifier, if one exists.
    pub fn take(&mut self, client_id: &String) -> (r: Option<Session>)
        ensures
            match r {
                Some(s) => {
                    &&& old(self)@.dom().contains(client_id@)
                    &&& s == old(self)@[client_id@]
                    &&& s.spec_client_id() == client_id@
                    &&& final(self)@ == old(self)@.remove(client_id@)
                    &&& !final(self).contains_sid(s.spec_id())
                },
                None => {
                    &&& !old(self)@.dom().contains(client_id@)
                    &&& *final(self) == *old(self)
                },
            },
            forall|sid: Seq<char>|
                #[trigger] final(self).contains_sid(sid) ==> old(self).contains_sid(sid),
    {
        proof {
            use_type_invariant(&*self);
            lemma_registry_view_dom(self.db@);
        }
        let n = self.db.len();
        let mut i: usize = 0;
        let mut at: Option<usize> = None;
        while i < n
            invariant
                n == self.db@.len(),
                0 <= i <= n,
                match at {
                    Some(k) => k < i && self.db@[k as int].spec_client_id() == client_id@,
                    None => forall|j: int|
                        0 <= j < i ==> self.db@[j].spec_client_id() != client_id@,
                },
            decreases n - i,
        {
            if at.is_none() {
                if self.db[i].client_id_is(client_id) {
                    at = Some(i);
                }
            }
            i = i + 1;
        }
        match at {
            Some(k) => {
                proof {
                    lemma_registry_view_get(self.db@, k as int);
                    lemma_registry_view_remove(self.db@, k as int);
                }
                let ghost previous = self.db@;
                let mut db: Vec<Session> = Vec::new();
                std::mem::swap(&mut db, &mut self.db);
                let s = db.remove(k);
                self.db = db;
                proof {
                    assert forall|sid: Seq<char>| #[trigger] self.contains_sid(sid) implies
                        exists|j: int|
                            0 <= j < previous.len() && previous[j].spec_id() == sid by {
                        let j = choose|j: int|
                            0 <= j < self.db@.len() && self.db@[j].spec_id() == sid;
                        if j < k as int {
                            assert(previous[j].spec_id() == sid);
                        } else {
                            assert(previous[j + 1].spec_id() == sid);
                        }
                    }
                    let taken_sid = previous[k as int].spec_id();
                    assert(!self.contains_sid(taken_sid)) by {
                        if self.contains_sid(taken_sid) {
                            let j = choose|j: int|
                                0 <= j < self.db@.len() && self.db@[j].spec_id() == taken_sid;
                            if j < k as int {
                                assert(previous[j].spec_id() == taken_sid);
                            } else {
                                assert(previous[j + 1].spec_id() == taken_sid);
                            }
                        }
                    }
                }
                Some(s)
            },
            None => {
                proof {
                    assert(!registry_view(self.db@).dom().contains(client_id@));
                }
                None
            },
        }
    }

    /// Returns a reference to the session with the given client identifier,
    /// if one exists, without removing it.
    pub fn get(&self, client_id: &String) -> (r: Option<&Session>)
        ensures
            match r {
                Some(s) => self@.dom().contains(client_id@) && *s == self@[client_id@]
                    && s.spec_client_id() == client_id@,
                None => !self@.dom().contains(client_id@),
            },
    {
        proof {
            use_type_invariant(&*self);
            lemma_registry_view_dom(self.db@);
        }
        let n = self.db.len();
        let mut i: usize = 0;
        while i < n
            invariant
                n == self.db@.len(),
                0 <= i <= n,
                distinct_client_ids(self.db@),
                forall|j: int| 0 <= j < i ==> self.db@[j].spec_client_id() != client_id@,
            decreases n - i,
        {
            if self.db[i].client_id_is(client_id) {
                proof {
                    lemma_registry_view_get(self.db@, i as int);
                }
                return Some(&self.db[i]);
            }
            i = i + 1;
        }
        None
    }

    /// Returns a reference to the session with the given internal session
    /// identifier, if one exists. This is how a peer's handle to its bound
    /// session is upgraded: a stale identifier finds nothing.
    pub fn find_by_session_id(&self, sid: &String) -> (r: Option<&Session>)
        ensures
            match r {
                Some(s) => {
                    &&& self.contains_sid(sid@)
                    &&& reg_has_sid(self@, sid@)
                    &&& s.spec_id() == sid@
                    &&& self@.dom().contains(s.spec_client_id())
                    &&& self@[s.spec_client_id()] == *s
                },
                None => !self.contains_sid(sid@) && !reg_has_sid(self@, sid@),
            },
    {
        proof {
            use_type_invariant(&*self);
            lemma_registry_view_dom(self.db@);
        }
        let n = self.db.len();
        let mut i: usize = 0;
        while i < n
            invariant
                n == self.db@.len(),
                0 <= i <= n,
                distinct_client_ids(self.db@),
                forall|j: int| 0 <= j < i ==> self.db@[j].spec_id() != sid@,
            decreases n - i,
        {
            if self.db[i].id_is(sid) {
                proof {
                    lemma_registry_view_get(self.db@, i as int);
                }
                return Some(&self.db[i]);
            }
            i = i + 1;
        }
        proof {
            assert forall|k: Seq<char>| #[trigger] self@.dom().contains(k) implies
                self@[k].spec_id() != sid@ by {
                let j = choose|j: int|
                    0 <= j < self.db@.len() && self.db@[j].spec_client_id() == k;
                lemma_registry_view_get(self.db@, j);
            }
        }
        None
    }

    /// Whether some session in the registry has the given internal session
    /// identifier.
    pub fn has_session_id(&self, sid: &String) -> (r: bool)
        ensures
            r == self.contains_sid(sid@),
    {
        self.find_by_session_id(sid).is_some()
    }

    /// Adds the given session to the registry. Its client identifier and
    /// its internal session identifier must not be present yet: `take`
    /// followed by `add` is the only way to replace a session.
    pub fn add(&mut self, session: Session)
        requires
            !old(self)@.dom().contains(session.spec_client_id()),
            !old(self).contains_sid(session.spec_id()),
        ensures
            final(self)@ == old(self)@.insert(session.spec_client_id(), session),
            final(self).elems() == old(self).elems().push(session),
            forall|sid: Seq<char>|
                #[trigger] final(self).contains_sid(sid) <==> (old(self).contains_sid(sid)
                    || sid == session.spec_id()),
    {
        proof {
            use_type_invariant(&*self);
            lemma_registry_view_dom(self.db@);
        }
        let ghost previous = self.db@;
        let mut db: Vec<Session> = Vec::new();
        std::mem::swap(&mut db, &mut self.db);
        db.push(session);
        proof {
            assert(db@.drop_last() =~= previous);
            assert forall|j: int| 0 <= j < previous.len() implies previous[j].spec_client_id()
                != db@.last().spec_client_id() by {
                if previous[j].spec_client_id() == db@.last().spec_client_id() {
                    assert(registry_view(previous).dom().contains(
                        db@.last().spec_client_id(),
                    ));
                }
            }
            assert(distinct_client_ids(db@));
            assert(distinct_session_ids(db@));
            assert forall|sid: Seq<char>| #[trigger] seq_contains_sid(db@, sid) implies
                seq_contains_sid(previous, sid) || sid == db@.last().spec_id() by {
                let i = choose|i: int| 0 <= i < db@.len() && db@[i].spec_id() == sid;
                if i < db@.len() - 1 {
                    assert(previous[i].spec_id() == sid);
                    assert(seq_contains_sid(previous, sid));
                }
            }
            assert forall|sid: Seq<char>| #[trigger] seq_contains_sid(previous, sid) implies
                seq_contains_sid(db@, sid) by {
                let i = choose|i: int|
                    0 <= i < previous.len() && previous[i].spec_id() == sid;
                assert(db@[i].spec_id() == sid);
            }
            assert(db@[db@.len() - 1].spec_id() == db@.last().spec_id());
            assert(seq_contains_sid(db@, db@.last().spec_id()));
        }
        self.db = db;
    }
}

impl Default for Sessions {
    /// A fresh registry with no sessions.
    fn default() -> (r: Sessions)
        ensures
            r@ == Map::<Seq<char>, Session>::empty(),
            r.elems() =~= Seq::<Session>::empty(),
    {
        Sessions::new()
    }
}

/// `take` followed by `add` of the same session is a no-op on the registry:
/// it restores the map exactly, and in particular its size.
pub proof fn lemma_take_add_roundtrip(reg: Map<Seq<char>, Session>, cid: Seq<char>)
    requires
        reg.dom().finite(),
        reg.dom().contains(cid),
        reg[cid].spec_client_id() == cid,
    ensures
        reg.remove(cid).insert(cid, reg[cid]) == reg,
        reg.remove(cid).insert(cid, reg[cid]).dom().len() == reg.dom().len(),
{
    assert(reg.remove(cid).insert(cid, reg[cid]) =~= reg);
}

} // verus!
