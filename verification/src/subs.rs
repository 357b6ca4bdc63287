use crate::packet::SubscriptionOptions;
use vstd::prelude::*;

verus! {

/// Whether the filter is a shared subscription form, i.e. starts with the
/// `$share/` prefix.
pub open spec fn spec_is_shared(s: Seq<char>) -> bool {
    s.len() >= 7 && s.subrange(0, 7) == seq!['$', 's', 'h', 'a', 'r', 'e', '/']
}

/// Whether position `i` of the filter holds a wildcard: a `+` or `#` that
/// forms a whole `/`-separated level on its own.
pub open spec fn spec_wildcard_at(s: Seq<char>, i: int) -> bool {
    &&& 0 <= i < s.len()
    &&& (s[i] == '+' || s[i] == '#')
    &&& (i == 0 || s[i - 1] == '/')
    &&& (i == s.len() - 1 || s[i + 1] == '/')
}

/// Whether the filter contains a wildcard level.
pub open spec fn spec_has_wildcards(s: Seq<char>) -> bool {
    exists|i: int| spec_wildcard_at(s, i)
}

/// Whether the topic filter is a shared subscription form (`$share/...`).
pub fn is_shared(filter: &str) -> (r: bool)
    ensures
        r == spec_is_shared(filter@),
{
    let n = filter.unicode_len();
    if n < 7 {
        return false;
    }
    let head = [
        filter.get_char(0),
        filter.get_char(1),
        filter.get_char(2),
        filter.get_char(3),
        filter.get_char(4),
        filter.get_char(5),
        filter.get_char(6),
    ];
    let expected = ['$', 's', 'h', 'a', 'r', 'e', '/'];
    let r = head[0] == expected[0] && head[1] == expected[1] && head[2] == expected[2]
        && head[3] == expected[3] && head[4] == expected[4] && head[5] == expected[5]
        && head[6] == expected[6];
    proof {
        let pre = seq!['$', 's', 'h', 'a', 'r', 'e', '/'];
        if r {
            assert(filter@.subrange(0, 7) =~= pre);
        } else {
            if filter@.subrange(0, 7) == pre {
                assert(forall|j: int| 0 <= j < 7 ==> filter@[j] == pre[j]) by {
                    assert(forall|j: int|
                        0 <= j < 7 ==> filter@[j] == filter@.subrange(0, 7)[j]);
                }
                assert(false);
            }
        }
    }
    r
}

/// Whether the topic filter contains a wildcard: a level that is exactly
/// `+` or `#`.
pub fn has_wildcards(filter: &str) -> (r: bool)
    ensures
        r == spec_has_wildcards(filter@),
{
    let n = filter.unicode_len();
    let mut i: usize = 0;
    let mut found = false;
    while i < n
        invariant
            n == filter@.len(),
            0 <= i <= n,
            found <==> exists|j: int| 0 <= j < i && spec_wildcard_at(filter@, j),
        decreases n - i,
    {
        let c = filter.get_char(i);
        if c == '+' || c == '#' {
            let left_ok = i == 0 || filter.get_char(i - 1) == '/';
            let right_ok = i == n - 1 || filter.get_char(i + 1) == '/';
            if left_ok && right_ok {
                proof {
                    assert(spec_wildcard_at(filter@, i as int));
                }
                found = true;
            }
        }
        i = i + 1;
    }
    found
}

/// The mathematical content of a subscription table: what each entry of the
/// list contributes to the map from filter to options, later entries
/// overriding earlier ones.
pub open spec fn table_view(
    s: Seq<(String, SubscriptionOptions, Option<u32>)>,
) -> Map<Seq<char>, (SubscriptionOptions, Option<u32>)>
    decreases s.len(),
{
    if s.len() == 0 {
        Map::empty()
    } else {
        table_view(s.drop_last()).insert(s.last().0@, (s.last().1, s.last().2))
    }
}

/// Whether no two entries of the list share a filter.
pub open spec fn distinct_filters(s: Seq<(String, SubscriptionOptions, Option<u32>)>) -> bool {
    forall|i: int, j: int| 0 <= i < j < s.len() ==> s[i].0@ != s[j].0@
}

proof fn lemma_table_view_dom(s: Seq<(String, SubscriptionOptions, Option<u32>)>)
    ensures
        forall|f: Seq<char>|
            #[trigger] table_view(s).dom().contains(f) <==> exists|i: int|
                0 <= i < s.len() && s[i].0@ == f,
        table_view(s).dom().finite(),
    decreases s.len(),
{
    if s.len() > 0 {
        lemma_table_view_dom(s.drop_last());
        assert forall|f: Seq<char>| #[trigger] table_view(s).dom().contains(f) implies exists|i: int|
            0 <= i < s.len() && s[i].0@ == f by {
            if f == s.last().0@ {
                assert(s[s.len() - 1].0@ == f);
            } else {
                let i = choose|i: int| 0 <= i < s.drop_last().len() && s.drop_last()[i].0@ == f;
                assert(s[i].0@ == f);
            }
        }
        assert forall|f: Seq<char>| (exists|i: int| 0 <= i < s.len() && s[i].0@ == f) implies
            #[trigger] table_view(s).dom().contains(f) by {
            let i = choose|i: int| 0 <= i < s.len() && s[i].0@ == f;
            if i < s.len() - 1 {
                assert(s.drop_last()[i].0@ == f);
            }
        }
    }
}

proof fn lemma_table_view_len(s: Seq<(String, SubscriptionOptions, Option<u32>)>)
    requires
        distinct_filters(s),
    ensures
        table_view(s).dom().len() == s.len(),
    decreases s.len(),
{
    lemma_table_view_dom(s);
    if s.len() > 0 {
        let rest = s.drop_last();
        assert(distinct_filters(rest));
        lemma_table_view_len(rest);
        lemma_table_view_dom(rest);
        assert(!table_view(rest).dom().contains(s.last().0@));
        assert(table_view(s).dom() =~= table_view(rest).dom().insert(s.last().0@));
    }
}

proof fn lemma_table_view_get(s: Seq<(String, SubscriptionOptions, Option<u32>)>, i: int)
    requires
        distinct_filters(s),
        0 <= i < s.len(),
    ensures
        table_view(s).dom().contains(s[i].0@),
        table_view(s)[s[i].0@] == (s[i].1, s[i].2),
    decreases s.len(),
{
    lemma_table_view_dom(s);
    if i == s.len() - 1 {
    } else {
        let rest = s.drop_last();
        assert(rest[i] == s[i]);
        lemma_table_view_get(rest, i);
        assert(s[i].0@ != s.last().0@);
    }
}

proof fn lemma_table_view_remove(s: Seq<(String, SubscriptionOptions, Option<u32>)>, i: int)
    requires
        distinct_filters(s),
        0 <= i < s.len(),
    ensures
        table_view(s.remove(i)) =~= table_view(s).remove(s[i].0@),
    decreases s.len(),
{
    lemma_table_view_dom(s);
    lemma_table_view_dom(s.remove(i));
    if i == s.len() - 1 {
        assert(s.remove(i) =~= s.drop_last());
        lemma_table_view_dom(s.drop_last());
        assert(!table_view(s.drop_last()).dom().contains(s.last().0@));
        assert(table_view(s.drop_last()) =~= table_view(s.drop_last()).insert(
            s.last().0@,
            (s.last().1, s.last().2),
        ).remove(s.last().0@));
    } else {
        let rest = s.drop_last();
        assert(rest[i] == s[i]);
        lemma_table_view_remove(rest, i);
        assert(s.remove(i).drop_last() =~= rest.remove(i));
        assert(s.remove(i).last() == s.last());
        assert(s[i].0@ != s.last().0@);
        assert(table_view(s.remove(i)) =~= table_view(rest.remove(i)).insert(
            s.last().0@,
            (s.last().1, s.last().2),
        ));
        assert(table_view(rest.remove(i)).insert(s.last().0@, (s.last().1, s.last().2)) =~= table_view(
            rest,
        ).insert(s.last().0@, (s.last().1, s.last().2)).remove(s[i].0@));
    }
}

/// The subscriptions of one session: a table from topic filter to
/// subscription options and optional subscription identifier, one entry per
/// distinct filter.
#[derive(Debug)]
pub struct Subs {
    db: Vec<(String, SubscriptionOptions, Option<u32>)>,
}

impl View for Subs {
    type V = Map<Seq<char>, (SubscriptionOptions, Option<u32>)>;

    closed spec fn view(&self) -> Map<Seq<char>, (SubscriptionOptions, Option<u32>)> {
        table_view(self.db@)
    }
}

impl Subs {
    #[verifier::type_invariant]
    spec fn wf(&self) -> bool {
        distinct_filters(self.db@)
    }

    /// Builds a new, empty subscription table.
    pub fn new() -> (r: Subs)
        ensures
            r@ == Map::<Seq<char>, (SubscriptionOptions, Option<u32>)>::empty(),
    {
        Subs { db: Vec::new() }
    }

    /// The table always holds finitely many filters.
    pub proof fn lemma_finite(&self)
        ensures
            self@.dom().finite(),
    {
        lemma_table_view_dom(self.db@);
    }

    /// The number of subscriptions in the table.
    pub fn len(&self) -> (r: usize)
        ensures
            r == self@.dom().len(),
    {
        proof {
            use_type_invariant(&*self);
            lemma_table_view_len(self.db@);
        }
        self.db.len()
    }

    /// Removes the entry with the given filter from the list, if present.
    fn remove_filter(
        db: &mut Vec<(String, SubscriptionOptions, Option<u32>)>,
        topic: &String,
    ) -> (replaced: bool)
        requires
            distinct_filters(old(db)@),
        ensures
            distinct_filters(final(db)@),
            replaced == table_view(old(db)@).dom().contains(topic@),
            table_view(final(db)@) =~= table_view(old(db)@).remove(topic@),
            forall|f: Seq<char>|
                #[trigger] table_view(final(db)@).dom().contains(f) ==> table_view(
                    old(db)@,
                ).dom().contains(f),
    {
        proof {
            lemma_table_view_dom(db@);
        }
        let n = db.len();
        let mut i: usize = 0;
        let mut at: Option<usize> = None;
        while i < n
            invariant
                n == db@.len(),
                0 <= i <= n,
                match at {
                    Some(k) => k < i && db@[k as int].0@ == topic@,
                    None => forall|j: int| 0 <= j < i ==> db@[j].0@ != topic@,
                },
            decreases n - i,
        {
            if at.is_none() && db[i].0 == *topic {
                at = Some(i);
            }
            i = i + 1;
        }
        match at {
            Some(k) => {
                proof {
                    lemma_table_view_remove(db@, k as int);
                    lemma_table_view_dom(db@.remove(k as int));
                }
                let _ = db.remove(k);
                proof {
                    assert(table_view(db@) =~= table_view(old(db)@).remove(topic@));
                }
                true
            },
            None => {
                proof {
                    assert(!table_view(db@).dom().contains(topic@));
                    assert(table_view(db@) =~= table_view(db@).remove(topic@));
                }
                false
            },
        }
    }

    /// Inserts a subscription for the given filter, replacing any prior
    /// entry for the same filter. Returns whether an entry was replaced.
    pub fn add(
        &mut self,
        topic: String,
        options: SubscriptionOptions,
        identifier: Option<u32>,
    ) -> (replaced: bool)
        ensures
            final(self)@ == old(self)@.insert(topic@, (options, identifier)),
            replaced == old(self)@.dom().contains(topic@),
    {
        proof {
            use_type_invariant(&*self);
        }
        let ghost previous = self.db@;
        let mut db: Vec<(String, SubscriptionOptions, Option<u32>)> = Vec::new();
        std::mem::swap(&mut db, &mut self.db);
        let replaced = Self::remove_filter(&mut db, &topic);
        proof {
            lemma_table_view_dom(db@);
        }
        let ghost removed = db@;
        db.push((topic, options, identifier));
        proof {
            assert(db@.drop_last() =~= removed);
            assert forall|i: int| 0 <= i < removed.len() implies removed[i].0@ != topic@ by {
                if removed[i].0@ == topic@ {
                    assert(table_view(removed).dom().contains(topic@));
                }
            }
            assert(distinct_filters(db@));
            assert(table_view(db@) =~= table_view(previous).insert(
                topic@,
                (options, identifier),
            ));
        }
        self.db = db;
        replaced
    }

    /// Whether the session is subscribed to the given filter.
    pub fn has_filter(&self, topic: &String) -> (r: bool)
        ensures
            r == self@.dom().contains(topic@),
    {
        proof {
            use_type_invariant(&*self);
            lemma_table_view_dom(self.db@);
        }
        let n = self.db.len();
        let mut i: usize = 0;
        let mut found = false;
        while i < n
            invariant
                n == self.db@.len(),
                0 <= i <= n,
                found <==> exists|j: int| 0 <= j < i && self.db@[j].0@ == topic@,
            decreases n - i,
        {
            if self.db[i].0 == *topic {
                found = true;
                proof {
                    assert(self.db@[i as int].0@ == topic@);
                }
            }
            i = i + 1;
        }
        found
    }

    /// Whether the given topic name matches any stored filter. Matching is
    /// exact string equality: wildcard and shared subscriptions are rejected
    /// before they reach this table.
    pub fn matches(&self, name: &String) -> (r: bool)
        ensures
            r == self@.dom().contains(name@),
    {
        self.has_filter(name)
    }

    /// The options stored for a filter, if any.
    pub fn get(&self, topic: &String) -> (r: Option<(SubscriptionOptions, Option<u32>)>)
        ensures
            match r {
                Some(v) => self@.dom().contains(topic@) && v == self@[topic@],
                None => !self@.dom().contains(topic@),
            },
    {
        proof {
            use_type_invariant(&*self);
            lemma_table_view_dom(self.db@);
        }
        let n = self.db.len();
        let mut i: usize = 0;
        while i < n
            invariant
                n == self.db@.len(),
                0 <= i <= n,
                distinct_filters(self.db@),
                forall|j: int| 0 <= j < i ==> self.db@[j].0@ != topic@,
            decreases n - i,
        {
            if self.db[i].0 == *topic {
                proof {
                    lemma_table_view_get(self.db@, i as int);
                }
                return Some((self.db[i].1, self.db[i].2));
            }
            i = i + 1;
        }
        None
    }
}

/// Re-subscribing the same filter within one session replaces the prior
/// entry: adding a filter twice leaves the table as if only the second add
/// had happened, and the second add does not grow the table.
pub proof fn lemma_resubscribe_replaces(
    m: Map<Seq<char>, (SubscriptionOptions, Option<u32>)>,
    f: Seq<char>,
    first: (SubscriptionOptions, Option<u32>),
    second: (SubscriptionOptions, Option<u32>),
)
    requires
        m.dom().finite(),
    ensures
        m.insert(f, first).insert(f, second) == m.insert(f, second),
        m.insert(f, first).insert(f, second).dom().len() == m.insert(f, first).dom().len(),
{
    assert(m.insert(f, first).insert(f, second) =~= m.insert(f, second));
    assert(m.insert(f, first).insert(f, second).dom() =~= m.insert(f, first).dom());
}

} // verus!
