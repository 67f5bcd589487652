//! The server's presence directory: a bidirectional user-name/connection
//! mapping. A connection is an opaque endpoint handle, recorded here as the
//! integer id the transport layer assigns it; the directory records
//! associations only, never connection lifecycle.
//!
//! Its two map views stay mutually consistent under every sequence of
//! `logon` and `logoff`: see `lemma_maps_mutually_consistent`.

use vstd::prelude::*;

verus! {

/// Uniqueness of both columns of the association list: no user name and no
/// endpoint occurs twice.
pub open spec fn pairs_wf(pairs: Seq<(String, u64)>) -> bool {
    forall|i: int, j: int|
        0 <= i < pairs.len() && 0 <= j < pairs.len() && i != j ==> pairs[i].0@ != pairs[j].0@
            && pairs[i].1 != pairs[j].1
}

/// The user-to-endpoint map held by an association list.
pub open spec fn user_map_of(pairs: Seq<(String, u64)>) -> Map<Seq<char>, u64> {
    Map::new(
        |u: Seq<char>| exists|i: int| 0 <= i < pairs.len() && pairs[i].0@ == u,
        |u: Seq<char>|
            pairs[choose|i: int| 0 <= i < pairs.len() && pairs[i].0@ == u].1,
    )
}

/// The endpoint-to-user map held by an association list.
pub open spec fn endpoint_map_of(pairs: Seq<(String, u64)>) -> Map<u64, Seq<char>> {
    Map::new(
        |e: u64| exists|i: int| 0 <= i < pairs.len() && pairs[i].1 == e,
        |e: u64|
            pairs[choose|i: int| 0 <= i < pairs.len() && pairs[i].1 == e].0@,
    )
}

/// The pair at a well-formed list's index `i` appears in both maps.
proof fn lemma_pair_in_maps(pairs: Seq<(String, u64)>, i: int)
    requires
        pairs_wf(pairs),
        0 <= i < pairs.len(),
    ensures
        user_map_of(pairs).contains_pair(pairs[i].0@, pairs[i].1),
        endpoint_map_of(pairs).contains_pair(pairs[i].1, pairs[i].0@),
{
    let u = pairs[i].0@;
    let e = pairs[i].1;
    assert(user_map_of(pairs).dom().contains(u));
    let j = choose|j: int| 0 <= j < pairs.len() && pairs[j].0@ == u;
    assert(j == i);
    assert(endpoint_map_of(pairs).dom().contains(e));
    let k = choose|k: int| 0 <= k < pairs.len() && pairs[k].1 == e;
    assert(k == i);
}

/// Removing index `k` removes exactly that pair from both maps.
proof fn lemma_remove_effect(pairs: Seq<(String, u64)>, k: int)
    requires
        pairs_wf(pairs),
        0 <= k < pairs.len(),
    ensures
        pairs_wf(pairs.remove(k)),
        user_map_of(pairs.remove(k)) == user_map_of(pairs).remove(pairs[k].0@),
        endpoint_map_of(pairs.remove(k)) == endpoint_map_of(pairs).remove(pairs[k].1),
{
    let rest = pairs.remove(k);
    assert forall|i: int, j: int|
        0 <= i < rest.len() && 0 <= j < rest.len() && i != j implies rest[i].0@ != rest[j].0@
        && rest[i].1 != rest[j].1 by {
        let oi: int = if i < k { i } else { i + 1 };
        let oj: int = if j < k { j } else { j + 1 };
        assert(rest[i] == pairs[oi]);
        assert(rest[j] == pairs[oj]);
    }
    assert forall|u: Seq<char>| #[trigger] user_map_of(rest).dom().contains(u) implies user_map_of(
        pairs,
    ).remove(pairs[k].0@).dom().contains(u) && user_map_of(rest)[u] == user_map_of(pairs)[u] by {
        let i = choose|i: int| 0 <= i < rest.len() && rest[i].0@ == u;
        let oi: int = if i < k { i } else { i + 1 };
        assert(rest[i] == pairs[oi]);
        assert(pairs[oi].0@ == u);
        assert(u != pairs[k].0@);
        lemma_pair_in_maps(pairs, oi);
        lemma_pair_in_maps(rest, i);
    }
    assert forall|u: Seq<char>| #[trigger] user_map_of(pairs).remove(
        pairs[k].0@,
    ).dom().contains(u) implies user_map_of(rest).dom().contains(u) by {
        let oi = choose|oi: int| 0 <= oi < pairs.len() && pairs[oi].0@ == u;
        assert(oi != k);
        let i: int = if oi < k { oi } else { oi - 1 };
        assert(rest[i] == pairs[oi]);
    }
    assert(user_map_of(rest) =~= user_map_of(pairs).remove(pairs[k].0@));
    assert forall|e: u64| #[trigger] endpoint_map_of(rest).dom().contains(e)
        implies endpoint_map_of(pairs).remove(pairs[k].1).dom().contains(e) && endpoint_map_of(
        rest,
    )[e] == endpoint_map_of(pairs)[e] by {
        let i = choose|i: int| 0 <= i < rest.len() && rest[i].1 == e;
        let oi: int = if i < k { i } else { i + 1 };
        assert(rest[i] == pairs[oi]);
        assert(pairs[oi].1 == e);
        assert(e != pairs[k].1);
        lemma_pair_in_maps(pairs, oi);
        lemma_pair_in_maps(rest, i);
    }
    assert forall|e: u64| #[trigger] endpoint_map_of(pairs).remove(pairs[k].1).dom().contains(e)
        implies endpoint_map_of(rest).dom().contains(e) by {
        let oi = choose|oi: int| 0 <= oi < pairs.len() && pairs[oi].1 == e;
        assert(oi != k);
        let i: int = if oi < k { oi } else { oi - 1 };
        assert(rest[i] == pairs[oi]);
    }
    assert(endpoint_map_of(rest) =~= endpoint_map_of(pairs).remove(pairs[k].1));
}

/// Appending a pair whose user and endpoint are both fresh inserts it into
/// both maps.
proof fn lemma_push_effect(pairs: Seq<(String, u64)>, p: (String, u64))
    requires
        pairs_wf(pairs),
        !user_map_of(pairs).dom().contains(p.0@),
        !endpoint_map_of(pairs).dom().contains(p.1),
    ensures
        pairs_wf(pairs.push(p)),
        user_map_of(pairs.push(p)) == user_map_of(pairs).insert(p.0@, p.1),
        endpoint_map_of(pairs.push(p)) == endpoint_map_of(pairs).insert(p.1, p.0@),
{
    let ext = pairs.push(p);
    let n = pairs.len() as int;
    assert forall|i: int| 0 <= i < n implies pairs[i].0@ != p.0@ && pairs[i].1 != p.1 by {
        if pairs[i].0@ == p.0@ {
            assert(user_map_of(pairs).dom().contains(p.0@));
        }
        if pairs[i].1 == p.1 {
            assert(endpoint_map_of(pairs).dom().contains(p.1));
        }
    }
    assert forall|i: int, j: int|
        0 <= i < ext.len() && 0 <= j < ext.len() && i != j implies ext[i].0@ != ext[j].0@
        && ext[i].1 != ext[j].1 by {
        if i < n && j < n {
            assert(ext[i] == pairs[i]);
            assert(ext[j] == pairs[j]);
        } else if i < n {
            assert(ext[i] == pairs[i]);
            assert(ext[j] == p);
        } else {
            assert(ext[i] == p);
            assert(ext[j] == pairs[j]);
        }
    }
    assert forall|u: Seq<char>| #[trigger] user_map_of(ext).dom().contains(u) implies user_map_of(
        pairs,
    ).insert(p.0@, p.1).dom().contains(u) && user_map_of(ext)[u] == user_map_of(pairs).insert(
        p.0@,
        p.1,
    )[u] by {
        let i = choose|i: int| 0 <= i < ext.len() && ext[i].0@ == u;
        lemma_pair_in_maps(ext, i);
        if i < n {
            assert(ext[i] == pairs[i]);
            lemma_pair_in_maps(pairs, i);
            assert(u != p.0@);
        } else {
            assert(ext[i] == p);
        }
    }
    assert forall|u: Seq<char>| #[trigger] user_map_of(pairs).insert(p.0@, p.1).dom().contains(u)
        implies user_map_of(ext).dom().contains(u) by {
        if u == p.0@ {
            assert(ext[n].0@ == u);
        } else {
            let i = choose|i: int| 0 <= i < pairs.len() && pairs[i].0@ == u;
            assert(ext[i] == pairs[i]);
        }
    }
    assert(user_map_of(ext) =~= user_map_of(pairs).insert(p.0@, p.1));
    assert forall|e: u64| #[trigger] endpoint_map_of(ext).dom().contains(e)
        implies endpoint_map_of(pairs).insert(p.1, p.0@).dom().contains(e) && endpoint_map_of(
        ext,
    )[e] == endpoint_map_of(pairs).insert(p.1, p.0@)[e] by {
        let i = choose|i: int| 0 <= i < ext.len() && ext[i].1 == e;
        lemma_pair_in_maps(ext, i);
        if i < n {
            assert(ext[i] == pairs[i]);
            lemma_pair_in_maps(pairs, i);
            assert(e != p.1);
        } else {
            assert(ext[i] == p);
        }
    }
    assert forall|e: u64| #[trigger] endpoint_map_of(pairs).insert(p.1, p.0@).dom().contains(e)
        implies endpoint_map_of(ext).dom().contains(e) by {
        if e == p.1 {
            assert(ext[n].1 == e);
        } else {
            let i = choose|i: int| 0 <= i < pairs.len() && pairs[i].1 == e;
            assert(ext[i] == pairs[i]);
        }
    }
    assert(endpoint_map_of(ext) =~= endpoint_map_of(pairs).insert(p.1, p.0@));
}

/// The presence directory: who is online, and on which connection.
pub struct OnlineDb {
    pairs: Vec<(String, u64)>,
}

impl OnlineDb {
    /// The association list behind the two maps.
    pub closed spec fn pairs_view(self) -> Seq<(String, u64)> {
        self.pairs@
    }

    /// The user-to-endpoint map.
    pub open spec fn user_map(self) -> Map<Seq<char>, u64> {
        user_map_of(self.pairs_view())
    }

    /// The endpoint-to-user map.
    pub open spec fn endpoint_map(self) -> Map<u64, Seq<char>> {
        endpoint_map_of(self.pairs_view())
    }

    /// Well-formedness: each user and each endpoint is bound at most once.
    pub open spec fn wf(self) -> bool {
        pairs_wf(self.pairs_view())
    }

    pub fn new() -> (r: OnlineDb)
        ensures
            r.wf(),
            r.user_map() == Map::<Seq<char>, u64>::empty(),
            r.endpoint_map() == Map::<u64, Seq<char>>::empty(),
    {
        let db = OnlineDb { pairs: Vec::new() };
        proof {
            assert(db.user_map() =~= Map::<Seq<char>, u64>::empty());
            assert(db.endpoint_map() =~= Map::<u64, Seq<char>>::empty());
        }
        db
    }

    /// The maps are mutual inverses: an entry exists in one iff the flipped
    /// entry exists in the other. This holds in every state the operations
    /// below can reach, since each preserves `wf`.
    pub proof fn lemma_maps_mutually_consistent(self)
        requires
            self.wf(),
        ensures
            forall|u: Seq<char>, e: u64|
                self.user_map().contains_pair(u, e) <==> self.endpoint_map().contains_pair(e, u),
    {
        let pairs = self.pairs_view();
        assert forall|u: Seq<char>, e: u64| #[trigger] self.user_map().contains_pair(u, e)
            implies self.endpoint_map().contains_pair(e, u) by {
            let i = choose|i: int| 0 <= i < pairs.len() && pairs[i].0@ == u;
            lemma_pair_in_maps(pairs, i);
            assert(pairs[i].1 == e);
        }
        assert forall|u: Seq<char>, e: u64| #[trigger] self.endpoint_map().contains_pair(e, u)
            implies self.user_map().contains_pair(u, e) by {
            let i = choose|i: int| 0 <= i < pairs.len() && pairs[i].1 == e;
            lemma_pair_in_maps(pairs, i);
            assert(pairs[i].0@ == u);
        }
    }

    /// The index binding `user`, if any.
    fn find_by_user(&self, user: &String) -> (r: Option<usize>)
        requires
            self.wf(),
        ensures
            match r {
                Some(i) => i < self.pairs_view().len() && self.pairs_view()[i as int].0@ == user@
                    && self.user_map().contains_pair(user@, self.pairs_view()[i as int].1),
                None => !self.user_map().dom().contains(user@),
            },
    {
        let mut i: usize = 0;
        while i < self.pairs.len()
            invariant
                self.wf(),
                i <= self.pairs_view().len(),
                forall|j: int| 0 <= j < i ==> self.pairs_view()[j].0@ != user@,
            decreases self.pairs_view().len() - i,
        {
            if self.pairs[i].0 == *user {
                proof {
                    lemma_pair_in_maps(self.pairs_view(), i as int);
                }
                return Some(i);
            }
            i = i + 1;
        }
        proof {
            if self.user_map().dom().contains(user@) {
                let j = choose|j: int|
                    0 <= j < self.pairs_view().len() && self.pairs_view()[j].0@ == user@;
                assert(false);
            }
        }
        None
    }

    /// The index binding `endpoint`, if any.
    fn find_by_endpoint(&self, endpoint: u64) -> (r: Option<usize>)
        requires
            self.wf(),
        ensures
            match r {
                Some(i) => i < self.pairs_view().len() && self.pairs_view()[i as int].1 == endpoint
                    && self.endpoint_map().contains_pair(
                    endpoint,
                    self.pairs_view()[i as int].0@,
                ),
                None => !self.endpoint_map().dom().contains(endpoint),
            },
    {
        let mut i: usize = 0;
        while i < self.pairs.len()
            invariant
                self.wf(),
                i <= self.pairs_view().len(),
                forall|j: int| 0 <= j < i ==> self.pairs_view()[j].1 != endpoint,
            decreases self.pairs_view().len() - i,
        {
            if self.pairs[i].1 == endpoint {
                proof {
                    lemma_pair_in_maps(self.pairs_view(), i as int);
                }
                return Some(i);
            }
            i = i + 1;
        }
        proof {
            if self.endpoint_map().dom().contains(endpoint) {
                let j = choose|j: int|
                    0 <= j < self.pairs_view().len() && self.pairs_view()[j].1 == endpoint;
                assert(false);
            }
        }
        None
    }

    /// Binds `user` to `endpoint` in both maps atomically. A prior binding
    /// of the same user name, and a prior binding of the same endpoint, are
    /// silently dropped: last writer wins.
    pub fn logon(&mut self, user: String, endpoint: u64)
        requires
            old(self).wf(),
        ensures
            final(self).wf(),
            final(self).user_map() == (if old(self).endpoint_map().dom().contains(endpoint) {
                old(self).user_map().remove(old(self).endpoint_map()[endpoint])
            } else {
                old(self).user_map()
            }).insert(user@, endpoint),
            final(self).endpoint_map() == (if old(self).user_map().dom().contains(user@) {
                old(self).endpoint_map().remove(old(self).user_map()[user@])
            } else {
                old(self).endpoint_map()
            }).insert(endpoint, user@),
    {
        let ghost m_ue0 = self.user_map();
        let ghost m_eu0 = self.endpoint_map();
        match self.find_by_user(&user) {
            Some(i) => {
                proof {
                    lemma_remove_effect(self.pairs_view(), i as int);
                }
                self.pairs.remove(i);
            },
            None => {},
        }
        let ghost m_ue1 = self.user_map();
        let ghost m_eu1 = self.endpoint_map();
        match self.find_by_endpoint(endpoint) {
            Some(i) => {
                proof {
                    lemma_remove_effect(self.pairs_view(), i as int);
                }
                self.pairs.remove(i);
            },
            None => {},
        }
        proof {
            lemma_push_effect(self.pairs_view(), (user, endpoint));
        }
        self.pairs.push((user, endpoint));
        proof {
            assert(self.user_map() =~= (if m_eu0.dom().contains(endpoint) {
                m_ue0.remove(m_eu0[endpoint])
            } else {
                m_ue0
            }).insert(user@, endpoint));
            assert(self.endpoint_map() =~= (if m_ue0.dom().contains(user@) {
                m_eu0.remove(m_ue0[user@])
            } else {
                m_eu0
            }).insert(endpoint, user@));
        }
    }

    /// Unbinds `endpoint` from both maps atomically and returns the freed
    /// user, if one was bound; tolerant of a double or never-announced
    /// logoff.
    pub fn logoff(&mut self, endpoint: u64) -> (r: Option<String>)
        requires
            old(self).wf(),
        ensures
            final(self).wf(),
            match r {
                Some(user) => {
                    &&& old(self).endpoint_map().contains_pair(endpoint, user@)
                    &&& final(self).user_map() == old(self).user_map().remove(user@)
                    &&& final(self).endpoint_map() == old(self).endpoint_map().remove(endpoint)
                },
                None => {
                    &&& !old(self).endpoint_map().dom().contains(endpoint)
                    &&& *final(self) == *old(self)
                },
            },
    {
        match self.find_by_endpoint(endpoint) {
            Some(i) => {
                proof {
                    lemma_remove_effect(self.pairs_view(), i as int);
                }
                let pair = self.pairs.remove(i);
                Some(pair.0)
            },
            None => None,
        }
    }

    /// Every endpoint that is currently bound, each exactly once.
    pub fn all_endpoints(&self) -> (r: Vec<u64>)
        requires
            self.wf(),
        ensures
            forall|e: u64| r@.contains(e) <==> self.endpoint_map().dom().contains(e),
            r@.no_duplicates(),
    {
        let mut out: Vec<u64> = Vec::new();
        let mut i: usize = 0;
        while i < self.pairs.len()
            invariant
                self.wf(),
                i <= self.pairs_view().len(),
                out@.len() == i,
                forall|j: int| 0 <= j < i ==> out@[j] == self.pairs_view()[j].1,
            decreases self.pairs_view().len() - i,
        {
            out.push(self.pairs[i].1);
            i = i + 1;
        }
        proof {
            assert forall|e: u64| out@.contains(e) implies self.endpoint_map().dom().contains(
                e,
            ) by {
                let j = choose|j: int| 0 <= j < out@.len() && out@[j] == e;
                lemma_pair_in_maps(self.pairs_view(), j);
            }
            assert forall|e: u64| self.endpoint_map().dom().contains(e) implies out@.contains(
                e,
            ) by {
                let j = choose|j: int|
                    0 <= j < self.pairs_view().len() && self.pairs_view()[j].1 == e;
                assert(out@[j] == e);
            }
            assert forall|i1: int, j1: int|
                0 <= i1 < out@.len() && 0 <= j1 < out@.len() && i1 != j1 implies out@[i1]
                != out@[j1] by {}
        }
        out
    }

    /// The endpoint bound to `user`, if any.
    pub fn get_endpoint_by_user(&self, user: &String) -> (r: Option<u64>)
        requires
            self.wf(),
        ensures
            match r {
                Some(e) => self.user_map().contains_pair(user@, e),
                None => !self.user_map().dom().contains(user@),
            },
    {
        match self.find_by_user(user) {
            Some(i) => Some(self.pairs[i].1),
            None => None,
        }
    }
}

} // verus!
