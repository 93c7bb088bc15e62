//! Orders whose trade DMs the listener routes live: order id to trade index.
use vstd::prelude::*;

verus! {

/// No order id occurs twice.
pub open spec fn ids_distinct(s: Seq<(u128, i64)>) -> bool {
    forall|i: int, j: int| 0 <= i < j < s.len() ==> #[trigger] s[i].0 != #[trigger] s[j].0
}

pub open spec fn has_id(s: Seq<(u128, i64)>, k: u128) -> bool {
    exists|i: int| 0 <= i < s.len() && #[trigger] s[i].0 == k
}

pub open spec fn index_of_id(s: Seq<(u128, i64)>, k: u128) -> int {
    choose|i: int| 0 <= i < s.len() && #[trigger] s[i].0 == k
}

/// The map the entries stand for.
pub open spec fn entries_view(s: Seq<(u128, i64)>) -> Map<u128, i64> {
    Map::new(|k: u128| has_id(s, k), |k: u128| s[index_of_id(s, k)].1)
}

proof fn lemma_view_at(s: Seq<(u128, i64)>, i: int)
    requires
        ids_distinct(s),
        0 <= i < s.len(),
    ensures
        entries_view(s).contains_key(s[i].0),
        entries_view(s)[s[i].0] == s[i].1,
{
    assert(has_id(s, s[i].0));
    let j = index_of_id(s, s[i].0);
    if j != i {
        if j < i {
            assert(s[j].0 != s[i].0);
        } else {
            assert(s[i].0 != s[j].0);
        }
    }
}

/// Active orders: each order id with the trade index its DMs are routed by.
pub struct ActiveOrders {
    entries: Vec<(u128, i64)>,
}

impl View for ActiveOrders {
    type V = Map<u128, i64>;

    closed spec fn view(&self) -> Map<u128, i64> {
        entries_view(self.entries@)
    }
}

/// The active orders after binding `order_id` to `trade_index`: any other order that held
/// that trade index is dropped.
pub open spec fn rebind(m: Map<u128, i64>, order_id: u128, trade_index: i64) -> Map<u128, i64> {
    Map::new(
        |k: u128| m.contains_key(k) && (m[k] != trade_index || k == order_id),
        |k: u128| m[k],
    ).insert(order_id, trade_index)
}

impl ActiveOrders {
    #[verifier::type_invariant]
    closed spec fn distinct_ids(&self) -> bool {
        ids_distinct(self.entries@)
    }

    /// No active order.
    pub fn new() -> (r: ActiveOrders)
        ensures
            r@ == Map::<u128, i64>::empty(),
    {
        let r = ActiveOrders { entries: Vec::new() };
        assert(r@ =~= Map::<u128, i64>::empty());
        r
    }

    fn find(&self, order_id: u128) -> (r: Option<usize>)
        ensures
            match r {
                Some(p) => p < self.entries.len() && self.entries@[p as int].0 == order_id,
                None => !has_id(self.entries@, order_id),
            },
    {
        let mut i: usize = 0;
        while i < self.entries.len()
            invariant
                i <= self.entries.len(),
                forall|j: int| 0 <= j < i ==> #[trigger] self.entries@[j].0 != order_id,
            decreases self.entries.len() - i,
        {
            if self.entries[i].0 == order_id {
                return Some(i);
            }
            i = i + 1;
        }
        None
    }

    /// Trade index of an active order.
    pub fn get(&self, order_id: u128) -> (r: Option<i64>)
        ensures
            r == if self@.contains_key(order_id) {
                Some(self@[order_id])
            } else {
                None::<i64>
            },
    {
        proof {
            use_type_invariant(self);
        }
        match self.find(order_id) {
            Some(p) => {
                proof {
                    lemma_view_at(self.entries@, p as int);
                }
                Some(self.entries[p].1)
            },
            None => None,
        }
    }

    /// Number of active orders.
    pub fn len(&self) -> (r: usize)
        ensures
            r == self@.len(),
    {
        proof {
            use_type_invariant(self);
            lemma_view_len(self.entries@);
        }
        self.entries.len()
    }

    /// Set the trade index of `order_id`.
    pub fn insert(&mut self, order_id: u128, trade_index: i64)
        ensures
            final(self)@ == old(self)@.insert(order_id, trade_index),
    {
        proof {
            use_type_invariant(&*self);
        }
        let ghost s = self.entries@;
        let found = self.find(order_id);
        let mut entries: Vec<(u128, i64)> = Vec::new();
        std::mem::swap(&mut entries, &mut self.entries);
        match found {
            Some(p) => {
                entries.set(p, (order_id, trade_index));
                let ghost t = entries@;
                proof {
                    assert(ids_distinct(t)) by {
                        assert forall|i: int, j: int| 0 <= i < j < t.len() implies #[trigger] t[i].0
                            != #[trigger] t[j].0 by {
                            assert(s[i].0 != s[j].0);
                        }
                    }
                    assert forall|k: u128| #[trigger] has_id(t, k) == (has_id(s, k) || k == order_id) by {
                        if has_id(s, k) {
                            let j = index_of_id(s, k);
                            if j == p {
                                assert(t[j].0 == k);
                            } else {
                                assert(t[j].0 == k);
                            }
                        }
                        if k == order_id {
                            assert(t[p as int].0 == k);
                        }
                        if has_id(t, k) {
                            let j = index_of_id(t, k);
                            if j != p {
                                assert(s[j].0 == k);
                            }
                        }
                    }
                    assert forall|k: u128| #[trigger] entries_view(t).contains_key(k) implies entries_view(
                        t,
                    )[k] == (if k == order_id { trade_index } else { entries_view(s)[k] }) by {
                        let j = index_of_id(t, k);
                        lemma_view_at(t, j);
                        if k != order_id {
                            assert(j != p);
                            assert(s[j] == t[j]);
                            lemma_view_at(s, j);
                        }
                    }
                    assert(entries_view(t) =~= entries_view(s).insert(order_id, trade_index));
                }
            },
            None => {
                entries.push((order_id, trade_index));
                let ghost t = entries@;
                proof {
                    assert(ids_distinct(t)) by {
                        assert forall|i: int, j: int| 0 <= i < j < t.len() implies #[trigger] t[i].0
                            != #[trigger] t[j].0 by {
                            if j == s.len() {
                                assert(s[i].0 == t[i].0);
                            } else {
                                assert(s[i].0 != s[j].0);
                            }
                        }
                    }
                    assert forall|k: u128| #[trigger] has_id(t, k) == (has_id(s, k) || k == order_id) by {
                        if has_id(s, k) {
                            let j = index_of_id(s, k);
                            assert(t[j].0 == k);
                        }
                        if k == order_id {
                            assert(t[s.len() as int].0 == k);
                        }
                        if has_id(t, k) {
                            let j = index_of_id(t, k);
                            if j < s.len() {
                                assert(s[j].0 == k);
                            }
                        }
                    }
                    assert forall|k: u128| #[trigger] entries_view(t).contains_key(k) implies entries_view(
                        t,
                    )[k] == (if k == order_id { trade_index } else { entries_view(s)[k] }) by {
                        let j = index_of_id(t, k);
                        lemma_view_at(t, j);
                        if k != order_id {
                            assert(j < s.len());
                            assert(s[j] == t[j]);
                            lemma_view_at(s, j);
                        }
                    }
                    assert(entries_view(t) =~= entries_view(s).insert(order_id, trade_index));
                }
            },
        }
        self.entries = entries;
    }

    /// Stop routing `order_id`.
    pub fn remove(&mut self, order_id: u128)
        ensures
            final(self)@ == old(self)@.remove(order_id),
    {
        proof {
            use_type_invariant(&*self);
        }
        let ghost s = self.entries@;
        let found = self.find(order_id);
        let mut entries: Vec<(u128, i64)> = Vec::new();
        std::mem::swap(&mut entries, &mut self.entries);
        match found {
            Some(p) => {
                entries.remove(p);
                let ghost t = entries@;
                proof {
                    assert(t =~= s.remove(p as int));
                    assert(ids_distinct(t)) by {
                        assert forall|i: int, j: int| 0 <= i < j < t.len() implies #[trigger] t[i].0
                            != #[trigger] t[j].0 by {
                            let si = if i < p { i } else { i + 1 };
                            let sj = if j < p { j } else { j + 1 };
                            assert(t[i] == s[si]);
                            assert(t[j] == s[sj]);
                            assert(s[si].0 != s[sj].0);
                        }
                    }
                    assert forall|k: u128| #[trigger] has_id(t, k) == (has_id(s, k) && k != order_id) by {
                        if has_id(s, k) && k != order_id {
                            let j = index_of_id(s, k);
                            assert(j != p);
                            let tj = if j < p { j } else { j - 1 };
                            assert(t[tj].0 == k);
                        }
                        if has_id(t, k) {
                            let j = index_of_id(t, k);
                            let sj = if j < p { j } else { j + 1 };
                            assert(s[sj].0 == k);
                            if k == order_id {
                                if sj < p {
                                    assert(s[sj].0 != s[p as int].0);
                                } else {
                                    assert(s[p as int].0 != s[sj].0);
                                }
                            }
                        }
                    }
                    assert forall|k: u128| #[trigger] entries_view(t).contains_key(k) implies entries_view(
                        t,
                    )[k] == entries_view(s)[k] by {
                        let j = index_of_id(t, k);
                        lemma_view_at(t, j);
                        let sj = if j < p { j } else { j + 1 };
                        assert(s[sj] == t[j]);
                        lemma_view_at(s, sj);
                    }
                    assert(entries_view(t) =~= entries_view(s).remove(order_id));
                }
            },
            None => {
                proof {
                    assert(entries_view(s) =~= entries_view(s).remove(order_id));
                }
            },
        }
        self.entries = entries;
    }

    /// Route `order_id` by `trade_index`, dropping any other order bound to that trade index
    /// (an optimistic id replaced by the one Mostro filled in).
    pub fn track(&mut self, order_id: u128, trade_index: i64)
        ensures
            final(self)@ == rebind(old(self)@, order_id, trade_index),
    {
        proof {
            use_type_invariant(&*self);
        }
        let ghost s = self.entries@;
        let mut out: Vec<(u128, i64)> = Vec::new();
        let ghost mut src: Seq<int> = Seq::empty();
        let mut i: usize = 0;
        while i < self.entries.len()
            invariant
                i <= self.entries.len(),
                s == self.entries@,
                ids_distinct(s),
                ids_distinct(out@),
                src.len() == out.len(),
                forall|m: int|
                    0 <= m < out.len() ==> 0 <= #[trigger] src[m] < i && out@[m] == s[src[m]] && (
                    s[src[m]].1 != trade_index || s[src[m]].0 == order_id),
                forall|j: int|
                    0 <= j < i && (s[j].1 != trade_index || s[j].0 == order_id) ==> has_id(
                        out@,
                        #[trigger] s[j].0,
                    ),
            decreases self.entries.len() - i,
        {
            let e = self.entries[i];
            if e.1 != trade_index || e.0 == order_id {
                let ghost before = out@;
                let ghost before_src = src;
                out.push(e);
                proof {
                    src = src.push(i as int);
                    assert(ids_distinct(out@)) by {
                        assert forall|a: int, b: int| 0 <= a < b < out@.len() implies #[trigger] out@[a].0
                            != #[trigger] out@[b].0 by {
                            if b == before.len() {
                                assert(out@[a] == before[a]);
                                assert(s[before_src[a]].0 != s[i as int].0);
                            } else {
                                assert(before[a].0 != before[b].0);
                            }
                        }
                    }
                    assert forall|m: int| 0 <= m < out@.len() implies 0 <= #[trigger] src[m] < i + 1
                        && out@[m] == s[src[m]] && (s[src[m]].1 != trade_index || s[src[m]].0
                        == order_id) by {
                        if m < before.len() {
                            assert(src[m] == before_src[m]);
                            assert(out@[m] == before[m]);
                        }
                    }
                    assert forall|j: int|
                        0 <= j < i + 1 && (s[j].1 != trade_index || s[j].0 == order_id) implies has_id(
                        out@,
                        #[trigger] s[j].0,
                    ) by {
                        if j == i {
                            assert(out@[before.len() as int].0 == s[j].0);
                        } else {
                            let m = index_of_id(before, s[j].0);
                            assert(out@[m] == before[m]);
                        }
                    }
                }
            }
            i = i + 1;
        }
        let ghost kept = out@;
        proof {
            assert forall|k: u128| #[trigger] has_id(kept, k) == (entries_view(s).contains_key(k) && (
            entries_view(s)[k] != trade_index || k == order_id)) by {
                if has_id(kept, k) {
                    let m = index_of_id(kept, k);
                    let j = src[m];
                    lemma_view_at(s, j);
                }
                if entries_view(s).contains_key(k) && (entries_view(s)[k] != trade_index || k
                    == order_id) {
                    let j = index_of_id(s, k);
                    lemma_view_at(s, j);
                }
            }
            assert forall|k: u128| #[trigger] entries_view(kept).contains_key(k) implies entries_view(
                kept,
            )[k] == entries_view(s)[k] by {
                let m = index_of_id(kept, k);
                lemma_view_at(kept, m);
                let j = src[m];
                lemma_view_at(s, j);
            }
        }
        self.entries = out;
        let ghost mid = entries_view(kept);
        proof {
            let target = Map::new(
                |k: u128|
                    entries_view(s).contains_key(k) && (entries_view(s)[k] != trade_index || k
                        == order_id),
                |k: u128| entries_view(s)[k],
            );
            assert(mid =~= target);
        }
        self.insert(order_id, trade_index);
    }

    /// The active orders, in no particular order.
    pub fn entries(&self) -> (r: Vec<(u128, i64)>)
        ensures
            forall|k: int| 0 <= k < r.len() ==> #[trigger] self@.contains_key(r@[k].0) && self@[r@[k].0] == r@[k].1,
            forall|id: u128| #[trigger] self@.contains_key(id) ==> exists|k: int| 0 <= k < r.len() && r@[k].0 == id,
            r.len() == self@.len(),
    {
        proof {
            use_type_invariant(self);
            lemma_view_len(self.entries@);
            assert forall|k: int| 0 <= k < self.entries.len() implies #[trigger] self@.contains_key(
                self.entries@[k].0,
            ) && self@[self.entries@[k].0] == self.entries@[k].1 by {
                lemma_view_at(self.entries@, k);
            }
            assert forall|id: u128| #[trigger] self@.contains_key(id) implies exists|k: int|
                0 <= k < self.entries.len() && self.entries@[k].0 == id by {
                let k = index_of_id(self.entries@, id);
            }
        }
        let mut r: Vec<(u128, i64)> = Vec::new();
        let mut i: usize = 0;
        while i < self.entries.len()
            invariant
                i <= self.entries.len(),
                r@ == self.entries@.subrange(0, i as int),
            decreases self.entries.len() - i,
        {
            r.push(self.entries[i]);
            i = i + 1;
            assert(r@ =~= self.entries@.subrange(0, i as int));
        }
        assert(r@ =~= self.entries@);
        r
    }
}

proof fn lemma_view_len(s: Seq<(u128, i64)>)
    requires
        ids_distinct(s),
    ensures
        entries_view(s).len() == s.len(),
        entries_view(s).dom().finite(),
    decreases s.len(),
{
    if s.len() == 0 {
        assert(entries_view(s).dom() =~= Set::<u128>::empty());
    } else {
        let p = s.drop_last();
        assert(ids_distinct(p)) by {
            assert forall|i: int, j: int| 0 <= i < j < p.len() implies #[trigger] p[i].0
                != #[trigger] p[j].0 by {
                assert(s[i].0 != s[j].0);
            }
        }
        lemma_view_len(p);
        let last = s.last();
        assert(!has_id(p, last.0)) by {
            if has_id(p, last.0) {
                let j = index_of_id(p, last.0);
                assert(s[j].0 != s[s.len() - 1].0);
            }
        }
        assert(entries_view(s).dom() =~= entries_view(p).dom().insert(last.0)) by {
            assert forall|k: u128| #[trigger] entries_view(s).dom().contains(k) == entries_view(
                p,
            ).dom().insert(last.0).contains(k) by {
                if has_id(s, k) {
                    let j = index_of_id(s, k);
                    if j < p.len() {
                        assert(p[j].0 == k);
                    }
                }
                if has_id(p, k) {
                    let j = index_of_id(p, k);
                    assert(s[j].0 == k);
                }
                if k == last.0 {
                    assert(s[s.len() - 1].0 == k);
                }
            }
        }
    }
}

/// After binding an order to a trade index, the order is routed by exactly that index and
/// no other active order holds it; orders bound to other indices are untouched.
pub proof fn rebind_law(m: Map<u128, i64>, order_id: u128, trade_index: i64, other: u128)
    ensures
        rebind(m, order_id, trade_index).contains_key(order_id),
        rebind(m, order_id, trade_index)[order_id] == trade_index,
        other != order_id && rebind(m, order_id, trade_index).contains_key(other) ==> rebind(
            m,
            order_id,
            trade_index,
        )[other] != trade_index,
        other != order_id && m.contains_key(other) && m[other] != trade_index ==> (rebind(
            m,
            order_id,
            trade_index,
        ).contains_key(other) && rebind(m, order_id, trade_index)[other] == m[other]),
{
}

} // verus!
