//! Live updates of the pending-order list between relay reconciliations.
use vstd::prelude::*;
use crate::order::{is_terminal_order_status, terminal_status, OrderStatus, SmallOrder};
use crate::order_book::ts_of;

verus! {

/// Items a feed lists newest first.
pub trait Stamped: Sized {
    /// The item's time; items without one sort last.
    spec fn stamp(&self) -> int;

    /// Whether this item is at least as new as `other`.
    fn at_least_as_new(&self, other: &Self) -> (r: bool)
        ensures
            r == (self.stamp() >= other.stamp()),
    ;

    /// A copy of the item.
    fn copy_item(&self) -> (r: Self)
        ensures
            r == *self,
    ;
}

impl Stamped for SmallOrder {
    open spec fn stamp(&self) -> int {
        ts_of(*self)
    }

    fn at_least_as_new(&self, other: &Self) -> (r: bool) {
        match (self.created_at, other.created_at) {
            (Some(a), Some(b)) => a >= b,
            (Some(_), None) => true,
            (None, Some(_)) => false,
            (None, None) => true,
        }
    }

    fn copy_item(&self) -> (r: Self) {
        self.duplicate()
    }
}

/// `r` is `s` stably sorted newest first: `r[m] == s[perm[m]]` for a permutation `perm`,
/// newest first, equally new items in their original order.
pub open spec fn stable_sort_of<T: Stamped>(r: Seq<T>, s: Seq<T>, perm: Seq<int>) -> bool {
    &&& r.len() == s.len()
    &&& perm.len() == s.len()
    &&& forall|m: int| 0 <= m < r.len() ==> 0 <= #[trigger] perm[m] < s.len() && r[m] == s[perm[m]]
    &&& forall|a: int, b: int| 0 <= a < b < r.len() ==> #[trigger] perm[a] != #[trigger] perm[b]
    &&& forall|a: int, b: int| 0 <= a < b < r.len() ==> (#[trigger] r[a]).stamp() >= (#[trigger] r[b]).stamp()
    &&& forall|a: int, b: int|
        0 <= a < b < r.len() && (#[trigger] r[a]).stamp() == (#[trigger] r[b]).stamp() ==> perm[a] < perm[b]
}

/// Sort items newest first (items without a time last), keeping the order of equally
/// new ones.
pub fn sort_newest_first<T: Stamped>(v: Vec<T>) -> (r: Vec<T>)
    ensures
        exists|perm: Seq<int>| #[trigger] stable_sort_of(r@, v@, perm),
{
    let mut out: Vec<T> = Vec::new();
    let ghost mut perm: Seq<int> = Seq::empty();
    let mut i: usize = 0;
    while i < v.len()
        invariant
            i <= v.len(),
            out.len() == i,
            perm.len() == i,
            forall|m: int| 0 <= m < out.len() ==> 0 <= #[trigger] perm[m] < i && out@[m] == v@[perm[m]],
            forall|a: int, b: int| 0 <= a < b < out.len() ==> #[trigger] perm[a] != #[trigger] perm[b],
            forall|a: int, b: int| 0 <= a < b < out.len() ==> (#[trigger] out@[a]).stamp() >= (#[trigger] out@[b]).stamp(),
            forall|a: int, b: int|
                0 <= a < b < out.len() && (#[trigger] out@[a]).stamp() == (#[trigger] out@[b]).stamp() ==> perm[a] < perm[b],
        decreases v.len() - i,
    {
        let x = v[i].copy_item();
        let mut pos: usize = 0;
        while pos < out.len() && out[pos].at_least_as_new(&x)
            invariant
                pos <= out.len(),
                x == v@[i as int],
                forall|a: int| 0 <= a < pos ==> (#[trigger] out@[a]).stamp() >= x.stamp(),
            decreases out.len() - pos,
        {
            pos = pos + 1;
        }
        let ghost before = out@;
        let ghost bperm = perm;
        out.insert(pos, x);
        proof {
            perm = perm.insert(pos as int, i as int);
            assert(pos < before.len() ==> before[pos as int].stamp() < x.stamp());
            assert forall|m: int| 0 <= m < out.len() implies 0 <= #[trigger] perm[m] < i + 1 && out@[m] == v@[perm[m]] by {
                if m < pos {
                    assert(perm[m] == bperm[m] && out@[m] == before[m]);
                } else if m > pos {
                    assert(perm[m] == bperm[m - 1] && out@[m] == before[m - 1]);
                }
            }
            assert forall|a: int, b: int| 0 <= a < b < out.len() implies #[trigger] perm[a] != #[trigger] perm[b] by {
                if a != pos && b != pos {
                    let ba = if a < pos { a } else { a - 1 };
                    let bb = if b < pos { b } else { b - 1 };
                    assert(bperm[ba] != bperm[bb]);
                } else if a == pos {
                    assert(bperm[b - 1] < i);
                } else {
                    assert(bperm[a] < i);
                }
            }
            assert forall|a: int, b: int| 0 <= a < b < out.len() implies (#[trigger] out@[a]).stamp() >= (#[trigger] out@[b]).stamp() by {
                if a < pos && b < pos {
                    assert(before[a].stamp() >= before[b].stamp());
                } else if a < pos && b == pos {
                } else if a < pos && b > pos {
                    assert(before[a].stamp() >= before[b - 1].stamp());
                } else if a == pos && b > pos {
                    assert(before[pos as int].stamp() >= before[b - 1].stamp());
                } else {
                    assert(before[a - 1].stamp() >= before[b - 1].stamp());
                }
            }
            assert forall|a: int, b: int|
                0 <= a < b < out.len() && (#[trigger] out@[a]).stamp() == (#[trigger] out@[b]).stamp() implies perm[a] < perm[b] by {
                if a < pos && b < pos {
                    assert(bperm[a] < bperm[b]);
                } else if a < pos && b == pos {
                    assert(bperm[a] < i);
                } else if a < pos && b > pos {
                    assert(before[a].stamp() == before[b - 1].stamp());
                    assert(bperm[a] < bperm[b - 1]);
                } else if a == pos && b > pos {
                    assert(before[pos as int].stamp() >= before[b - 1].stamp());
                } else {
                    assert(bperm[a - 1] < bperm[b - 1]);
                }
            }
        }
        i = i + 1;
    }
    assert(stable_sort_of(out@, v@, perm));
    out
}

/// `s` without the orders with id `k`, in order.
pub open spec fn without_id(s: Seq<SmallOrder>, k: u128) -> Seq<SmallOrder>
    decreases s.len(),
{
    if s.len() == 0 {
        Seq::empty()
    } else if s.last().id == Some(k) {
        without_id(s.drop_last(), k)
    } else {
        without_id(s.drop_last(), k).push(s.last())
    }
}

/// Index of the first order with id `k`.
pub open spec fn first_with_id(s: Seq<SmallOrder>, k: u128) -> Option<int>
    decreases s.len(),
{
    if s.len() == 0 {
        None
    } else {
        match first_with_id(s.drop_last(), k) {
            Some(j) => Some(j),
            None => if s.last().id == Some(k) {
                Some(s.len() - 1)
            } else {
                None
            },
        }
    }
}

/// `created_at`, missing counted as `0`.
pub open spec fn ts_or_zero(o: SmallOrder) -> i64 {
    match o.created_at {
        Some(t) => t,
        None => 0,
    }
}

/// The list after a live pending order: it replaces the first order with its id when it
/// is at least as new, is dropped when older, and is appended when the id is new.
pub open spec fn upserted(s: Seq<SmallOrder>, o: SmallOrder, k: u128) -> Seq<SmallOrder> {
    match first_with_id(s, k) {
        Some(j) => if ts_or_zero(o) >= ts_or_zero(s[j]) {
            s.update(j, o)
        } else {
            s
        },
        None => s.push(o),
    }
}

proof fn lemma_first_with_id(s: Seq<SmallOrder>, k: u128)
    ensures
        match first_with_id(s, k) {
            Some(j) => 0 <= j < s.len() && s[j].id == Some(k) && forall|m: int| 0 <= m < j ==> #[trigger] s[m].id != Some(k),
            None => forall|m: int| 0 <= m < s.len() ==> #[trigger] s[m].id != Some(k),
        },
    decreases s.len(),
{
    if s.len() > 0 {
        lemma_first_with_id(s.drop_last(), k);
        match first_with_id(s.drop_last(), k) {
            Some(j) => {
                assert(s.drop_last()[j] == s[j]);
                assert forall|m: int| 0 <= m < j implies #[trigger] s[m].id != Some(k) by {
                    assert(s.drop_last()[m] == s[m]);
                }
            },
            None => {
                assert forall|m: int| 0 <= m < s.len() - 1 implies #[trigger] s[m].id != Some(k) by {
                    assert(s.drop_last()[m] == s[m]);
                }
            },
        }
    }
}

fn remove_order_id(v: &Vec<SmallOrder>, k: u128) -> (r: Vec<SmallOrder>)
    ensures
        r@ == without_id(v@, k),
{
    let mut out: Vec<SmallOrder> = Vec::new();
    let mut i: usize = 0;
    proof {
        assert(v@.subrange(0, 0) =~= Seq::<SmallOrder>::empty());
    }
    while i < v.len()
        invariant
            i <= v.len(),
            out@ == without_id(v@.subrange(0, i as int), k),
        decreases v.len() - i,
    {
        proof {
            assert(v@.subrange(0, i + 1).drop_last() =~= v@.subrange(0, i as int));
        }
        if v[i].id != Some(k) {
            out.push(v[i].duplicate());
        }
        i = i + 1;
    }
    proof {
        assert(v@.subrange(0, v.len() as int) =~= v@);
    }
    out
}

/// Apply a live order event to the pending-order list: an event without id changes
/// nothing; a non-pending order leaves the list; a pending one is upserted and the list
/// is sorted newest first.
pub fn apply_live_order_update(orders: &mut Vec<SmallOrder>, order: SmallOrder)
    ensures
        order.id is None ==> final(orders)@ == old(orders)@,
        order.id matches Some(k) ==> (order.status != Some(OrderStatus::Pending) ==> final(orders)@
            == without_id(old(orders)@, k)),
        order.id matches Some(k) ==> (order.status == Some(OrderStatus::Pending) ==> exists|perm: Seq<int>|
            #[trigger] stable_sort_of(final(orders)@, upserted(old(orders)@, order, k), perm)),
{
    let k = match order.id {
        Some(k) => k,
        None => return,
    };
    if order.status != Some(OrderStatus::Pending) {
        let kept = remove_order_id(orders, k);
        *orders = kept;
        return;
    }
    let ghost s = orders@;
    proof {
        lemma_first_with_id(s, k);
    }
    let mut j: usize = 0;
    while j < orders.len() && orders[j].id != Some(k)
        invariant
            j <= orders.len(),
            orders@ == s,
            forall|m: int| 0 <= m < j ==> #[trigger] s[m].id != Some(k),
        decreases orders.len() - j,
    {
        j = j + 1;
    }
    let mut list: Vec<SmallOrder> = Vec::new();
    std::mem::swap(&mut list, orders);
    if j < list.len() {
        proof {
            match first_with_id(s, k) {
                Some(f) => {
                    if f < j {
                        assert(s[f].id != Some(k));
                    }
                    if j < f {
                        assert(s[j as int].id != Some(k));
                    }
                },
                None => {
                    assert(s[j as int].id != Some(k));
                },
            }
        }
        let existing_ts = match list[j].created_at {
            Some(t) => t,
            None => 0,
        };
        let new_ts = match order.created_at {
            Some(t) => t,
            None => 0,
        };
        assert(first_with_id(s, k) == Some(j as int));
        if new_ts >= existing_ts {
            list.set(j, order);
        }
        assert(list@ == upserted(s, order, k));
    } else {
        proof {
            if first_with_id(s, k) is Some {
                let f = first_with_id(s, k)->0;
                assert(s[f].id == Some(k));
            }
        }
        list.push(order);
        assert(list@ == upserted(s, order, k));
    }
    let sorted = sort_newest_first(list);
    *orders = sorted;
}

/// What a relay snapshot can change locally: its status, when the snapshot names an order
/// and that status ends the trade.
pub fn reconcile_candidate(relay_order: &SmallOrder) -> (r: Option<(u128, OrderStatus)>)
    ensures
        r == match (relay_order.status, relay_order.id) {
            (Some(s), Some(id)) => if terminal_status(s) {
                Some((id, s))
            } else {
                None
            },
            _ => None,
        },
{
    match (relay_order.status, relay_order.id) {
        (Some(s), Some(id)) => if is_terminal_order_status(s) {
            Some((id, s))
        } else {
            None
        },
        _ => None,
    }
}


/// A dispute as the dispute list holds it.
pub struct DisputeEntry {
    pub id: u128,
    pub order_id: u128,
    pub status: String,
    pub created_at: i64,
}

impl Stamped for DisputeEntry {
    open spec fn stamp(&self) -> int {
        self.created_at as int
    }

    fn at_least_as_new(&self, other: &Self) -> (r: bool) {
        self.created_at >= other.created_at
    }

    fn copy_item(&self) -> (r: Self) {
        DisputeEntry { id: self.id, order_id: self.order_id, status: self.status.clone(), created_at: self.created_at }
    }
}

/// Index of the first dispute with id `k`.
pub open spec fn first_dispute(s: Seq<DisputeEntry>, k: u128) -> Option<int>
    decreases s.len(),
{
    if s.len() == 0 {
        None
    } else {
        match first_dispute(s.drop_last(), k) {
            Some(j) => Some(j),
            None => if s.last().id == k {
                Some(s.len() - 1)
            } else {
                None
            },
        }
    }
}

/// The list after a live dispute: it replaces the first dispute with its id when it is
/// at least as new, is dropped when older, and is appended when the id is new.
pub open spec fn dispute_upserted(s: Seq<DisputeEntry>, d: DisputeEntry) -> Seq<DisputeEntry> {
    match first_dispute(s, d.id) {
        Some(j) => if d.created_at >= s[j].created_at {
            s.update(j, d)
        } else {
            s
        },
        None => s.push(d),
    }
}

proof fn lemma_first_dispute(s: Seq<DisputeEntry>, k: u128)
    ensures
        match first_dispute(s, k) {
            Some(j) => 0 <= j < s.len() && s[j].id == k && forall|m: int| 0 <= m < j ==> #[trigger] s[m].id != k,
            None => forall|m: int| 0 <= m < s.len() ==> #[trigger] s[m].id != k,
        },
    decreases s.len(),
{
    if s.len() > 0 {
        lemma_first_dispute(s.drop_last(), k);
        match first_dispute(s.drop_last(), k) {
            Some(j) => {
                assert(s.drop_last()[j] == s[j]);
                assert forall|m: int| 0 <= m < j implies #[trigger] s[m].id != k by {
                    assert(s.drop_last()[m] == s[m]);
                }
            },
            None => {
                assert forall|m: int| 0 <= m < s.len() - 1 implies #[trigger] s[m].id != k by {
                    assert(s.drop_last()[m] == s[m]);
                }
            },
        }
    }
}

/// Apply a live dispute event to the dispute list: upsert it by id (a newer or equally
/// new copy wins) and sort the list newest first.
pub fn apply_live_dispute_update(disputes: &mut Vec<DisputeEntry>, dispute: DisputeEntry)
    ensures
        exists|perm: Seq<int>| #[trigger] stable_sort_of(final(disputes)@, dispute_upserted(old(disputes)@, dispute), perm),
{
    let k = dispute.id;
    let ghost s = disputes@;
    proof {
        lemma_first_dispute(s, k);
    }
    let mut j: usize = 0;
    while j < disputes.len() && disputes[j].id != k
        invariant
            j <= disputes.len(),
            disputes@ == s,
            forall|m: int| 0 <= m < j ==> #[trigger] s[m].id != k,
        decreases disputes.len() - j,
    {
        j = j + 1;
    }
    let mut list: Vec<DisputeEntry> = Vec::new();
    std::mem::swap(&mut list, disputes);
    if j < list.len() {
        proof {
            match first_dispute(s, k) {
                Some(f) => {
                    if f < j {
                        assert(s[f].id != k);
                    }
                    if j < f {
                        assert(s[j as int].id != k);
                    }
                },
                None => {
                    assert(s[j as int].id != k);
                },
            }
        }
        assert(first_dispute(s, k) == Some(j as int));
        if dispute.created_at >= list[j].created_at {
            list.set(j, dispute);
        }
        assert(list@ == dispute_upserted(s, dispute));
    } else {
        proof {
            if first_dispute(s, k) is Some {
                let f = first_dispute(s, k)->0;
                assert(s[f].id == k);
            }
        }
        list.push(dispute);
        assert(list@ == dispute_upserted(s, dispute));
    }
    let sorted = sort_newest_first(list);
    *disputes = sorted;
}

} // verus!
