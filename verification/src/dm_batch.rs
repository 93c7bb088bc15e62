//! Which protocol DMs of a fetched batch are read, and in what order: each event id once,
//! only events that unwrapped into a protocol message, none before the `since` cutoff,
//! oldest first.
use vstd::prelude::*;
use crate::order_feed::{sort_newest_first, stable_sort_of, Stamped};
use crate::restore::bytes_equal;

verus! {

/// One event of a fetched batch: its event id and, when it unwrapped into a protocol
/// message, the creation time that message carries.
pub struct FetchedDm {
    pub event_id: Vec<u8>,
    pub created_at: Option<i64>,
}

/// A DM of the batch that is read: its position in the batch and its creation time.
#[derive(Debug, Clone, Copy, PartialEq, Eq, Structural)]
pub struct ReceivedDm {
    pub index: usize,
    pub created_at: i64,
}

impl Stamped for ReceivedDm {
    /// DMs are read oldest first: the earlier DM ranks first.
    open spec fn stamp(&self) -> int {
        -(self.created_at as int)
    }

    fn at_least_as_new(&self, other: &Self) -> (r: bool) {
        self.created_at <= other.created_at
    }

    fn copy_item(&self) -> (r: Self) {
        *self
    }
}

/// Some event of `s` has the id `id`.
pub open spec fn id_seen(s: Seq<FetchedDm>, id: Seq<u8>) -> bool {
    exists|j: int| 0 <= j < s.len() && (#[trigger] s[j]).event_id@ == id
}

pub open spec fn after_cutoff(t: i64, cutoff: Option<i64>) -> bool {
    match cutoff {
        Some(c) => t >= c,
        None => true,
    }
}

/// The DMs read from `s`, in batch order: an event whose id came earlier in the batch is
/// skipped (whether or not that earlier one unwrapped), as are events that did not
/// unwrap and messages older than the cutoff.
pub open spec fn dm_kept(s: Seq<FetchedDm>, cutoff: Option<i64>) -> Seq<ReceivedDm>
    decreases s.len(),
{
    if s.len() == 0 {
        Seq::empty()
    } else {
        let prev = dm_kept(s.drop_last(), cutoff);
        let d = s.last();
        if !id_seen(s.drop_last(), d.event_id@) && d.created_at is Some && after_cutoff(
            d.created_at->0,
            cutoff,
        ) {
            prev.push(ReceivedDm { index: (s.len() - 1) as usize, created_at: d.created_at->0 })
        } else {
            prev
        }
    }
}

fn seen_before(batch: &Vec<FetchedDm>, i: usize) -> (r: bool)
    requires
        i < batch.len(),
    ensures
        r == id_seen(batch@.subrange(0, i as int), batch@[i as int].event_id@),
{
    let ghost s = batch@.subrange(0, i as int);
    let mut j: usize = 0;
    while j < i
        invariant
            j <= i,
            i < batch.len(),
            s == batch@.subrange(0, i as int),
            forall|k: int| 0 <= k < j ==> (#[trigger] s[k]).event_id@ != batch@[i as int].event_id@,
        decreases i - j,
    {
        if bytes_equal(&batch[j].event_id, &batch[i].event_id) {
            proof {
                assert(s[j as int] == batch@[j as int]);
            }
            return true;
        }
        proof {
            assert(s[j as int] == batch@[j as int]);
        }
        j = j + 1;
    }
    false
}

/// The DMs of a batch to read, oldest first; DMs with the same time keep their batch
/// order.
pub fn received_dms_in_order(batch: &Vec<FetchedDm>, cutoff: Option<i64>) -> (r: Vec<ReceivedDm>)
    ensures
        exists|perm: Seq<int>| #[trigger] stable_sort_of(r@, dm_kept(batch@, cutoff), perm),
{
    let mut kept: Vec<ReceivedDm> = Vec::new();
    let mut i: usize = 0;
    while i < batch.len()
        invariant
            i <= batch.len(),
            kept@ == dm_kept(batch@.subrange(0, i as int), cutoff),
        decreases batch.len() - i,
    {
        let seen = seen_before(batch, i);
        let ghost s = batch@.subrange(0, i + 1);
        proof {
            assert(s.drop_last() =~= batch@.subrange(0, i as int));
            assert(s.last() == batch@[i as int]);
        }
        if !seen {
            match batch[i].created_at {
                Some(t) => {
                    let in_window = match cutoff {
                        Some(c) => t >= c,
                        None => true,
                    };
                    if in_window {
                        kept.push(ReceivedDm { index: i, created_at: t });
                    }
                },
                None => {},
            }
        }
        i = i + 1;
    }
    proof {
        assert(batch@.subrange(0, batch.len() as int) =~= batch@);
    }
    sort_newest_first(kept)
}

/// Every DM read unwrapped at its position with its time, is not before the cutoff, and
/// no two DMs read share an event id.
pub proof fn dm_kept_law(s: Seq<FetchedDm>, cutoff: Option<i64>)
    requires
        s.len() <= usize::MAX,
    ensures
        forall|k: int|
            0 <= k < dm_kept(s, cutoff).len() ==> {
                let d = #[trigger] dm_kept(s, cutoff)[k];
                &&& d.index < s.len()
                &&& s[d.index as int].created_at == Some(d.created_at)
                &&& after_cutoff(d.created_at, cutoff)
            },
        forall|a: int, b: int|
            0 <= a < b < dm_kept(s, cutoff).len() ==> (#[trigger] dm_kept(s, cutoff)[a]).index < (
            #[trigger] dm_kept(s, cutoff)[b]).index && s[dm_kept(s, cutoff)[a].index as int].event_id@
                != s[dm_kept(s, cutoff)[b].index as int].event_id@,
    decreases s.len(),
{
    if s.len() > 0 {
        let p = s.drop_last();
        dm_kept_law(p, cutoff);
        let prev = dm_kept(p, cutoff);
        let r = dm_kept(s, cutoff);
        assert forall|k: int| 0 <= k < prev.len() implies (#[trigger] prev[k]).index < p.len() && s[prev[
            k].index as int] == p[prev[k].index as int] by {}
        let d = s.last();
        if !id_seen(p, d.event_id@) && d.created_at is Some && after_cutoff(d.created_at->0, cutoff) {
            assert(((s.len() - 1) as usize) as int == s.len() - 1);
            assert(r == prev.push(ReceivedDm { index: (s.len() - 1) as usize, created_at: d.created_at->0 }));
            assert forall|a: int, b: int| 0 <= a < b < r.len() implies (#[trigger] r[a]).index < (
            #[trigger] r[b]).index && s[r[a].index as int].event_id@ != s[r[b].index as int].event_id@ by {
                if b < prev.len() {
                    assert(r[a] == prev[a] && r[b] == prev[b]);
                } else {
                    assert(r[a] == prev[a]);
                    let j = prev[a].index as int;
                    assert(p[j] == s[j]);
                    if s[j].event_id@ == d.event_id@ {
                        assert(id_seen(p, d.event_id@));
                    }
                }
            }
        }
    }
}

} // verus!
