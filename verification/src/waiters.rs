//! In-flight protocol-DM waiters that survive a listener abort and reconnect.
//!
//! A waiter is registered before its protocol DM is sent, so a capacity refusal happens
//! before anything reaches Mostro. A rebuilt listener re-subscribes for every pending
//! waiter's trade key from the oldest `since` of that key, and a matching reply is
//! delivered by taking the waiter out of the registry by id.
use vstd::prelude::*;
use crate::restore::bytes_equal;

verus! {

/// Interval between sweeps of waiters whose receiver is gone, in seconds.
pub const PENDING_WAITER_GC_INTERVAL_SECS: u64 = 5;

/// Largest number of waiters held at once.
pub const MAX_PENDING_WAITERS: usize = 32;

/// Subtracted from the wall clock at registration so relay `since` / event `created_at`
/// skew does not drop a same-second reply.
pub const WAITER_SINCE_SKEW_SECS: u64 = 2;

/// The waiter was dropped before an event arrived (not a Mostro refusal).
pub const WAIT_FOR_DM_CANCELED_MSG: &'static str = "DM waiter canceled before receiving an event";

/// Capacity was reached before the protocol DM was sent; safe to retry.
pub const WAIT_FOR_DM_BUSY_MSG: &'static str = "Too many in-flight Mostro requests; please retry shortly";

#[verifier::external_type_specification]
#[verifier::external_body]
#[verifier::reject_recursive_types(T)]
pub struct ExOneshotSender<T>(tokio::sync::oneshot::Sender<T>);

/// `tokio::sync::oneshot::Sender::is_closed`: whether the receiving half is gone. The
/// answer depends on the receiver at the moment of the call, so nothing is claimed of it.
#[verifier::external_body]
fn oneshot_is_closed<T>(tx: &tokio::sync::oneshot::Sender<T>) -> bool {
    tx.is_closed()
}

/// `tokio::sync::oneshot::Sender::send`, reporting whether the value was delivered. Delivery
/// depends on the receiver, so nothing is claimed of the result.
#[verifier::external_body]
fn oneshot_send<T>(tx: tokio::sync::oneshot::Sender<T>, value: T) -> bool {
    tx.send(value).is_ok()
}

/// `since` for a waiter registered at wall-clock `now_secs`.
pub fn waiter_since(now_secs: u64) -> (r: u64)
    ensures
        r == if now_secs >= WAITER_SINCE_SKEW_SECS { (now_secs - WAITER_SINCE_SKEW_SECS) as u64 } else { 0 },
{
    if now_secs >= WAITER_SINCE_SKEW_SECS {
        now_secs - WAITER_SINCE_SKEW_SECS
    } else {
        0
    }
}

/// `since` of a waiter registered at `now_secs`: the skew subtracted, floored at zero.
pub open spec fn since_at(now_secs: u64) -> u64 {
    if now_secs >= WAITER_SINCE_SKEW_SECS {
        (now_secs - WAITER_SINCE_SKEW_SECS) as u64
    } else {
        0
    }
}

/// `since` for a waiter registered now, by the wall clock.
pub fn waiter_since_now() -> (r: u64)
    ensures
        exists|now: u64| r == #[trigger] since_at(now),
{
    let now = crate::clock::unix_now_secs();
    let r = waiter_since(now);
    assert(r == since_at(now));
    r
}

/// Whether a protocol DM envelope was authored by Mostro.
pub fn protocol_dm_is_from_mostro(event_author: &Vec<u8>, mostro_pubkey: &Vec<u8>) -> (r: bool)
    ensures
        r == (event_author@ == mostro_pubkey@),
{
    bytes_equal(event_author, mostro_pubkey)
}

/// Whether an event is the user's own signed v2 request echoed back: a private DM
/// authored by the trade key whose decoded message carries a signature.
pub fn is_own_signed_v2_outbound(
    is_private_dm_kind: bool,
    event_author: &Vec<u8>,
    trade_pubkey: &Vec<u8>,
    signed: bool,
) -> (r: bool)
    ensures
        r == (is_private_dm_kind && event_author@ == trade_pubkey@ && signed),
{
    is_private_dm_kind && bytes_equal(event_author, trade_pubkey) && signed
}

/// Whether a decrypted protocol DM may complete a waiter: its inner sender must be Mostro
/// and it must not be the user's own signed v2 request echoed back.
pub fn is_mostro_waiter_reply(
    is_private_dm_kind: bool,
    event_author: &Vec<u8>,
    trade_pubkey: &Vec<u8>,
    signed: bool,
    sender: &Vec<u8>,
    mostro_pubkey: &Vec<u8>,
) -> (r: bool)
    ensures
        r == (sender@ == mostro_pubkey@ && !(is_private_dm_kind && event_author@ == trade_pubkey@ && signed)),
{
    bytes_equal(sender, mostro_pubkey) && !is_own_signed_v2_outbound(
        is_private_dm_kind,
        event_author,
        trade_pubkey,
        signed,
    )
}

/// An event can answer a waiter only if it is not older than the waiter's `since`.
pub fn event_created_at_meets_waiter_since(event_created_at: u64, waiter_since: u64) -> (r: bool)
    ensures
        r == (event_created_at >= waiter_since),
{
    event_created_at >= waiter_since
}

/// `None` expected (restore / unsolicited) matches any decoded id; `Some` requires an exact echo.
pub fn waiter_correlates_request_id(expected: Option<u64>, decoded: Option<u64>) -> (r: bool)
    ensures
        r == match expected {
            None => true,
            Some(want) => decoded == Some(want),
        },
{
    match expected {
        None => true,
        Some(want) => match decoded {
            Some(got) => got == want,
            None => false,
        },
    }
}

/// Time left before a waiter's deadline (both in milliseconds of one monotonic clock);
/// `None` once the deadline is reached, when the wait ends with a timeout.
pub fn remaining_until_deadline(now_ms: u64, deadline_ms: u64) -> (r: Option<u64>)
    ensures
        r == if now_ms >= deadline_ms {
            None::<u64>
        } else {
            Some((deadline_ms - now_ms) as u64)
        },
{
    if now_ms >= deadline_ms {
        None
    } else {
        Some(deadline_ms - now_ms)
    }
}

/// Whether a canceled waiter should be registered again within the remaining budget.
pub fn should_reregister_dm_waiter_after_cancel(remaining_ms: u64, fatal_requested: bool) -> (r:
    bool)
    ensures
        r == (remaining_ms > 0 && !fatal_requested),
{
    remaining_ms > 0 && !fatal_requested
}

/// One pending waiter: the trade keys used to decrypt replies, the hex trade pubkey,
/// the oneshot that completes the caller, the oldest acceptable event time, and the
/// request id the reply must echo (if any).
#[verifier::reject_recursive_types(T)]
pub struct PendingDmWaiter<K, T> {
    pub id: u64,
    pub trade_keys: K,
    pub trade_pubkey: String,
    pub response_tx: tokio::sync::oneshot::Sender<T>,
    pub since: u64,
    pub expected_request_id: Option<u64>,
}

/// What the library tracks of a waiter.
pub struct WaiterView {
    pub id: u64,
    pub trade_pubkey: Seq<char>,
    pub since: u64,
    pub expected_request_id: Option<u64>,
}

impl<K, T> PendingDmWaiter<K, T> {
    pub open spec fn info(&self) -> WaiterView {
        WaiterView {
            id: self.id,
            trade_pubkey: self.trade_pubkey@,
            since: self.since,
            expected_request_id: self.expected_request_id,
        }
    }
}

/// Decrypt probe data: the oneshot stays in the registry until a match is taken by id.
pub struct PendingWaiterSnapshot<K> {
    pub id: u64,
    pub trade_keys: K,
    pub since: u64,
    pub expected_request_id: Option<u64>,
}

/// `s` with the entries whose `keep` flag is false removed, order preserved.
pub open spec fn filter_by<A>(s: Seq<A>, keep: Seq<bool>) -> Seq<A>
    decreases s.len(),
{
    if s.len() == 0 || keep.len() == 0 {
        Seq::empty()
    } else if keep.last() {
        filter_by(s.drop_last(), keep.drop_last()).push(s.last())
    } else {
        filter_by(s.drop_last(), keep.drop_last())
    }
}

/// Index of the first waiter with this id, if any.
pub open spec fn position_of_id(s: Seq<WaiterView>, id: u64) -> Option<int>
    decreases s.len(),
{
    if s.len() == 0 {
        None
    } else if s[0].id == id {
        Some(0)
    } else {
        match position_of_id(s.drop_first(), id) {
            Some(p) => Some(p + 1),
            None => None,
        }
    }
}

/// Process-wide registry of waiters.
#[verifier::reject_recursive_types(T)]
pub struct PendingWaiterRegistry<K, T> {
    waiters: Vec<PendingDmWaiter<K, T>>,
    next_id: u64,
}

impl<K, T> PendingWaiterRegistry<K, T> {
    /// The waiters, in registration order.
    pub closed spec fn entries(&self) -> Seq<WaiterView> {
        self.waiters@.map_values(|w: PendingDmWaiter<K, T>| w.info())
    }

    /// The trade keys of the waiters, in registration order.
    pub closed spec fn trade_keys_of(&self) -> Seq<K> {
        self.waiters@.map_values(|w: PendingDmWaiter<K, T>| w.trade_keys)
    }

    /// Id handed to the next registered waiter.
    pub closed spec fn next_id_spec(&self) -> u64 {
        self.next_id
    }

    /// Never more than [`MAX_PENDING_WAITERS`] waiters.
    pub open spec fn wf(&self) -> bool {
        self.entries().len() <= MAX_PENDING_WAITERS
    }

    /// An empty registry whose first id is 1.
    pub fn new() -> (r: Self)
        ensures
            r.wf(),
            r.entries() == Seq::<WaiterView>::empty(),
            r.next_id_spec() == 1,
    {
        let r = PendingWaiterRegistry { waiters: Vec::new(), next_id: 1 };
        assert(r.entries() =~= Seq::<WaiterView>::empty());
        r
    }

    /// Number of pending waiters.
    pub fn len(&self) -> (n: usize)
        ensures
            n == self.entries().len(),
    {
        self.waiters.len()
    }

    /// Hand every waiter over, leaving the registry empty.
    pub fn take_all(&mut self) -> (r: Vec<PendingDmWaiter<K, T>>)
        requires
            old(self).wf(),
        ensures
            final(self).wf(),
            final(self).entries() == Seq::<WaiterView>::empty(),
            final(self).next_id_spec() == old(self).next_id_spec(),
            r@.map_values(|w: PendingDmWaiter<K, T>| w.info()) == old(self).entries(),
    {
        let mut taken: Vec<PendingDmWaiter<K, T>> = Vec::new();
        std::mem::swap(&mut taken, &mut self.waiters);
        assert(self.entries() =~= Seq::<WaiterView>::empty());
        taken
    }

    /// Whether each waiter's receiver is still open, in registration order. What each
    /// answer is depends on the receiver at the moment of the call.
    pub fn open_flags(&self) -> (r: Vec<bool>)
        ensures
            r@.len() == self.entries().len(),
    {
        let mut r: Vec<bool> = Vec::new();
        let mut i: usize = 0;
        while i < self.waiters.len()
            invariant
                i <= self.waiters@.len(),
                r@.len() == i,
            decreases self.waiters.len() - i,
        {
            r.push(!oneshot_is_closed(&self.waiters[i].response_tx));
            i = i + 1;
        }
        r
    }

    /// Drop waiters whose receiver is gone; returns how many were dropped. The survivors
    /// keep their order; which ones survive depends on the receivers, as
    /// [`Self::prune_by_open`] states for the answers read.
    pub fn prune_closed(&mut self) -> (pruned: usize)
        requires
            old(self).wf(),
        ensures
            final(self).wf(),
            final(self).next_id_spec() == old(self).next_id_spec(),
            exists|open: Seq<bool>|
                open.len() == old(self).entries().len() && #[trigger] filter_by(
                    old(self).entries(),
                    open,
                ) == final(self).entries(),
            pruned == old(self).entries().len() - final(self).entries().len(),
    {
        let open = self.open_flags();
        self.prune_by_open(&open)
    }

    /// Keep exactly the waiters whose `open` flag is set, in order; returns how many were
    /// dropped.
    pub fn prune_by_open(&mut self, open: &Vec<bool>) -> (pruned: usize)
        requires
            old(self).wf(),
            open@.len() == old(self).entries().len(),
        ensures
            final(self).wf(),
            final(self).next_id_spec() == old(self).next_id_spec(),
            final(self).entries() == filter_by(old(self).entries(), open@),
            pruned == old(self).entries().len() - final(self).entries().len(),
    {
        let ghost before = self.entries();
        let mut rest: Vec<PendingDmWaiter<K, T>> = Vec::new();
        std::mem::swap(&mut rest, &mut self.waiters);
        let total = rest.len();
        let mut kept: Vec<PendingDmWaiter<K, T>> = Vec::new();
        let mut keep_acc: Ghost<Seq<bool>> = Ghost(Seq::empty());
        let ghost all = rest@;
        assert(before =~= all.map_values(|w: PendingDmWaiter<K, T>| w.info()));
        let mut i: usize = 0;
        assert(keep_acc@ =~= open@.subrange(0, 0));
        while rest.len() > 0
            invariant
                total == all.len(),
                total <= MAX_PENDING_WAITERS,
                i + rest@.len() == total,
                rest@ == all.subrange(i as int, total as int),
                keep_acc@.len() == i,
                open@.len() == total,
                keep_acc@ == open@.subrange(0, i as int),
                kept@.map_values(|w: PendingDmWaiter<K, T>| w.info()) == filter_by(
                    all.subrange(0, i as int).map_values(|w: PendingDmWaiter<K, T>| w.info()),
                    keep_acc@,
                ),
                kept@.len() <= i,
            decreases rest.len(),
        {
            let w = rest.remove(0);
            let closed = !open[i];
            let ghost prefix = all.subrange(0, i as int).map_values(
                |w: PendingDmWaiter<K, T>| w.info(),
            );
            let ghost next_prefix = all.subrange(0, i + 1).map_values(
                |w: PendingDmWaiter<K, T>| w.info(),
            );
            let ghost old_keep = keep_acc@;
            let ghost old_kept = kept@.map_values(|w: PendingDmWaiter<K, T>| w.info());
            assert(next_prefix.drop_last() =~= prefix);
            assert(next_prefix.last() == w.info());
            if !closed {
                kept.push(w);
                proof {
                    keep_acc@ = keep_acc@.push(true);
                    assert(keep_acc@.drop_last() =~= old_keep);
                    assert(keep_acc@ =~= open@.subrange(0, i + 1));
                    assert(kept@.map_values(|w: PendingDmWaiter<K, T>| w.info()) =~= old_kept.push(
                        next_prefix.last(),
                    ));
                }
            } else {
                proof {
                    keep_acc@ = keep_acc@.push(false);
                    assert(keep_acc@.drop_last() =~= old_keep);
                    assert(keep_acc@ =~= open@.subrange(0, i + 1));
                }
            }
            i = i + 1;
            assert(rest@ =~= all.subrange(i as int, total as int));
            assert(kept@.map_values(|w: PendingDmWaiter<K, T>| w.info()) =~= filter_by(
                next_prefix,
                keep_acc@,
            ));
        }
        assert(all.subrange(0, total as int) =~= all);
        self.waiters = kept;
        let pruned = total - self.waiters.len();
        proof {
            assert(keep_acc@ =~= open@);
            assert(filter_by(before, keep_acc@) == self.entries());
        }
        pruned
    }
}


/// `o` moved by `d`.
pub open spec fn shift(o: Option<int>, d: int) -> Option<int> {
    match o {
        Some(p) => Some(p + d),
        None => None,
    }
}

/// Waiter data that the listener uses to probe an event: id, since, expected request id.
pub open spec fn probe_view(w: WaiterView) -> (u64, u64, Option<u64>) {
    (w.id, w.since, w.expected_request_id)
}

/// Probe data of each waiter, in order.
pub open spec fn probe_views(s: Seq<WaiterView>) -> Seq<(u64, u64, Option<u64>)> {
    s.map_values(|w: WaiterView| probe_view(w))
}

/// Index of the first target with this trade pubkey, if any.
pub open spec fn index_of_key(ts: Seq<(Seq<char>, u64)>, key: Seq<char>) -> Option<int>
    decreases ts.len(),
{
    if ts.len() == 0 {
        None
    } else if ts[0].0 == key {
        Some(0)
    } else {
        match index_of_key(ts.drop_first(), key) {
            Some(j) => Some(j + 1),
            None => None,
        }
    }
}

/// Add one waiter's `(key, since)` to the targets, keeping the older `since` per key.
pub open spec fn merge_target(ts: Seq<(Seq<char>, u64)>, key: Seq<char>, since: u64) -> Seq<
    (Seq<char>, u64),
> {
    match index_of_key(ts, key) {
        Some(j) => ts.update(j, (key, if since < ts[j].1 { since } else { ts[j].1 })),
        None => ts.push((key, since)),
    }
}

/// Unique trade pubkeys with the oldest `since` per key, in order of first appearance.
pub open spec fn oldest_since_targets(s: Seq<WaiterView>) -> Seq<(Seq<char>, u64)>
    decreases s.len(),
{
    if s.len() == 0 {
        Seq::empty()
    } else {
        merge_target(oldest_since_targets(s.drop_last()), s.last().trade_pubkey, s.last().since)
    }
}

proof fn lemma_index_of_key(ts: Seq<(Seq<char>, u64)>, key: Seq<char>)
    ensures
        match index_of_key(ts, key) {
            Some(j) => 0 <= j < ts.len() && ts[j].0 == key && forall|k: int|
                0 <= k < j ==> #[trigger] ts[k].0 != key,
            None => forall|k: int| 0 <= k < ts.len() ==> #[trigger] ts[k].0 != key,
        },
    decreases ts.len(),
{
    if ts.len() > 0 && ts[0].0 != key {
        let t = ts.drop_first();
        lemma_index_of_key(t, key);
        match index_of_key(t, key) {
            Some(j) => {
                assert forall|k: int| 0 <= k < j + 1 implies #[trigger] ts[k].0 != key by {
                    if k > 0 {
                        assert(ts[k] == t[k - 1]);
                    }
                }
            },
            None => {
                assert forall|k: int| 0 <= k < ts.len() implies #[trigger] ts[k].0 != key by {
                    if k > 0 {
                        assert(ts[k] == t[k - 1]);
                    }
                }
            },
        }
    }
}

pub open spec fn targets_unique(r: Seq<(Seq<char>, u64)>) -> bool {
    forall|a: int, b: int| 0 <= a < b < r.len() ==> #[trigger] r[a].0 != #[trigger] r[b].0
}

pub open spec fn targets_cover(s: Seq<WaiterView>, r: Seq<(Seq<char>, u64)>) -> bool {
    forall|i: int|
        0 <= i < s.len() ==> exists|j: int|
            0 <= j < r.len() && #[trigger] r[j].0 == #[trigger] s[i].trade_pubkey && r[j].1
                <= s[i].since
}

pub open spec fn targets_witnessed(s: Seq<WaiterView>, r: Seq<(Seq<char>, u64)>) -> bool {
    forall|j: int|
        0 <= j < r.len() ==> exists|i: int|
            0 <= i < s.len() && #[trigger] s[i].trade_pubkey == #[trigger] r[j].0 && s[i].since
                == r[j].1
}

#[verifier::rlimit(40)]
proof fn lemma_merge_existing(
    p: Seq<WaiterView>,
    s: Seq<WaiterView>,
    ts: Seq<(Seq<char>, u64)>,
    r: Seq<(Seq<char>, u64)>,
    jj: int,
)
    requires
        s.len() > 0,
        p == s.drop_last(),
        targets_unique(ts),
        targets_cover(p, ts),
        targets_witnessed(p, ts),
        0 <= jj < ts.len(),
        ts[jj].0 == s.last().trade_pubkey,
        r == ts.update(
            jj,
            (s.last().trade_pubkey, if s.last().since < ts[jj].1 { s.last().since } else { ts[jj].1 }),
        ),
    ensures
        targets_unique(r),
        targets_cover(s, r),
        targets_witnessed(s, r),
{
    let since = s.last().since;
    assert(targets_unique(r)) by {
        assert forall|a: int, b: int| 0 <= a < b < r.len() implies #[trigger] r[a].0
            != #[trigger] r[b].0 by {
            assert(r[a].0 == ts[a].0);
            assert(r[b].0 == ts[b].0);
        }
    }
    assert(targets_cover(s, r)) by {
        assert forall|i: int| 0 <= i < s.len() implies exists|j: int|
            0 <= j < r.len() && #[trigger] r[j].0 == #[trigger] s[i].trade_pubkey && r[j].1
                <= s[i].since by {
            if i == s.len() - 1 {
                assert(r[jj].0 == s[i].trade_pubkey);
            } else {
                assert(s[i] == p[i]);
                let j = choose|j: int|
                    0 <= j < ts.len() && #[trigger] ts[j].0 == #[trigger] p[i].trade_pubkey
                        && ts[j].1 <= p[i].since;
                assert(r[j].0 == s[i].trade_pubkey);
            }
        }
    }
    assert(targets_witnessed(s, r)) by {
        assert forall|j: int| 0 <= j < r.len() implies exists|i: int|
            0 <= i < s.len() && #[trigger] s[i].trade_pubkey == #[trigger] r[j].0 && s[i].since
                == r[j].1 by {
            if j == jj && since < ts[jj].1 {
                assert(s[s.len() - 1].trade_pubkey == r[j].0);
            } else {
                assert(r[j] == ts[j]);
                let i = choose|i: int|
                    0 <= i < p.len() && #[trigger] p[i].trade_pubkey == #[trigger] ts[j].0
                        && p[i].since == ts[j].1;
                assert(s[i] == p[i]);
            }
        }
    }
}

proof fn lemma_merge_new(
    p: Seq<WaiterView>,
    s: Seq<WaiterView>,
    ts: Seq<(Seq<char>, u64)>,
    r: Seq<(Seq<char>, u64)>,
)
    requires
        s.len() > 0,
        p == s.drop_last(),
        targets_unique(ts),
        targets_cover(p, ts),
        targets_witnessed(p, ts),
        forall|k: int| 0 <= k < ts.len() ==> #[trigger] ts[k].0 != s.last().trade_pubkey,
        r == ts.push((s.last().trade_pubkey, s.last().since)),
    ensures
        targets_unique(r),
        targets_cover(s, r),
        targets_witnessed(s, r),
{
    assert forall|a: int, b: int| 0 <= a < b < r.len() implies #[trigger] r[a].0
        != #[trigger] r[b].0 by {
        assert(r[a] == ts[a]);
        if b < ts.len() {
            assert(r[b] == ts[b]);
        }
    }
    assert forall|i: int| 0 <= i < s.len() implies exists|j: int|
        0 <= j < r.len() && #[trigger] r[j].0 == #[trigger] s[i].trade_pubkey && r[j].1
            <= s[i].since by {
        if i == s.len() - 1 {
            assert(r[ts.len() as int].0 == s[i].trade_pubkey);
        } else {
            assert(s[i] == p[i]);
            let j = choose|j: int|
                0 <= j < ts.len() && #[trigger] ts[j].0 == #[trigger] p[i].trade_pubkey
                    && ts[j].1 <= p[i].since;
            assert(r[j] == ts[j]);
        }
    }
    assert forall|j: int| 0 <= j < r.len() implies exists|i: int|
        0 <= i < s.len() && #[trigger] s[i].trade_pubkey == #[trigger] r[j].0 && s[i].since
            == r[j].1 by {
        if j == ts.len() {
            assert(s[s.len() - 1].trade_pubkey == r[j].0);
        } else {
            assert(r[j] == ts[j]);
            let i = choose|i: int|
                0 <= i < p.len() && #[trigger] p[i].trade_pubkey == #[trigger] ts[j].0
                    && p[i].since == ts[j].1;
            assert(s[i] == p[i]);
        }
    }
}

/// Reconnect catch-up targets: every waiter's key appears exactly once, with a `since`
/// no later than any of that key's waiters and equal to one of them.
pub proof fn oldest_since_targets_law(s: Seq<WaiterView>)
    ensures
        targets_unique(oldest_since_targets(s)),
        targets_cover(s, oldest_since_targets(s)),
        targets_witnessed(s, oldest_since_targets(s)),
    decreases s.len(),
{
    if s.len() > 0 {
        let p = s.drop_last();
        oldest_since_targets_law(p);
        let ts = oldest_since_targets(p);
        lemma_index_of_key(ts, s.last().trade_pubkey);
        let r = oldest_since_targets(s);
        assert(r == merge_target(ts, s.last().trade_pubkey, s.last().since));
        match index_of_key(ts, s.last().trade_pubkey) {
            Some(jj) => lemma_merge_existing(p, s, ts, r, jj),
            None => lemma_merge_new(p, s, ts, r),
        }
    }
}

/// The outcome of a registration once the swept registry holds `kept`: refused with
/// [`WAIT_FOR_DM_BUSY_MSG`], registry `kept`, when [`MAX_PENDING_WAITERS`] are kept;
/// otherwise accepted, `w` appended and the next id advanced.
pub open spec fn registered(
    kept: Seq<WaiterView>,
    next_id: u64,
    w: WaiterView,
    r: Result<(), &'static str>,
    after: Seq<WaiterView>,
    after_next_id: u64,
) -> bool {
    if kept.len() >= MAX_PENDING_WAITERS {
        &&& r == Err::<(), &'static str>(WAIT_FOR_DM_BUSY_MSG)
        &&& after == kept
        &&& after_next_id == next_id
    } else {
        &&& r is Ok
        &&& after == kept.push(w)
        &&& after_next_id == next_id.wrapping_add(1)
    }
}

impl<K, T> PendingWaiterRegistry<K, T> {
    /// Register a waiter after sweeping closed ones. Refused with [`WAIT_FOR_DM_BUSY_MSG`]
    /// when [`MAX_PENDING_WAITERS`] are still pending; otherwise appended with the next id.
    /// Which waiters are swept depends on the receivers, as [`Self::register_with_open`]
    /// states for the answers read.
    pub fn register(
        &mut self,
        trade_keys: K,
        trade_pubkey: String,
        response_tx: tokio::sync::oneshot::Sender<T>,
        since: u64,
        expected_request_id: Option<u64>,
    ) -> (r: Result<(), &'static str>)
        requires
            old(self).wf(),
        ensures
            final(self).wf(),
            final(self).entries().len() <= MAX_PENDING_WAITERS,
            exists|open: Seq<bool>|
                open.len() == old(self).entries().len() && registered(
                    #[trigger] filter_by(old(self).entries(), open),
                    old(self).next_id_spec(),
                    WaiterView { id: old(self).next_id_spec(), trade_pubkey: trade_pubkey@, since, expected_request_id },
                    r,
                    final(self).entries(),
                    final(self).next_id_spec(),
                ),
    {
        let open = self.open_flags();
        let r = self.register_with_open(&open, trade_keys, trade_pubkey, response_tx, since, expected_request_id);
        r
    }

    /// Register a waiter, keeping exactly the waiters whose `open` flag is set: accepted
    /// if and only if fewer than [`MAX_PENDING_WAITERS`] of them are open, and then
    /// appended with the next id; refused with [`WAIT_FOR_DM_BUSY_MSG`] otherwise.
    pub fn register_with_open(
        &mut self,
        open: &Vec<bool>,
        trade_keys: K,
        trade_pubkey: String,
        response_tx: tokio::sync::oneshot::Sender<T>,
        since: u64,
        expected_request_id: Option<u64>,
    ) -> (r: Result<(), &'static str>)
        requires
            old(self).wf(),
            open@.len() == old(self).entries().len(),
        ensures
            final(self).wf(),
            final(self).entries().len() <= MAX_PENDING_WAITERS,
            registered(
                filter_by(old(self).entries(), open@),
                old(self).next_id_spec(),
                WaiterView { id: old(self).next_id_spec(), trade_pubkey: trade_pubkey@, since, expected_request_id },
                r,
                final(self).entries(),
                final(self).next_id_spec(),
            ),
            r is Ok <==> filter_by(old(self).entries(), open@).len() < MAX_PENDING_WAITERS,
    {
        self.prune_by_open(open);
        if self.waiters.len() >= MAX_PENDING_WAITERS {
            return Err(WAIT_FOR_DM_BUSY_MSG);
        }
        let id = self.next_id;
        self.next_id = self.next_id.wrapping_add(1);
        let ghost before = self.entries();
        self.waiters.push(
            PendingDmWaiter { id, trade_keys, trade_pubkey, response_tx, since, expected_request_id },
        );
        assert(self.entries() =~= before.push(self.waiters@.last().info()));
        Ok(())
    }

    /// Remove the first waiter with `id` and deliver `event` to it. Returns false when no
    /// waiter has that id (nothing changes) or when its receiver is already gone.
    pub fn take_and_send(&mut self, id: u64, event: T) -> (r: bool)
        requires
            old(self).wf(),
        ensures
            final(self).wf(),
            final(self).next_id_spec() == old(self).next_id_spec(),
            match position_of_id(old(self).entries(), id) {
                None => !r && final(self).entries() == old(self).entries(),
                Some(p) => final(self).entries() == old(self).entries().remove(p),
            },
    {
        let ghost before = self.entries();
        let mut i: usize = 0;
        assert(before.subrange(0, before.len() as int) =~= before);
        while i < self.waiters.len()
            invariant
                self.entries() == before,
                self.next_id_spec() == old(self).next_id_spec(),
                before == old(self).entries(),
                i <= self.waiters@.len(),
                self.waiters@.len() <= MAX_PENDING_WAITERS,
                position_of_id(before, id) == shift(position_of_id(before.subrange(i as int, before.len() as int), id), i as int),
            decreases self.waiters.len() - i,
        {
            if self.waiters[i].id == id {
                proof {
                    let rest = before.subrange(i as int, before.len() as int);
                    assert(rest[0].id == id);
                }
                let w = self.waiters.remove(i);
                assert(self.entries() =~= before.remove(i as int));
                return oneshot_send(w.response_tx, event);
            }
            proof {
                let rest = before.subrange(i as int, before.len() as int);
                assert(rest.drop_first() =~= before.subrange(i + 1, before.len() as int));
            }
            i = i + 1;
        }
        proof {
            assert(before.subrange(i as int, before.len() as int) =~= Seq::<WaiterView>::empty());
        }
        false
    }

    /// Probe data for the waiters whose receiver is still open, in registration order.
    /// Which receivers are open depends on them, as [`Self::snapshot_candidates_of`]
    /// states for the answers read.
    pub fn snapshot_candidates(&self) -> (r: Vec<PendingWaiterSnapshot<K>>)
        where K: Clone
        requires
            self.wf(),
        ensures
            exists|open: Seq<bool>|
                open.len() == self.entries().len() && probe_views(#[trigger] filter_by(self.entries(), open)) == r@.map_values(
                    |c: PendingWaiterSnapshot<K>| (c.id, c.since, c.expected_request_id),
                ) && r@.len() == filter_by(self.trade_keys_of(), open).len() && forall|k: int|
                    0 <= k < r@.len() ==> cloned(filter_by(self.trade_keys_of(), open)[k], #[trigger] r@[k].trade_keys),
    {
        let open = self.open_flags();
        self.snapshot_candidates_of(&open)
    }

    /// Probe data for the waiters whose `open` flag is set, in registration order.
    pub fn snapshot_candidates_of(&self, open: &Vec<bool>) -> (r: Vec<PendingWaiterSnapshot<K>>)
        where K: Clone
        requires
            self.wf(),
            open@.len() == self.entries().len(),
        ensures
            probe_views(filter_by(self.entries(), open@)) == r@.map_values(
                |c: PendingWaiterSnapshot<K>| (c.id, c.since, c.expected_request_id),
            ),
            r@.len() == filter_by(self.trade_keys_of(), open@).len(),
            forall|k: int|
                0 <= k < r@.len() ==> cloned(filter_by(self.trade_keys_of(), open@)[k], #[trigger] r@[k].trade_keys),
    {
        let mut out: Vec<PendingWaiterSnapshot<K>> = Vec::new();
        let mut keep: Ghost<Seq<bool>> = Ghost(Seq::empty());
        let ghost all = self.entries();
        let ghost keys = self.trade_keys_of();
        let mut i: usize = 0;
        assert(keep@ =~= open@.subrange(0, 0));
        while i < self.waiters.len()
            invariant
                all == self.entries(),
                i <= self.waiters@.len(),
                keep@.len() == i,
                open@.len() == all.len(),
                keep@ == open@.subrange(0, i as int),
                keys == self.trade_keys_of(),
                keys.len() == all.len(),
                out@.len() == filter_by(keys.subrange(0, i as int), keep@).len(),
                forall|k: int|
                    0 <= k < out@.len() ==> cloned(filter_by(keys.subrange(0, i as int), keep@)[k], #[trigger] out@[k].trade_keys),
                probe_views(filter_by(all.subrange(0, i as int), keep@))
                    == out@.map_values(
                    |c: PendingWaiterSnapshot<K>| (c.id, c.since, c.expected_request_id),
                ),
            decreases self.waiters.len() - i,
        {
            let w = &self.waiters[i];
            let ghost old_keep = keep@;
            let ghost old_out = out@.map_values(
                |c: PendingWaiterSnapshot<K>| (c.id, c.since, c.expected_request_id),
            );
            assert(all.subrange(0, i + 1).drop_last() =~= all.subrange(0, i as int));
            assert(all.subrange(0, i + 1).last() == w.info());
            let ghost old_out_full = out@;
            assert(keys.subrange(0, i + 1).drop_last() =~= keys.subrange(0, i as int));
            assert(keys.subrange(0, i + 1).last() == w.trade_keys);
            if open[i] {
                let kc = w.trade_keys.clone();
                out.push(
                    PendingWaiterSnapshot {
                        id: w.id,
                        trade_keys: kc,
                        since: w.since,
                        expected_request_id: w.expected_request_id,
                    },
                );
                proof {
                    keep@ = keep@.push(true);
                    assert(keep@.drop_last() =~= old_keep);
                    assert(keep@ =~= open@.subrange(0, i + 1));
                    assert(out@.map_values(
                        |c: PendingWaiterSnapshot<K>| (c.id, c.since, c.expected_request_id),
                    ) =~= old_out.push(probe_view(w.info())));
                    assert(filter_by(all.subrange(0, i + 1), keep@) == filter_by(
                        all.subrange(0, i as int),
                        old_keep,
                    ).push(w.info()));
                    assert(probe_views(filter_by(all.subrange(0, i + 1), keep@)) =~= probe_views(
                        filter_by(all.subrange(0, i as int), old_keep),
                    ).push(probe_view(w.info())));
                    let fk = filter_by(keys.subrange(0, i as int), old_keep);
                    assert(filter_by(keys.subrange(0, i + 1), keep@) == fk.push(w.trade_keys));
                    assert forall|k: int| 0 <= k < out@.len() implies cloned(
                        filter_by(keys.subrange(0, i + 1), keep@)[k],
                        #[trigger] out@[k].trade_keys,
                    ) by {
                        if k < old_out_full.len() {
                            assert(out@[k] == old_out_full[k]);
                        }
                    }
                }
            } else {
                proof {
                    keep@ = keep@.push(false);
                    assert(keep@.drop_last() =~= old_keep);
                    assert(keep@ =~= open@.subrange(0, i + 1));
                    assert(filter_by(keys.subrange(0, i + 1), keep@) == filter_by(keys.subrange(0, i as int), old_keep));
                }
            }
            i = i + 1;
        }
        assert(all.subrange(0, i as int) =~= all);
        assert(keys.subrange(0, i as int) =~= keys);
        assert(keep@ =~= open@);
        out
    }

    /// Unique trade pubkeys of the waiters whose receiver is still open, each with the
    /// oldest `since` among that key's waiters (reconnect catch-up window).
    /// Which receivers are open depends on them, as [`Self::snapshot_targets_of`] states
    /// for the answers read.
    pub fn snapshot_targets(&self) -> (r: Vec<(String, u64)>)
        requires
            self.wf(),
        ensures
            exists|open: Seq<bool>|
                open.len() == self.entries().len() && oldest_since_targets(
                    #[trigger] filter_by(self.entries(), open),
                ) == r@.map_values(|t: (String, u64)| (t.0@, t.1)),
    {
        let open = self.open_flags();
        self.snapshot_targets_of(&open)
    }

    /// Unique trade pubkeys of the waiters whose `open` flag is set, each with the oldest
    /// `since` among those waiters of that key.
    pub fn snapshot_targets_of(&self, open: &Vec<bool>) -> (r: Vec<(String, u64)>)
        requires
            self.wf(),
            open@.len() == self.entries().len(),
        ensures
            oldest_since_targets(filter_by(self.entries(), open@)) == r@.map_values(
                |t: (String, u64)| (t.0@, t.1),
            ),
    {
        let mut out: Vec<(String, u64)> = Vec::new();
        let mut keep: Ghost<Seq<bool>> = Ghost(Seq::empty());
        let ghost all = self.entries();
        let mut i: usize = 0;
        assert(keep@ =~= open@.subrange(0, 0));
        while i < self.waiters.len()
            invariant
                all == self.entries(),
                i <= self.waiters@.len(),
                keep@.len() == i,
                open@.len() == all.len(),
                keep@ == open@.subrange(0, i as int),
                oldest_since_targets(filter_by(all.subrange(0, i as int), keep@)) == out@.map_values(
                    |t: (String, u64)| (t.0@, t.1),
                ),
            decreases self.waiters.len() - i,
        {
            let w = &self.waiters[i];
            let ghost old_keep = keep@;
            assert(all.subrange(0, i + 1).drop_last() =~= all.subrange(0, i as int));
            assert(all.subrange(0, i + 1).last() == w.info());
            if open[i] {
                merge_target_into(&mut out, &w.trade_pubkey, w.since);
                proof {
                    keep@ = keep@.push(true);
                    assert(keep@.drop_last() =~= old_keep);
                    assert(keep@ =~= open@.subrange(0, i + 1));
                    let f = filter_by(all.subrange(0, i + 1), keep@);
                    assert(f == filter_by(all.subrange(0, i as int), old_keep).push(w.info()));
                    assert(f.drop_last() =~= filter_by(all.subrange(0, i as int), old_keep));
                }
            } else {
                proof {
                    keep@ = keep@.push(false);
                    assert(keep@.drop_last() =~= old_keep);
                    assert(keep@ =~= open@.subrange(0, i + 1));
                }
            }
            i = i + 1;
        }
        assert(all.subrange(0, i as int) =~= all);
        assert(keep@ =~= open@);
        out
    }
}

/// Fold one `(key, since)` into the targets, as [`merge_target`] does.
fn merge_target_into(out: &mut Vec<(String, u64)>, key: &String, since: u64)
    ensures
        final(out)@.map_values(|t: (String, u64)| (t.0@, t.1)) == merge_target(
            old(out)@.map_values(|t: (String, u64)| (t.0@, t.1)),
            key@,
            since,
        ),
{
    let ghost ts = out@.map_values(|t: (String, u64)| (t.0@, t.1));
    let mut j: usize = 0;
    assert(ts.subrange(0, ts.len() as int) =~= ts);
    while j < out.len()
        invariant
            ts == out@.map_values(|t: (String, u64)| (t.0@, t.1)),
            out@ == old(out)@,
            j <= out@.len(),
            index_of_key(ts, key@) == shift(index_of_key(ts.subrange(j as int, ts.len() as int), key@), j as int),
        decreases out.len() - j,
    {
        if out[j].0 == *key {
            proof {
                let rest = ts.subrange(j as int, ts.len() as int);
                assert(rest[0].0 == key@);
                assert(index_of_key(rest, key@) == Some(0int));
                assert(index_of_key(ts, key@) == Some(j as int));
            }
            let old_since = out[j].1;
            let new_since = if since < old_since {
                since
            } else {
                old_since
            };
            let k = key.clone();
            out.set(j, (k, new_since));
            assert(out@.map_values(|t: (String, u64)| (t.0@, t.1)) =~= ts.update(
                j as int,
                (key@, new_since),
            ));
            return;
        }
        proof {
            let rest = ts.subrange(j as int, ts.len() as int);
            assert(rest.drop_first() =~= ts.subrange(j + 1, ts.len() as int));
        }
        j = j + 1;
    }
    proof {
        assert(ts.subrange(j as int, ts.len() as int) =~= Seq::<(Seq<char>, u64)>::empty());
    }
    out.push((key.clone(), since));
    assert(out@.map_values(|t: (String, u64)| (t.0@, t.1)) =~= ts.push((key@, since)));
}

} // verus!
