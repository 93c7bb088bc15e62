//! Relay subscription and fetch filters, as plain values: protocol DMs from Mostro, their
//! catch-up and replay windows, live chat events, and Mostro's list snapshots.
use vstd::prelude::*;
use crate::blossom::copy_range;
use crate::chat::byte_views;
use crate::order::Transport;
use crate::order_book::{list_event_kind, list_kind_event, ListKind, UnsupportedListKind, MOSTRO_LIST_FETCH_EVENT_LIMIT};
use crate::restore::bytes_equal;

verus! {

/// Kind of a private direct message (protocol v2 DMs and chat events).
pub const PRIVATE_DIRECT_MESSAGE_KIND: u16 = 14;

/// Most stored events fetched when a waiter catches up after a reconnect.
pub const WAIT_FOR_DM_CATCHUP_LIMIT: usize = 32;

/// Most stored events fetched when replaying one order's trade DMs at startup.
pub const STARTUP_TRADE_DM_FETCH_LIMIT: usize = 100;

/// A relay filter: event kinds, authors, `#p` tags (keys as raw bytes), lower time bound
/// and result limit. Empty lists leave that field out.
pub struct FilterSpec {
    pub kinds: Vec<u16>,
    pub authors: Vec<Vec<u8>>,
    pub p_tags: Vec<Vec<u8>>,
    pub since: Option<u64>,
    pub limit: Option<usize>,
}

fn copy_key(k: &Vec<u8>) -> (r: Vec<u8>)
    ensures
        r@ == k@,
{
    copy_range(k.as_slice(), 0, k.len())
}

/// Protocol DMs from Mostro to a trade key: kind 14 authored by Mostro, with the trade
/// key as `#p`, except when the trade key is Mostro's own (an admin using the Mostro key),
/// where replies may omit `#p`.
pub fn filter_protocol_dm_from_mostro(transport: Transport, mostro_pubkey: &Vec<u8>, trade_pubkey: &Vec<u8>) -> (r: FilterSpec)
    ensures
        r.kinds@ == seq![PRIVATE_DIRECT_MESSAGE_KIND],
        byte_views(r.authors@) == seq![mostro_pubkey@],
        byte_views(r.p_tags@) == if mostro_pubkey@ == trade_pubkey@ {
            Seq::<Seq<u8>>::empty()
        } else {
            seq![trade_pubkey@]
        },
        r.since is None,
        r.limit is None,
{
    let mut kinds: Vec<u16> = Vec::new();
    kinds.push(PRIVATE_DIRECT_MESSAGE_KIND);
    let mut authors: Vec<Vec<u8>> = Vec::new();
    authors.push(copy_key(mostro_pubkey));
    let mut p_tags: Vec<Vec<u8>> = Vec::new();
    if !bytes_equal(mostro_pubkey, trade_pubkey) {
        p_tags.push(copy_key(trade_pubkey));
    }
    let r = FilterSpec { kinds, authors, p_tags, since: None, limit: None };
    assert(r.kinds@ =~= seq![PRIVATE_DIRECT_MESSAGE_KIND]);
    assert(byte_views(r.authors@) =~= seq![mostro_pubkey@]);
    assert(byte_views(r.p_tags@) =~= if mostro_pubkey@ == trade_pubkey@ {
        Seq::<Seq<u8>>::empty()
    } else {
        seq![trade_pubkey@]
    });
    r
}

/// How a protocol DM subscription treats stored events.
#[derive(Debug, Clone, Copy, PartialEq, Eq, Structural)]
pub enum DmSubscriptionMode {
    /// Startup catch-up: the latest stored event only.
    StartupCatchUp,
    /// Startup catch-up from a persisted cursor.
    StartupSince(i64),
    /// Live events only.
    LiveOnly,
    /// Stored events since a waiter registered, then live.
    WaiterCatchUp(u64),
}

/// Apply a subscription mode to a base filter: latest event only (limit 1), from a
/// cursor (a negative cursor means `now`), live only (limit 0), or from a waiter's
/// `since`.
pub fn protocol_dm_filter_for_mode(base: FilterSpec, mode: DmSubscriptionMode, now: u64) -> (r: FilterSpec)
    ensures
        r.kinds == base.kinds,
        r.authors == base.authors,
        r.p_tags == base.p_tags,
        match mode {
            DmSubscriptionMode::StartupCatchUp => r.since == base.since && r.limit == Some(1usize),
            DmSubscriptionMode::StartupSince(ts) => r.since == Some(
                if ts >= 0 {
                    ts as u64
                } else {
                    now
                },
            ) && r.limit == base.limit,
            DmSubscriptionMode::LiveOnly => r.since == base.since && r.limit == Some(0usize),
            DmSubscriptionMode::WaiterCatchUp(ts) => r.since == Some(ts) && r.limit == base.limit,
        },
{
    let mut f = base;
    match mode {
        DmSubscriptionMode::StartupCatchUp => {
            f.limit = Some(1);
        },
        DmSubscriptionMode::StartupSince(ts) => {
            f.since = Some(
                if ts >= 0 {
                    ts as u64
                } else {
                    now
                },
            );
        },
        DmSubscriptionMode::LiveOnly => {
            f.limit = Some(0);
        },
        DmSubscriptionMode::WaiterCatchUp(ts) => {
            f.since = Some(ts);
        },
    }
    f
}

/// Catch-up fetch for a waiter: its protocol DM filter from `since`, at most
/// [`WAIT_FOR_DM_CATCHUP_LIMIT`] events.
pub fn waiter_catch_up_filter(transport: Transport, mostro_pubkey: &Vec<u8>, waiter_pubkey: &Vec<u8>, since: u64) -> (r: FilterSpec)
    ensures
        r.kinds@ == seq![PRIVATE_DIRECT_MESSAGE_KIND],
        byte_views(r.authors@) == seq![mostro_pubkey@],
        byte_views(r.p_tags@) == if mostro_pubkey@ == waiter_pubkey@ {
            Seq::<Seq<u8>>::empty()
        } else {
            seq![waiter_pubkey@]
        },
        r.since == Some(since),
        r.limit == Some(WAIT_FOR_DM_CATCHUP_LIMIT),
{
    let mut f = filter_protocol_dm_from_mostro(transport, mostro_pubkey, waiter_pubkey);
    f.since = Some(since);
    f.limit = Some(WAIT_FOR_DM_CATCHUP_LIMIT);
    f
}

/// Startup replay fetch for one order: its protocol DM filter, at most
/// [`STARTUP_TRADE_DM_FETCH_LIMIT`] events, from the replay cursor when there is one.
pub fn trade_dm_replay_fetch_filter(
    transport: Transport,
    mostro_pubkey: &Vec<u8>,
    trade_pubkey: &Vec<u8>,
    last_seen_dm_ts: Option<i64>,
    lookback_start: u64,
) -> (r: FilterSpec)
    ensures
        r.kinds@ == seq![PRIVATE_DIRECT_MESSAGE_KIND],
        byte_views(r.authors@) == seq![mostro_pubkey@],
        byte_views(r.p_tags@) == if mostro_pubkey@ == trade_pubkey@ {
            Seq::<Seq<u8>>::empty()
        } else {
            seq![trade_pubkey@]
        },
        r.limit == Some(STARTUP_TRADE_DM_FETCH_LIMIT),
        r.since == match last_seen_dm_ts {
            Some(ts) => if ts >= 0 {
                let m = if (ts as int) <= (lookback_start as int) {
                    ts as int
                } else {
                    lookback_start as int
                };
                Some(
                    (if m >= crate::trade_dm::STARTUP_GIFTWRAP_ENVELOPE_SKEW_SECS {
                        m - crate::trade_dm::STARTUP_GIFTWRAP_ENVELOPE_SKEW_SECS
                    } else {
                        0
                    }) as u64,
                )
            } else {
                None
            },
            None => None,
        },
{
    let mut f = filter_protocol_dm_from_mostro(transport, mostro_pubkey, trade_pubkey);
    f.since = crate::trade_dm::replay_since(last_seen_dm_ts, lookback_start);
    f.limit = Some(STARTUP_TRADE_DM_FETCH_LIMIT);
    f
}

/// Live chat filter: kind 14 authored by any of the followed chats' signing keys, live
/// events only.
pub fn live_chat_filters(sign_pubkeys: &Vec<Vec<u8>>) -> (r: FilterSpec)
    ensures
        r.kinds@ == seq![PRIVATE_DIRECT_MESSAGE_KIND],
        byte_views(r.authors@) == byte_views(sign_pubkeys@),
        r.p_tags@ == Seq::<Vec<u8>>::empty(),
        r.since is None,
        r.limit == Some(0usize),
{
    let mut kinds: Vec<u16> = Vec::new();
    kinds.push(PRIVATE_DIRECT_MESSAGE_KIND);
    let mut authors: Vec<Vec<u8>> = Vec::new();
    let mut i: usize = 0;
    while i < sign_pubkeys.len()
        invariant
            i <= sign_pubkeys.len(),
            byte_views(authors@) == byte_views(sign_pubkeys@).subrange(0, i as int),
        decreases sign_pubkeys.len() - i,
    {
        let ghost before = byte_views(authors@);
        authors.push(copy_key(&sign_pubkeys[i]));
        assert(byte_views(authors@) =~= before.push(sign_pubkeys@[i as int]@));
        i = i + 1;
        assert(byte_views(authors@) =~= byte_views(sign_pubkeys@).subrange(0, i as int));
    }
    assert(byte_views(sign_pubkeys@).subrange(0, sign_pubkeys.len() as int) =~= byte_views(sign_pubkeys@));
    let r = FilterSpec { kinds, authors, p_tags: Vec::new(), since: None, limit: Some(0) };
    assert(r.kinds@ =~= seq![PRIVATE_DIRECT_MESSAGE_KIND]);
    r
}

/// Fetch filter for Mostro list snapshots: events of `kind` authored by Mostro, at most
/// [`MOSTRO_LIST_FETCH_EVENT_LIMIT`] of them, with no time window.
pub fn create_mostro_list_fetch_filter(kind: u16, pubkey: &Vec<u8>) -> (r: FilterSpec)
    ensures
        r.kinds@ == seq![kind],
        byte_views(r.authors@) == seq![pubkey@],
        r.p_tags@ == Seq::<Vec<u8>>::empty(),
        r.since is None,
        r.limit == Some(MOSTRO_LIST_FETCH_EVENT_LIMIT),
{
    let mut kinds: Vec<u16> = Vec::new();
    kinds.push(kind);
    let mut authors: Vec<Vec<u8>> = Vec::new();
    authors.push(copy_key(pubkey));
    let r = FilterSpec { kinds, authors, p_tags: Vec::new(), since: None, limit: Some(MOSTRO_LIST_FETCH_EVENT_LIMIT) };
    assert(r.kinds@ =~= seq![kind]);
    assert(byte_views(r.authors@) =~= seq![pubkey@]);
    r
}

/// The list fetch filter for a list kind; kinds other than orders and disputes are
/// refused.
pub fn create_filter(list_kind: ListKind, pubkey: &Vec<u8>) -> (r: Result<FilterSpec, UnsupportedListKind>)
    ensures
        match list_kind_event(list_kind) {
            Ok(k) => r matches Ok(f) && f.kinds@ == seq![k] && byte_views(f.authors@) == seq![pubkey@]
                && f.p_tags@ == Seq::<Vec<u8>>::empty() && f.since is None && f.limit == Some(
                MOSTRO_LIST_FETCH_EVENT_LIMIT,
            ),
            Err(_) => r is Err,
        },
{
    match list_event_kind(list_kind) {
        Ok(k) => Ok(create_mostro_list_fetch_filter(k, pubkey)),
        Err(e) => Err(e),
    }
}

/// Whether `k` is among `keys`.
pub open spec fn has_key(keys: Seq<Vec<u8>>, k: Seq<u8>) -> bool {
    exists|i: int| 0 <= i < keys.len() && (#[trigger] keys[i])@ == k
}

fn contains_key(keys: &Vec<Vec<u8>>, k: &Vec<u8>) -> (r: bool)
    ensures
        r == has_key(keys@, k@),
{
    let mut i: usize = 0;
    while i < keys.len()
        invariant
            i <= keys.len(),
            forall|j: int| 0 <= j < i ==> (#[trigger] keys@[j])@ != k@,
        decreases keys.len() - i,
    {
        if bytes_equal(&keys[i], k) {
            return true;
        }
        i = i + 1;
    }
    false
}

/// Waiter targets still needing a subscription: those not marked subscribed, or marked
/// but with no subscription id on record.
pub open spec fn needing_subscription(
    targets: Seq<(Vec<u8>, u64)>,
    subscribed: Seq<Vec<u8>>,
    with_subscription: Seq<Vec<u8>>,
) -> Seq<(Seq<u8>, u64)>
    decreases targets.len(),
{
    if targets.len() == 0 {
        Seq::empty()
    } else {
        let rest = needing_subscription(targets.drop_last(), subscribed, with_subscription);
        let t = targets.last();
        if !has_key(subscribed, t.0@) || !has_key(with_subscription, t.0@) {
            rest.push((t.0@, t.1))
        } else {
            rest
        }
    }
}

/// Select the waiter targets that a subscribe retry must cover, in order.
pub fn waiter_targets_needing_subscription(
    targets: &Vec<(Vec<u8>, u64)>,
    subscribed: &Vec<Vec<u8>>,
    with_subscription: &Vec<Vec<u8>>,
) -> (r: Vec<(Vec<u8>, u64)>)
    ensures
        r@.map_values(|t: (Vec<u8>, u64)| (t.0@, t.1)) == needing_subscription(targets@, subscribed@, with_subscription@),
{
    let mut out: Vec<(Vec<u8>, u64)> = Vec::new();
    let mut i: usize = 0;
    proof {
        assert(targets@.subrange(0, 0) =~= Seq::<(Vec<u8>, u64)>::empty());
        assert(out@.map_values(|t: (Vec<u8>, u64)| (t.0@, t.1)) =~= Seq::<(Seq<u8>, u64)>::empty());
    }
    while i < targets.len()
        invariant
            i <= targets.len(),
            out@.map_values(|t: (Vec<u8>, u64)| (t.0@, t.1)) == needing_subscription(
                targets@.subrange(0, i as int),
                subscribed@,
                with_subscription@,
            ),
        decreases targets.len() - i,
    {
        proof {
            assert(targets@.subrange(0, i + 1).drop_last() =~= targets@.subrange(0, i as int));
        }
        let key = &targets[i].0;
        if !contains_key(subscribed, key) || !contains_key(with_subscription, key) {
            let ghost before = out@.map_values(|t: (Vec<u8>, u64)| (t.0@, t.1));
            out.push((copy_key(key), targets[i].1));
            assert(out@.map_values(|t: (Vec<u8>, u64)| (t.0@, t.1)) =~= before.push((targets@[i as int].0@, targets@[i as int].1)));
        }
        i = i + 1;
    }
    proof {
        assert(targets@.subrange(0, targets.len() as int) =~= targets@);
    }
    out
}

/// `keys` without every copy of `k`, order kept.
pub open spec fn without_key(keys: Seq<Vec<u8>>, k: Seq<u8>) -> Seq<Seq<u8>>
    decreases keys.len(),
{
    if keys.len() == 0 {
        Seq::empty()
    } else if keys.last()@ == k {
        without_key(keys.drop_last(), k)
    } else {
        without_key(keys.drop_last(), k).push(keys.last()@)
    }
}

/// Forget a failed waiter subscription: the key is dropped from both the subscribed
/// keys and the keys with a subscription id.
pub fn note_waiter_subscribe_failure(subscribed: &mut Vec<Vec<u8>>, with_subscription: &mut Vec<Vec<u8>>, trade_pubkey: &Vec<u8>)
    ensures
        byte_views(final(subscribed)@) == without_key(old(subscribed)@, trade_pubkey@),
        byte_views(final(with_subscription)@) == without_key(old(with_subscription)@, trade_pubkey@),
{
    remove_key(subscribed, trade_pubkey);
    remove_key(with_subscription, trade_pubkey);
}

fn remove_key(keys: &mut Vec<Vec<u8>>, k: &Vec<u8>)
    ensures
        byte_views(final(keys)@) == without_key(old(keys)@, k@),
{
    let ghost s = keys@;
    let mut taken: Vec<Vec<u8>> = Vec::new();
    std::mem::swap(&mut taken, keys);
    let n = taken.len();
    let mut i: usize = 0;
    proof {
        assert(s.subrange(0, 0) =~= Seq::<Vec<u8>>::empty());
        assert(byte_views(keys@) =~= Seq::<Seq<u8>>::empty());
    }
    while i < n
        invariant
            i <= n,
            n == s.len(),
            taken@ == s.subrange(i as int, n as int),
            byte_views(keys@) == without_key(s.subrange(0, i as int), k@),
        decreases n - i,
    {
        proof {
            assert(s.subrange(0, i + 1).drop_last() =~= s.subrange(0, i as int));
        }
        let e = taken.remove(0);
        proof {
            assert(e == s[i as int]);
            assert(taken@ =~= s.subrange(i + 1, n as int));
        }
        if !bytes_equal(&e, k) {
            let ghost before = byte_views(keys@);
            keys.push(e);
            assert(byte_views(keys@) =~= before.push(s[i as int]@));
        }
        i = i + 1;
    }
    proof {
        assert(s.subrange(0, n as int) =~= s);
    }
}

} // verus!
