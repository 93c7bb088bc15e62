//! The public order book: orders read from the tags of Mostro's order events, newest
//! revision per order, filtered and sorted newest first.
use vstd::prelude::*;
use crate::new_order::{kind_from_text, parse_order_kind};
use crate::order::{parse_order_status, status_from_text, OrderKind, OrderStatus, SmallOrder};
use crate::text::{chars_eq_str, chars_of, contains_char, parse_i64_chars, parse_signed64, string_of};

verus! {

/// Order id of a text, as `uuid::Uuid::parse_str` reads it.
pub uninterp spec fn uuid_of_text(s: Seq<char>) -> Option<u128>;

/// `uuid::Uuid::parse_str` followed by `as_u128`: the UUID a text spells (hyphenated,
/// simple, braced or URN form), or `None`. The contract names the outcome.
#[verifier::external_body]
pub(crate) fn parse_uuid(s: &str) -> (r: Option<u128>)
    ensures
        r == uuid_of_text(s@),
{
    uuid::Uuid::parse_str(s).ok().map(|u| u.as_u128())
}

/// First value of a tag (empty when it has none).
pub open spec fn first_value(t: Seq<Seq<char>>) -> Seq<char> {
    if t.len() > 1 {
        t[1]
    } else {
        Seq::<char>::empty()
    }
}

pub open spec fn has_key(t: Seq<Seq<char>>, k: Seq<char>) -> bool {
    t.len() > 0 && t[0] == k
}

/// A fiat-amount tag that is read (its value has no decimal point) with a single value.
pub open spec fn fa_single(t: Seq<Seq<char>>) -> bool {
    has_key(t, "fa"@) && !first_value(t).contains('.') && t.len() <= 2
}

/// A fiat-amount tag that is read with a minimum and a maximum.
pub open spec fn fa_range(t: Seq<Seq<char>>) -> bool {
    has_key(t, "fa"@) && !first_value(t).contains('.') && t.len() > 2
}

/// The tags an order field is read from.
#[derive(Debug, Clone, Copy, PartialEq, Eq, Structural)]
pub enum TagSlot {
    Id,
    Kind,
    Fiat,
    Status,
    Amount,
    FiatAmount,
    FiatRange,
    PaymentMethod,
    Premium,
}

/// Whether tag `t` sets the field of `slot`.
pub open spec fn sets_slot(t: Seq<Seq<char>>, slot: TagSlot) -> bool {
    match slot {
        TagSlot::Id => has_key(t, "d"@),
        TagSlot::Kind => has_key(t, "k"@),
        TagSlot::Fiat => has_key(t, "f"@),
        TagSlot::Status => has_key(t, "s"@),
        TagSlot::Amount => has_key(t, "amt"@),
        TagSlot::FiatAmount => fa_single(t),
        TagSlot::FiatRange => fa_range(t),
        TagSlot::PaymentMethod => has_key(t, "pm"@),
        TagSlot::Premium => has_key(t, "premium"@),
    }
}

/// The last tag that sets the field of `slot`.
pub open spec fn last_tag(tags: Seq<Seq<Seq<char>>>, slot: TagSlot) -> Option<Seq<Seq<char>>>
    decreases tags.len(),
{
    if tags.len() == 0 {
        None
    } else if sets_slot(tags.last(), slot) {
        Some(tags.last())
    } else {
        last_tag(tags.drop_last(), slot)
    }
}

proof fn lemma_last_tag_push(prefix: Seq<Seq<Seq<char>>>, t: Seq<Seq<char>>, slot: TagSlot)
    ensures
        last_tag(prefix.push(t), slot) == if sets_slot(t, slot) {
            Some(t)
        } else {
            last_tag(prefix, slot)
        },
{
    assert(prefix.push(t).drop_last() =~= prefix);
}

/// A number as `str::parse::<i64>` reads it, `0` when it does not parse.
pub open spec fn i64_or_zero(s: Seq<char>) -> i64 {
    match parse_signed64(s) {
        Some(v) => v as i64,
        None => 0,
    }
}

pub open spec fn i64_opt(s: Seq<char>) -> Option<i64> {
    match parse_signed64(s) {
        Some(v) => Some(v as i64),
        None => None,
    }
}

/// `values.join(",")`.
pub open spec fn join_commas(values: Seq<Seq<char>>) -> Seq<char>
    decreases values.len(),
{
    if values.len() == 0 {
        Seq::empty()
    } else if values.len() == 1 {
        values[0]
    } else {
        join_commas(values.drop_last()) + seq![','] + values.last()
    }
}

pub open spec fn tags_id(tags: Seq<Seq<Seq<char>>>) -> Option<u128> {
    match last_tag(tags, TagSlot::Id) {
        Some(t) => uuid_of_text(first_value(t)),
        None => None,
    }
}

pub open spec fn tags_kind(tags: Seq<Seq<Seq<char>>>) -> Option<OrderKind> {
    match last_tag(tags, TagSlot::Kind) {
        Some(t) => kind_from_text(first_value(t)),
        None => None,
    }
}

pub open spec fn tags_fiat(tags: Seq<Seq<Seq<char>>>) -> Seq<char> {
    match last_tag(tags, TagSlot::Fiat) {
        Some(t) => first_value(t),
        None => Seq::empty(),
    }
}

/// A status tag that does not parse means `Pending`.
pub open spec fn tags_status(tags: Seq<Seq<Seq<char>>>) -> Option<OrderStatus> {
    match last_tag(tags, TagSlot::Status) {
        Some(t) => match status_from_text(first_value(t)) {
            Some(s) => Some(s),
            None => Some(OrderStatus::Pending),
        },
        None => None,
    }
}

/// `order` holds exactly what the tags of an order event say (later tags override
/// earlier ones; fields without a tag keep their defaults).
pub open spec fn order_of_tags(o: SmallOrder, tags: Seq<Seq<Seq<char>>>) -> bool {
    &&& o.id == tags_id(tags)
    &&& o.kind == tags_kind(tags)
    &&& o.fiat_code@ == tags_fiat(tags)
    &&& o.status == tags_status(tags)
    &&& o.amount == match last_tag(tags, TagSlot::Amount) {
        Some(t) => i64_or_zero(first_value(t)),
        None => 0,
    }
    &&& o.fiat_amount == match last_tag(tags, TagSlot::FiatAmount) {
        Some(t) => i64_or_zero(first_value(t)),
        None => 0,
    }
    &&& o.min_amount == match last_tag(tags, TagSlot::FiatRange) {
        Some(t) => i64_opt(first_value(t)),
        None => None,
    }
    &&& o.max_amount == match last_tag(tags, TagSlot::FiatRange) {
        Some(t) => i64_opt(t[2]),
        None => None,
    }
    &&& o.payment_method@ == match last_tag(tags, TagSlot::PaymentMethod) {
        Some(t) => join_commas(t.drop_first()),
        None => Seq::empty(),
    }
    &&& o.premium == match last_tag(tags, TagSlot::Premium) {
        Some(t) => i64_or_zero(first_value(t)),
        None => 0,
    }
    &&& o.buyer_trade_pubkey is None
    &&& o.seller_trade_pubkey is None
    &&& o.buyer_invoice is None
    &&& o.created_at is None
    &&& o.expires_at is None
}

fn join_values(t: &Vec<String>) -> (r: String)
    requires
        t.len() > 0,
    ensures
        r@ == join_commas(t.deep_view().drop_first()),
{
    let mut out: Vec<char> = Vec::new();
    let mut i: usize = 1;
    let ghost vals = t.deep_view().drop_first();
    proof {
        assert(vals.subrange(0, 0) =~= Seq::<Seq<char>>::empty());
    }
    while i < t.len()
        invariant
            1 <= i <= t.len(),
            vals == t.deep_view().drop_first(),
            out@ == join_commas(vals.subrange(0, i - 1)),
        decreases t.len() - i,
    {
        let piece = chars_of(t[i].as_str());
        proof {
            let sub = vals.subrange(0, i as int);
            assert(sub.drop_last() =~= vals.subrange(0, i - 1));
            assert(sub.last() == piece@);
        }
        if i > 1 {
            out.push(',');
        }
        crate::text::append_chars(&mut out, &piece);
        proof {
            let sub = vals.subrange(0, i as int);
            if i == 1 {
                assert(vals.subrange(0, 0) =~= Seq::<Seq<char>>::empty());
                assert(out@ =~= join_commas(sub));
            } else {
                assert(out@ =~= join_commas(sub));
            }
        }
        i = i + 1;
    }
    proof {
        assert(vals.subrange(0, t.len() - 1) =~= vals);
    }
    string_of(&out)
}

/// Read an order from the tags of an order event: `d` id, `k` kind, `f` fiat code, `s`
/// status (unparsable means pending), `amt` sats, `fa` fiat amount (one value) or range
/// (two values; a decimal value makes the tag ignored), `pm` payment methods, `premium`.
pub fn order_from_tags(tags: &Vec<Vec<String>>) -> (r: SmallOrder)
    ensures
        order_of_tags(r, tags.deep_view()),
{
    let mut o = SmallOrder::default();
    let mut i: usize = 0;
    proof {
        reveal_strlit("d");
        reveal_strlit("k");
        reveal_strlit("f");
        reveal_strlit("s");
        reveal_strlit("amt");
        reveal_strlit("fa");
        reveal_strlit("pm");
        reveal_strlit("premium");
        assert(tags.deep_view().subrange(0, 0) =~= Seq::<Seq<Seq<char>>>::empty());
    }
    while i < tags.len()
        invariant
            i <= tags.len(),
            order_of_tags(o, tags.deep_view().subrange(0, i as int)),
            "d"@ == seq!['d'],
            "k"@ == seq!['k'],
            "f"@ == seq!['f'],
            "s"@ == seq!['s'],
            "amt"@ == seq!['a', 'm', 't'],
            "fa"@ == seq!['f', 'a'],
            "pm"@ == seq!['p', 'm'],
            "premium"@ == seq!['p', 'r', 'e', 'm', 'i', 'u', 'm'],
        decreases tags.len() - i,
    {
        let t: &Vec<String> = &tags[i];
        let ghost prefix = tags.deep_view().subrange(0, i as int);
        let ghost next = tags.deep_view().subrange(0, i + 1);
        let ghost tv = t.deep_view();
        proof {
            assert("d"@[0] == 'd' && "k"@[0] == 'k' && "f"@[0] == 'f' && "s"@[0] == 's');
            assert("amt"@[0] == 'a' && "fa"@[0] == 'f' && "pm"@[0] == 'p' && "premium"@[0] == 'p');
            assert(next =~= prefix.push(tv));
            lemma_last_tag_push(prefix, tv, TagSlot::Id);
            lemma_last_tag_push(prefix, tv, TagSlot::Kind);
            lemma_last_tag_push(prefix, tv, TagSlot::Fiat);
            lemma_last_tag_push(prefix, tv, TagSlot::Status);
            lemma_last_tag_push(prefix, tv, TagSlot::Amount);
            lemma_last_tag_push(prefix, tv, TagSlot::FiatAmount);
            lemma_last_tag_push(prefix, tv, TagSlot::FiatRange);
            lemma_last_tag_push(prefix, tv, TagSlot::PaymentMethod);
            lemma_last_tag_push(prefix, tv, TagSlot::Premium);
        }
        if t.len() > 0 {
            let key = chars_of(t[0].as_str());
            let v: Vec<char> = if t.len() > 1 {
                chars_of(t[1].as_str())
            } else {
                Vec::new()
            };
            let vs = string_of(&v);
            proof {
                assert(tv[0] == key@);
                assert(first_value(tv) =~= v@);
            }
            if chars_eq_str(&key, "d") {
                o.id = parse_uuid(vs.as_str());
            } else if chars_eq_str(&key, "k") {
                o.kind = parse_order_kind(vs.as_str());
            } else if chars_eq_str(&key, "f") {
                o.fiat_code = vs;
            } else if chars_eq_str(&key, "s") {
                o.status = match parse_order_status(vs.as_str()) {
                    Some(s) => Some(s),
                    None => Some(OrderStatus::Pending),
                };
            } else if chars_eq_str(&key, "amt") {
                o.amount = match parse_i64_chars(&v) {
                    Some(a) => a,
                    None => 0,
                };
            } else if chars_eq_str(&key, "fa") {
                if !contains_char(&v, '.') {
                    if t.len() > 2 {
                        o.min_amount = parse_i64_chars(&v);
                        o.max_amount = parse_i64_chars(&chars_of(t[2].as_str()));
                    } else {
                        o.fiat_amount = match parse_i64_chars(&v) {
                            Some(a) => a,
                            None => 0,
                        };
                    }
                }
            } else if chars_eq_str(&key, "pm") {
                o.payment_method = join_values(t);
            } else if chars_eq_str(&key, "premium") {
                o.premium = match parse_i64_chars(&v) {
                    Some(a) => a,
                    None => 0,
                };
            }
        }
        i = i + 1;
    }
    proof {
        assert(tags.deep_view().subrange(0, tags.len() as int) =~= tags.deep_view());
    }
    o
}

/// An order event of the book: its tags and its `created_at` (UNIX seconds).
pub struct BookEvent {
    pub tags: Vec<Vec<String>>,
    pub created_at: u64,
}

pub open spec fn ev_tags(e: BookEvent) -> Seq<Seq<Seq<char>>> {
    e.tags.deep_view()
}

/// `created_at` as the signed time stored with the order.
pub open spec fn ev_ts(e: BookEvent) -> i64 {
    e.created_at as i64
}

/// An event yields an order only when it names an id and a kind.
pub open spec fn ev_valid(e: BookEvent) -> bool {
    tags_id(ev_tags(e)) is Some && tags_kind(ev_tags(e)) is Some
}

/// The event holding the newest revision of order `k`: the latest `created_at`, the first
/// such event among equally new ones.
pub open spec fn winner(evs: Seq<BookEvent>, k: u128) -> Option<int>
    decreases evs.len(),
{
    if evs.len() == 0 {
        None
    } else {
        let prev = winner(evs.drop_last(), k);
        let e = evs.last();
        if ev_valid(e) && tags_id(ev_tags(e)) == Some(k) && match prev {
            None => true,
            Some(p) => ev_ts(e) > ev_ts(evs[p]),
        } {
            Some(evs.len() - 1)
        } else {
            prev
        }
    }
}

/// `o` is the order event `e` describes, stamped with its time.
pub open spec fn matches_event(o: SmallOrder, e: BookEvent) -> bool {
    order_of_tags(SmallOrder { created_at: None, ..o }, ev_tags(e)) && o.created_at == Some(ev_ts(e))
}

/// The book filters: status, fiat currency and kind, each when given.
pub open spec fn passes(o: SmallOrder, currency: Option<Seq<char>>, status: Option<OrderStatus>, kind: Option<OrderKind>) -> bool {
    &&& match status {
        Some(s) => o.status == Some(s),
        None => true,
    }
    &&& match currency {
        Some(c) => o.fiat_code@ == c,
        None => true,
    }
    &&& match kind {
        Some(k) => o.kind == Some(k),
        None => true,
    }
}

pub open spec fn opt_text(o: Option<String>) -> Option<Seq<char>> {
    match o {
        Some(s) => Some(s@),
        None => None,
    }
}

pub open spec fn in_ids(s: Seq<SmallOrder>, k: u128) -> bool {
    exists|m: int| 0 <= m < s.len() && #[trigger] s[m].id == Some(k)
}

pub open spec fn ts_of(o: SmallOrder) -> int {
    match o.created_at {
        Some(t) => t as int,
        None => i64::MIN - 1,
    }
}

proof fn lemma_winner_push(evs: Seq<BookEvent>, e: BookEvent, k: u128)
    ensures
        winner(evs.push(e), k) == if ev_valid(e) && tags_id(ev_tags(e)) == Some(k) && match winner(evs, k) {
            None => true,
            Some(p) => ev_ts(e) > ev_ts(evs[p]),
        } {
            Some(evs.len() as int)
        } else {
            winner(evs, k)
        },
{
    let n = evs.push(e);
    assert(n.drop_last() =~= evs);
    match winner(evs, k) {
        Some(p) => {
            lemma_winner_range(evs, k);
            assert(n[p] == evs[p]);
        },
        None => {},
    }
}

proof fn lemma_winner_range(evs: Seq<BookEvent>, k: u128)
    ensures
        winner(evs, k) matches Some(p) ==> 0 <= p < evs.len() && ev_valid(evs[p]) && tags_id(
            ev_tags(evs[p]),
        ) == Some(k),
    decreases evs.len(),
{
    if evs.len() > 0 {
        lemma_winner_range(evs.drop_last(), k);
        match winner(evs.drop_last(), k) {
            Some(p) => {
                assert(evs.drop_last()[p] == evs[p]);
            },
            None => {},
        }
    }
}

fn find_order_id(v: &Vec<SmallOrder>, id: u128) -> (r: Option<usize>)
    ensures
        match r {
            Some(p) => p < v.len() && v@[p as int].id == Some(id),
            None => forall|j: int| 0 <= j < v.len() ==> (#[trigger] v@[j]).id != Some(id),
        },
{
    let mut q: usize = 0;
    while q < v.len()
        invariant
            q <= v.len(),
            forall|j: int| 0 <= j < q ==> (#[trigger] v@[j]).id != Some(id),
        decreases v.len() - q,
    {
        if v[q].id == Some(id) {
            return Some(q);
        }
        q = q + 1;
    }
    None
}

fn created_at_least(o: &SmallOrder, ts: i64) -> (r: bool)
    ensures
        r == (ts_of(*o) >= ts),
{
    match o.created_at {
        Some(t) => t >= ts,
        None => false,
    }
}

fn passes_filters(
    o: &SmallOrder,
    currency: &Option<String>,
    status: Option<OrderStatus>,
    kind: Option<OrderKind>,
) -> (r: bool)
    ensures
        r == passes(*o, opt_text(*currency), status, kind),
{
    let status_ok = match status {
        Some(s) => o.status == Some(s),
        None => true,
    };
    let currency_ok = match currency {
        Some(c) => crate::text::chars_eq(&chars_of(o.fiat_code.as_str()), &chars_of(c.as_str())),
        None => true,
    };
    let kind_ok = match kind {
        Some(k) => o.kind == Some(k),
        None => true,
    };
    status_ok && currency_ok && kind_ok
}

/// The book: for every order id, its newest revision among the events that name an id and
/// a kind, kept when it passes the filters, newest first.
#[verifier::rlimit(60)]
pub fn parse_orders_events(
    events: &Vec<BookEvent>,
    currency: Option<String>,
    status: Option<OrderStatus>,
    kind: Option<OrderKind>,
) -> (r: Vec<SmallOrder>)
    ensures
        forall|a: int, b: int| 0 <= a < b < r.len() ==> ts_of(#[trigger] r@[a]) >= ts_of(#[trigger] r@[b]),
        forall|a: int, b: int| 0 <= a < b < r.len() ==> #[trigger] r@[a].id != #[trigger] r@[b].id,
        forall|m: int|
            0 <= m < r.len() ==> {
                &&& (#[trigger] r@[m]).id is Some
                &&& (winner(events@, r@[m].id->0) matches Some(i) && matches_event(r@[m], events@[i]))
                &&& passes(r@[m], opt_text(currency), status, kind)
            },
        forall|k: u128|
            #![trigger winner(events@, k)]
            (winner(events@, k) matches Some(i) && (exists|o: SmallOrder| matches_event(o, events@[i]) && passes(o, opt_text(currency), status, kind)))
                ==> in_ids(r@, k),
{
    // Newest revision per order id, in order of first appearance.
    let mut latest: Vec<SmallOrder> = Vec::new();
    let ghost mut src: Seq<int> = Seq::empty();
    let mut n: usize = 0;
    while n < events.len()
        invariant
            n <= events.len(),
            latest.len() == src.len(),
            forall|p: int|
                0 <= p < latest.len() ==> {
                    &&& (#[trigger] latest@[p]).id is Some
                    &&& 0 <= src[p] < n
                    &&& winner(events@.subrange(0, n as int), latest@[p].id->0) == Some(src[p])
                    &&& matches_event(latest@[p], events@[src[p]])
                },
            forall|a: int, b: int| 0 <= a < b < latest.len() ==> #[trigger] latest@[a].id != #[trigger] latest@[b].id,
            forall|k: u128|
                #![trigger winner(events@.subrange(0, n as int), k)]
                winner(events@.subrange(0, n as int), k) is Some ==> in_ids(latest@, k),
        decreases events.len() - n,
    {
        let e = &events[n];
        let ghost pre = events@.subrange(0, n as int);
        let ghost next = events@.subrange(0, n + 1);
        proof {
            assert(next =~= pre.push(events@[n as int]));
        }
        let mut o = order_from_tags(&e.tags);
        #[verifier::truncate]
        let ts: i64 = e.created_at as i64;
        o.created_at = Some(ts);
        let valid = o.id.is_some() && o.kind.is_some();
        if !valid {
            proof {
                assert forall|k: u128| #[trigger] winner(next, k) == winner(pre, k) by {
                    lemma_winner_push(pre, events@[n as int], k);
                }
                assert forall|p: int| 0 <= p < latest.len() implies matches_event(
                    #[trigger] latest@[p],
                    events@[src[p]],
                ) by {}
            }
        } else {
            let id = match o.id {
                Some(v) => v,
                None => 0,
            };
            let found = find_order_id(&latest, id);
            match found {
                Some(p) => {
                    let old_ts = match latest[p].created_at {
                        Some(t) => t,
                        None => i64::MIN,
                    };
                    proof {
                        lemma_winner_range(pre, id);
                        lemma_winner_push(pre, events@[n as int], id);
                        assert(pre[src[p as int]] == events@[src[p as int]]);
                    }
                    if ts > old_ts {
                        let ghost before = latest@;
                        latest.set(p, o);
                        proof {
                            src = src.update(p as int, n as int);
                            assert forall|k: u128| k != id implies #[trigger] winner(next, k) == winner(pre, k) by {
                                lemma_winner_push(pre, events@[n as int], k);
                            }
                            assert forall|p2: int| 0 <= p2 < latest.len() implies {
                                &&& (#[trigger] latest@[p2]).id is Some
                                &&& 0 <= src[p2] < n + 1
                                &&& winner(next, latest@[p2].id->0) == Some(src[p2])
                                &&& matches_event(latest@[p2], events@[src[p2]])
                            } by {
                                if p2 != p {
                                    assert(latest@[p2] == before[p2]);
                                    assert(before[p2].id != before[p as int].id);
                                }
                            }
                            assert forall|k: u128|
                                #![trigger winner(next, k)]
                                winner(next, k) is Some implies in_ids(latest@, k) by {
                                lemma_winner_push(pre, events@[n as int], k);
                                if k == id {
                                    assert(latest@[p as int].id == Some(k));
                                } else {
                                    let m = choose|m: int| 0 <= m < before.len() && #[trigger] before[m].id == Some(k);
                                    assert(m != p);
                                    assert(latest@[m].id == Some(k));
                                }
                            }
                        }
                    } else {
                        proof {
                            assert forall|k: u128| #[trigger] winner(next, k) == winner(pre, k) by {
                                lemma_winner_push(pre, events@[n as int], k);
                            }
                        }
                    }
                },
                None => {
                    let ghost before = latest@;
                    latest.push(o);
                    proof {
                        src = src.push(n as int);
                        lemma_winner_push(pre, events@[n as int], id);
                        assert(winner(pre, id) is None) by {
                            if winner(pre, id) is Some {
                                assert(in_ids(before, id));
                            }
                        }
                        assert forall|k: u128| k != id implies #[trigger] winner(next, k) == winner(pre, k) by {
                            lemma_winner_push(pre, events@[n as int], k);
                        }
                        assert forall|p2: int| 0 <= p2 < latest.len() implies {
                            &&& (#[trigger] latest@[p2]).id is Some
                            &&& 0 <= src[p2] < n + 1
                            &&& winner(next, latest@[p2].id->0) == Some(src[p2])
                            &&& matches_event(latest@[p2], events@[src[p2]])
                        } by {
                            if p2 < before.len() {
                                assert(latest@[p2] == before[p2]);
                            }
                        }
                        assert forall|a: int, b: int| 0 <= a < b < latest.len() implies #[trigger] latest@[a].id
                            != #[trigger] latest@[b].id by {
                            if b == before.len() {
                                assert(latest@[a] == before[a]);
                            } else {
                                assert(before[a].id != before[b].id);
                            }
                        }
                        assert forall|k: u128|
                            #![trigger winner(next, k)]
                            winner(next, k) is Some implies in_ids(latest@, k) by {
                            if k == id {
                                assert(latest@[before.len() as int].id == Some(k));
                            } else {
                                let m = choose|m: int| 0 <= m < before.len() && #[trigger] before[m].id == Some(k);
                                assert(latest@[m].id == Some(k));
                            }
                        }
                    }
                },
            }
        }
        n = n + 1;
    }
    proof {
        assert(events@.subrange(0, events.len() as int) =~= events@);
    }
    // Filter, and insert each kept order after every order at least as new.
    let mut out: Vec<SmallOrder> = Vec::new();
    let ghost mut osrc: Seq<int> = Seq::empty();
    let mut p: usize = 0;
    while p < latest.len()
        invariant
            p <= latest.len(),
            latest.len() == src.len(),
            forall|q: int|
                0 <= q < latest.len() ==> {
                    &&& (#[trigger] latest@[q]).id is Some
                    &&& 0 <= src[q] < events.len()
                    &&& winner(events@, latest@[q].id->0) == Some(src[q])
                    &&& matches_event(latest@[q], events@[src[q]])
                },
            forall|a: int, b: int| 0 <= a < b < latest.len() ==> #[trigger] latest@[a].id != #[trigger] latest@[b].id,
            forall|k: u128| #![trigger winner(events@, k)] winner(events@, k) is Some ==> in_ids(latest@, k),
            out.len() == osrc.len(),
            forall|a: int, b: int| 0 <= a < b < out.len() ==> ts_of(#[trigger] out@[a]) >= ts_of(#[trigger] out@[b]),
            forall|m: int|
                0 <= m < out.len() ==> 0 <= #[trigger] osrc[m] < p && out@[m] == latest@[osrc[m]]
                    && passes(out@[m], opt_text(currency), status, kind),
            forall|a: int, b: int| 0 <= a < b < out.len() ==> #[trigger] osrc[a] != #[trigger] osrc[b],
            forall|q: int|
                0 <= q < p && passes(#[trigger] latest@[q], opt_text(currency), status, kind) ==> in_ids(out@, latest@[q].id->0),
        decreases latest.len() - p,
    {
        if passes_filters(&latest[p], &currency, status, kind) {
            let x = latest[p].duplicate();
            let xts = match x.created_at {
                Some(t) => t,
                None => i64::MIN,
            };
            let mut pos: usize = 0;
            while pos < out.len() && created_at_least(&out[pos], xts)
                invariant
                    pos <= out.len(),
                    x == latest@[p as int],
                    x.created_at == Some(xts),
                    forall|a: int| 0 <= a < pos ==> ts_of(#[trigger] out@[a]) >= xts,
                decreases out.len() - pos,
            {
                pos = pos + 1;
            }
            let ghost before = out@;
            let ghost bsrc = osrc;
            out.insert(pos, x);
            proof {
                osrc = osrc.insert(pos as int, p as int);
                assert(pos < before.len() ==> ts_of(before[pos as int]) < xts);
                assert forall|a: int, b: int| 0 <= a < b < out.len() implies ts_of(#[trigger] out@[a]) >= ts_of(#[trigger] out@[b]) by {
                    let ba = if a < pos { a } else if a == pos { -1 } else { a - 1 };
                    let bb = if b < pos { b } else if b == pos { -1 } else { b - 1 };
                    if a < pos && b > pos {
                        assert(ts_of(before[ba]) >= ts_of(before[bb]));
                    } else if a == pos && b > pos {
                        assert(ts_of(before[pos as int]) >= ts_of(before[bb]));
                    } else if a < pos && b < pos {
                        assert(ts_of(before[ba]) >= ts_of(before[bb]));
                    } else if a > pos {
                        assert(ts_of(before[ba]) >= ts_of(before[bb]));
                    }
                }
                assert forall|m: int| 0 <= m < out.len() implies 0 <= #[trigger] osrc[m] < p + 1 && out@[m] == latest@[osrc[m]]
                    && passes(out@[m], opt_text(currency), status, kind) by {
                    if m < pos {
                        assert(osrc[m] == bsrc[m]);
                        assert(out@[m] == before[m]);
                    } else if m > pos {
                        assert(osrc[m] == bsrc[m - 1]);
                        assert(out@[m] == before[m - 1]);
                    }
                }
                assert forall|a: int, b: int| 0 <= a < b < out.len() implies #[trigger] osrc[a] != #[trigger] osrc[b] by {
                    if a != pos && b != pos {
                        let ba = if a < pos { a } else { a - 1 };
                        let bb = if b < pos { b } else { b - 1 };
                        assert(bsrc[ba] != bsrc[bb]);
                    } else if a == pos {
                        let bb = b - 1;
                        assert(bsrc[bb] < p);
                    } else {
                        assert(bsrc[a] < p);
                    }
                }
                assert forall|q: int|
                    0 <= q < p + 1 && passes(#[trigger] latest@[q], opt_text(currency), status, kind) implies in_ids(
                    out@,
                    latest@[q].id->0,
                ) by {
                    if q == p {
                        assert(out@[pos as int].id == latest@[q].id);
                    } else {
                        let m = choose|m: int| 0 <= m < before.len() && #[trigger] before[m].id == Some(latest@[q].id->0);
                        if m < pos {
                            assert(out@[m] == before[m]);
                        } else {
                            assert(out@[m + 1] == before[m]);
                        }
                    }
                }
            }
        }
        p = p + 1;
    }
    proof {
        assert forall|m: int| 0 <= m < out.len() implies {
            &&& (#[trigger] out@[m]).id is Some
            &&& (winner(events@, out@[m].id->0) matches Some(i) && matches_event(out@[m], events@[i]))
            &&& passes(out@[m], opt_text(currency), status, kind)
        } by {
            let q = osrc[m];
            assert(out@[m] == latest@[q]);
            assert(winner(events@, latest@[q].id->0) == Some(src[q]));
        }
        assert forall|a: int, b: int| 0 <= a < b < out.len() implies #[trigger] out@[a].id != #[trigger] out@[b].id by {
            assert(osrc[a] != osrc[b]);
            if osrc[a] < osrc[b] {
                assert(latest@[osrc[a]].id != latest@[osrc[b]].id);
            } else {
                assert(latest@[osrc[b]].id != latest@[osrc[a]].id);
            }
        }
        assert forall|k: u128|
            #![trigger winner(events@, k)]
            (winner(events@, k) matches Some(i) && (exists|o: SmallOrder| matches_event(o, events@[i]) && passes(o, opt_text(currency), status, kind)))
                implies in_ids(out@, k) by {
            let i = winner(events@, k)->0;
            let m = choose|m: int| 0 <= m < latest.len() && #[trigger] latest@[m].id == Some(k);
            let o = choose|o: SmallOrder| matches_event(o, events@[i]) && passes(o, opt_text(currency), status, kind);
            assert(src[m] == i);
            assert(latest@[m].status == o.status);
            assert(latest@[m].kind == o.kind);
            assert(latest@[m].fiat_code@ == o.fiat_code@);
        }
    }
    out
}

/// Nostr kind of Mostro's order events.
pub const NOSTR_ORDER_EVENT_KIND: u16 = 38383;

/// Nostr kind of Mostro's dispute events.
pub const NOSTR_DISPUTE_EVENT_KIND: u16 = 38386;

/// Largest number of list events fetched at once.
pub const MOSTRO_LIST_FETCH_EVENT_LIMIT: usize = 500;

/// Lists the client can ask relays for.
#[derive(Debug, Clone, Copy, PartialEq, Eq, Structural)]
pub enum ListKind {
    Orders,
    Disputes,
    DirectMessagesUser,
    DirectMessagesAdmin,
    PrivateDirectMessagesUser,
}

/// A list that relays do not serve as Mostro snapshots.
#[derive(Debug, Clone, Copy, PartialEq, Eq, Structural)]
pub struct UnsupportedListKind;

impl UnsupportedListKind {
    /// The error text.
    pub fn message(&self) -> (r: String)
        ensures
            r@ == "Unsupported ListKind for mostrix"@,
    {
        string_of(&chars_of("Unsupported ListKind for mostrix"))
    }
}

/// Event kind of a list snapshot: orders and disputes; other lists have none.
pub open spec fn list_kind_event(kind: ListKind) -> Result<u16, UnsupportedListKind> {
    match kind {
        ListKind::Orders => Ok::<u16, UnsupportedListKind>(NOSTR_ORDER_EVENT_KIND),
        ListKind::Disputes => Ok(NOSTR_DISPUTE_EVENT_KIND),
        _ => Err(UnsupportedListKind),
    }
}

/// Event kind of a list snapshot: orders and disputes; other lists are refused.
pub fn list_event_kind(kind: ListKind) -> (r: Result<u16, UnsupportedListKind>)
    ensures
        r == list_kind_event(kind),
{
    match kind {
        ListKind::Orders => Ok(NOSTR_ORDER_EVENT_KIND),
        ListKind::Disputes => Ok(NOSTR_DISPUTE_EVENT_KIND),
        _ => Err(UnsupportedListKind),
    }
}


/// The book's filters keep only what they ask for: with a kind filter every order listed
/// is of that kind, with a status filter of that status, with a currency filter in that
/// currency; and an order that meets every filter given is kept.
pub proof fn book_filter_law(
    o: SmallOrder,
    currency: Option<Seq<char>>,
    status: Option<OrderStatus>,
    kind: Option<OrderKind>,
)
    ensures
        passes(o, currency, status, kind) ==> (kind is Some ==> o.kind == kind) && (status is Some ==> o.status
            == status) && (currency is Some ==> Some(o.fiat_code@) == currency),
        (kind is None || o.kind == kind) && (status is None || o.status == status) && (currency is None || Some(
            o.fiat_code@,
        ) == currency) ==> passes(o, currency, status, kind),
        kind == Some(OrderKind::Sell) && o.kind == Some(OrderKind::Buy) ==> !passes(o, currency, status, kind),
        kind == Some(OrderKind::Buy) && o.kind == Some(OrderKind::Sell) ==> !passes(o, currency, status, kind),
{
}

} // verus!
