//! Relay URL parsing for the best-effort reachability probe.
use vstd::prelude::*;
use crate::blossom::has_prefix;
use crate::chat::{contains_id, ids_contain};
use crate::text::{chars_of, parse_unsigned, parse_unsigned_bounded, slice_chars, starts_with_str, string_of, trim, trim_chars};

verus! {

/// Timeout of one TCP reachability attempt, in seconds.
pub const RELAY_CONNECT_TIMEOUT_SECS: u64 = 2;

/// Bounded wait for at least one relay to reach `Connected`, in seconds.
pub const RELAY_HANDSHAKE_TIMEOUT_SECS: u64 = 8;

/// Index of the first `c` in `s`, or `s.len()` when there is none.
pub open spec fn first_index(s: Seq<char>, c: char) -> int
    decreases s.len(),
{
    if s.len() == 0 {
        0
    } else if s[0] == c {
        0
    } else {
        1 + first_index(s.drop_first(), c)
    }
}

/// Index of the last `c` in `s`, if any.
pub open spec fn last_index(s: Seq<char>, c: char) -> Option<int>
    decreases s.len(),
{
    if s.len() == 0 {
        None
    } else if s.last() == c {
        Some(s.len() - 1)
    } else {
        last_index(s.drop_last(), c)
    }
}

/// `(host, port)` of a `ws://` or `wss://` relay URL; the port defaults to 80 for `ws://`
/// and 443 for `wss://`.
pub open spec fn relay_endpoint(relay: Seq<char>) -> Option<(Seq<char>, u16)> {
    let r = trim(relay);
    let rest = if has_prefix(r, "wss://"@) {
        Some(r.subrange(6, r.len() as int))
    } else if has_prefix(r, "ws://"@) {
        Some(r.subrange(5, r.len() as int))
    } else {
        None
    };
    match rest {
        None => None,
        Some(rest) => {
            let hp = trim(rest.subrange(0, first_index(rest, '/')));
            if hp.len() == 0 {
                None
            } else {
                match last_index(hp, ':') {
                    Some(k) => {
                        let host = trim(hp.subrange(0, k));
                        let port = trim(hp.subrange(k + 1, hp.len() as int));
                        if host.len() == 0 || port.len() == 0 {
                            None
                        } else {
                            match parse_unsigned(port, 65535) {
                                Some(p) => Some((host, p as u16)),
                                None => None,
                            }
                        }
                    },
                    None => Some((hp, if has_prefix(r, "ws://"@) { 80u16 } else { 443u16 })),
                }
            }
        },
    }
}

proof fn lemma_first_index(s: Seq<char>, c: char, i: int)
    requires
        0 <= i <= s.len(),
        forall|j: int| 0 <= j < i ==> #[trigger] s[j] != c,
        i == s.len() || s[i] == c,
    ensures
        first_index(s, c) == i,
    decreases s.len(),
{
    if s.len() > 0 && i > 0 {
        let t = s.drop_first();
        assert forall|j: int| 0 <= j < i - 1 implies #[trigger] t[j] != c by {
            assert(t[j] == s[j + 1]);
        }
        lemma_first_index(t, c, i - 1);
    }
}

proof fn lemma_last_index(s: Seq<char>, c: char, k: int)
    requires
        0 <= k <= s.len(),
        forall|j: int| k <= j < s.len() ==> #[trigger] s[j] != c,
    ensures
        last_index(s, c) == last_index(s.subrange(0, k), c),
    decreases s.len() - k,
{
    if k < s.len() {
        let t = s.drop_last();
        lemma_last_index(t, c, k);
        assert(t.subrange(0, k) =~= s.subrange(0, k));
    } else {
        assert(s.subrange(0, k) =~= s);
    }
}

/// Host and port of a relay URL, for the TCP reachability probe.
pub fn relay_host_port(relay: &str) -> (r: Option<(String, u16)>)
    ensures
        match relay_endpoint(relay@) {
            None => r is None,
            Some(e) => r matches Some(p) && p.0@ == e.0 && p.1 == e.1,
        },
{
    let all = chars_of(relay);
    let t = trim_chars(&all);
    let is_wss = starts_with_str(&t, "wss://");
    let is_ws = starts_with_str(&t, "ws://");
    let wss_len = chars_of("wss://").len();
    let ws_len = chars_of("ws://").len();
    proof {
        reveal_strlit("wss://");
        reveal_strlit("ws://");
    }
    let rest = if is_wss {
        slice_chars(&t, wss_len, t.len())
    } else if is_ws {
        slice_chars(&t, ws_len, t.len())
    } else {
        return None;
    };
    let mut i: usize = 0;
    while i < rest.len() && rest[i] != '/'
        invariant
            i <= rest.len(),
            forall|j: int| 0 <= j < i ==> #[trigger] rest@[j] != '/',
        decreases rest.len() - i,
    {
        i = i + 1;
    }
    proof {
        lemma_first_index(rest@, '/', i as int);
    }
    let seg = slice_chars(&rest, 0, i);
    let hp = trim_chars(&seg);
    if hp.len() == 0 {
        return None;
    }
    let mut k: usize = hp.len();
    while k > 0 && hp[k - 1] != ':'
        invariant
            k <= hp.len(),
            forall|j: int| k <= j < hp.len() ==> #[trigger] hp@[j] != ':',
        decreases k,
    {
        k = k - 1;
    }
    proof {
        lemma_last_index(hp@, ':', k as int);
        if k > 0 {
            assert(hp@.subrange(0, k as int).last() == ':');
        } else {
            assert(hp@.subrange(0, 0) =~= Seq::<char>::empty());
        }
    }
    if k > 0 {
        let host_raw = slice_chars(&hp, 0, k - 1);
        let port_raw = slice_chars(&hp, k, hp.len());
        let host = trim_chars(&host_raw);
        let port = trim_chars(&port_raw);
        if host.len() == 0 || port.len() == 0 {
            return None;
        }
        match parse_unsigned_bounded(&port, 65535) {
            Some(p) => Some((string_of(&host), p as u16)),
            None => None,
        }
    } else {
        let default_port: u16 = if is_ws {
            80
        } else {
            443
        };
        Some((string_of(&hp), default_port))
    }
}

/// Deadline of the grace window when fetching from several relays at once (monotonic
/// milliseconds): once armed it stays; the first result that carries events arms it at
/// `now_ms + grace_ms` (saturating); an empty result or a failed fetch never arms it, so
/// a fast empty relay cannot cut off a slower one that holds the only data.
pub fn grace_after_fetch(armed: Option<u64>, events_fetched: Option<usize>, now_ms: u64, grace_ms: u64) -> (r:
    Option<u64>)
    ensures
        r == match armed {
            Some(d) => Some(d),
            None => match events_fetched {
                Some(n) => if n > 0 {
                    Some(
                        if now_ms + grace_ms <= u64::MAX {
                            (now_ms + grace_ms) as u64
                        } else {
                            u64::MAX
                        },
                    )
                } else {
                    None
                },
                None => None,
            },
        },
{
    match armed {
        Some(d) => Some(d),
        None => match events_fetched {
            Some(n) => if n > 0 {
                Some(
                    if now_ms <= u64::MAX - grace_ms {
                        now_ms + grace_ms
                    } else {
                        u64::MAX
                    },
                )
            } else {
                None
            },
            None => None,
        },
    }
}

/// No event id occurs twice.
pub open spec fn ids_unique(s: Seq<Vec<u8>>) -> bool {
    forall|a: int, b: int| 0 <= a < b < s.len() ==> (#[trigger] s[a])@ != (#[trigger] s[b])@
}

/// Fold one relay's fetch into the events collected so far (by event id): a successful
/// fetch adds the events not yet collected, a failed one (`None`) adds nothing; nothing
/// collected is lost or repeated. Returns whether the fetch carried events, which is
/// what arms the grace window ([`grace_after_fetch`]).
pub fn merge_fetch_result(collected: &mut Vec<Vec<u8>>, fetched: &Option<Vec<Vec<u8>>>) -> (carried: bool)
    ensures
        forall|x: Seq<u8>|
            #![trigger ids_contain(final(collected)@, x)]
            ids_contain(final(collected)@, x) <==> (ids_contain(old(collected)@, x) || match fetched {
                Some(v) => ids_contain(v@, x),
                None => false,
            }),
        old(collected)@.len() <= final(collected)@.len(),
        forall|k: int| 0 <= k < old(collected)@.len() ==> #[trigger] final(collected)@[k] == old(collected)@[k],
        ids_unique(old(collected)@) ==> ids_unique(final(collected)@),
        carried == match fetched {
            Some(v) => v@.len() > 0,
            None => false,
        },
{
    let v = match fetched {
        Some(v) => v,
        None => return false,
    };
    let ghost start = collected@;
    let mut j: usize = 0;
    while j < v.len()
        invariant
            j <= v.len(),
            start.len() <= collected@.len(),
            forall|k: int| 0 <= k < start.len() ==> #[trigger] collected@[k] == start[k],
            ids_unique(start) ==> ids_unique(collected@),
            forall|x: Seq<u8>|
                #![trigger ids_contain(collected@, x)]
                ids_contain(collected@, x) <==> (ids_contain(start, x) || ids_contain(v@.subrange(0, j as int), x)),
        decreases v.len() - j,
    {
        let ghost before = collected@;
        let ghost sub = v@.subrange(0, j as int);
        let ghost sub1 = v@.subrange(0, j + 1);
        assert forall|x: Seq<u8>| #![trigger ids_contain(sub1, x)] ids_contain(sub1, x) <==> (ids_contain(sub, x) || x == v@[j as int]@) by {
            if ids_contain(sub1, x) {
                let k = choose|k: int| 0 <= k < sub1.len() && (#[trigger] sub1[k])@ == x;
                if k < j {
                    assert(sub[k] == sub1[k]);
                }
            }
            if ids_contain(sub, x) {
                let k = choose|k: int| 0 <= k < sub.len() && (#[trigger] sub[k])@ == x;
                assert(sub1[k] == sub[k]);
            }
            if x == v@[j as int]@ {
                assert(sub1[j as int] == v@[j as int]);
            }
        }
        if !contains_id(collected, &v[j]) {
            let id = copy_id(&v[j]);
            collected.push(id);
            proof {
                assert forall|x: Seq<u8>| #![trigger ids_contain(collected@, x)] ids_contain(collected@, x) <==> (ids_contain(before, x) || x == v@[j as int]@) by {
                    if ids_contain(collected@, x) {
                        let k = choose|k: int| 0 <= k < collected@.len() && (#[trigger] collected@[k])@ == x;
                        if k < before.len() {
                            assert(before[k] == collected@[k]);
                        }
                    }
                    if ids_contain(before, x) {
                        let k = choose|k: int| 0 <= k < before.len() && (#[trigger] before[k])@ == x;
                        assert(collected@[k] == before[k]);
                    }
                    if x == v@[j as int]@ {
                        assert(collected@[before.len() as int]@ == x);
                    }
                }
                assert forall|a: int, b: int| 0 <= a < b < collected@.len() && ids_unique(before) implies (#[trigger] collected@[a])@ != (#[trigger] collected@[b])@ by {
                    if b == before.len() {
                        assert(collected@[a] == before[a]);
                        if collected@[a]@ == v@[j as int]@ {
                            assert(ids_contain(before, v@[j as int]@));
                        }
                    } else {
                        assert(collected@[a] == before[a] && collected@[b] == before[b]);
                    }
                }
            }
        }
        j = j + 1;
    }
    proof {
        assert(v@.subrange(0, v.len() as int) =~= v@);
    }
    v.len() > 0
}

fn copy_id(id: &Vec<u8>) -> (r: Vec<u8>)
    ensures
        r@ == id@,
{
    let mut r: Vec<u8> = Vec::new();
    let mut i: usize = 0;
    while i < id.len()
        invariant
            i <= id.len(),
            r@ == id@.subrange(0, i as int),
        decreases id.len() - i,
    {
        r.push(id[i]);
        i = i + 1;
        assert(r@ =~= id@.subrange(0, i as int));
    }
    r
}

} // verus!
