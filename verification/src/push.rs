//! Sender-triggered wake of a chat recipient through a push server (`POST /api/notify`).
//!
//! The wake is content-free and never a reason for a send to fail: it is skipped when
//! no relay accepted the message, when the recipient is unknown, when no server is
//! configured, when the recipient key is not 64 hex digits, or inside the debounce window.
use vstd::prelude::*;
use crate::settings::Settings;
use crate::text::{append_chars, append_str, ascii_lower, ascii_lowercase, chars_eq, chars_of, string_of};

verus! {

/// A burst of messages to one recipient costs one wake (milliseconds).
pub const NOTIFY_DEBOUNCE_MS: u64 = 10000;

/// Timeout for the wake request (seconds).
pub const NOTIFY_TIMEOUT_SECS: u64 = 10;

/// May this recipient be rung at `now_ms`, given when it was last rung (monotonic
/// milliseconds)? A last ring later than `now_ms` counts as zero elapsed time.
pub open spec fn notify_allowed_at(last_ms: Option<u64>, now_ms: u64) -> bool {
    match last_ms {
        None => true,
        Some(t) => t <= now_ms && now_ms - t >= NOTIFY_DEBOUNCE_MS,
    }
}

/// Whether the recipient may be rung now.
pub fn notify_allowed(last_ms: Option<u64>, now_ms: u64) -> (r: bool)
    ensures
        r == notify_allowed_at(last_ms, now_ms),
{
    match last_ms {
        None => true,
        Some(t) => t <= now_ms && now_ms - t >= NOTIFY_DEBOUNCE_MS,
    }
}

/// The recipient to wake for a chat send, or `None` to skip: no relay accepted the
/// envelope, or the recipient trade pubkey is unknown.
pub fn wake_target<'a>(relay_accepted: bool, recipient_pubkey: Option<&'a str>) -> (r: Option<&'a str>)
    ensures
        r == (if relay_accepted { recipient_pubkey } else { None }),
{
    if relay_accepted {
        recipient_pubkey
    } else {
        None
    }
}

/// Configured push-server base URL; empty when no settings are loaded.
pub fn configured_server_url(settings: Option<&Settings>) -> (r: String)
    ensures
        r@ == match settings {
            Some(s) => s.push_server_url@,
            None => Seq::<char>::empty(),
        },
{
    match settings {
        Some(s) => s.push_server_url.clone(),
        None => String::new(),
    }
}

pub open spec fn is_lower_hex(c: char) -> bool {
    ('0' <= c && c <= '9') || ('a' <= c && c <= 'f')
}

/// `s` with every trailing `/` removed.
pub open spec fn strip_trailing_slashes(s: Seq<char>) -> Seq<char>
    decreases s.len(),
{
    if s.len() > 0 && s.last() == '/' {
        strip_trailing_slashes(s.drop_last())
    } else {
        s
    }
}

/// One wake request: POST `{"trade_pubkey": trade_pubkey}` to `url`.
pub struct WakeRequest {
    pub url: String,
    pub trade_pubkey: String,
}

/// The request to send for `(server_url, recipient)`, or `None` when the wake is skipped.
pub open spec fn wake_plan(server_url: Seq<char>, recipient: Seq<char>) -> Option<(Seq<char>, Seq<char>)> {
    let key = ascii_lower(recipient);
    if server_url.len() == 0 || key.len() != 64 || !(forall|i: int|
        0 <= i < key.len() ==> is_lower_hex(#[trigger] key[i])) {
        None
    } else {
        Some((strip_trailing_slashes(server_url) + "/api/notify"@, key))
    }
}

proof fn lemma_strip_trailing(s: Seq<char>, k: int)
    requires
        0 <= k <= s.len(),
        forall|j: int| k <= j < s.len() ==> #[trigger] s[j] == '/',
        k == 0 || s[k - 1] != '/',
    ensures
        strip_trailing_slashes(s) == s.subrange(0, k),
    decreases s.len() - k,
{
    if k < s.len() {
        let t = s.drop_last();
        lemma_strip_trailing(t, k);
        assert(t.subrange(0, k) =~= s.subrange(0, k));
    } else {
        assert(s.subrange(0, k) =~= s);
    }
}

/// Validate the recipient and build the wake request; [`wake_recipient`] adds the
/// per-recipient debounce.
pub fn plan_wake(server_url: &str, recipient_trade_pubkey: &str) -> (r: Option<WakeRequest>)
    ensures
        match wake_plan(server_url@, recipient_trade_pubkey@) {
            None => r is None,
            Some(p) => r matches Some(w) && w.url@ == p.0 && w.trade_pubkey@ == p.1,
        },
{
    let url = chars_of(server_url);
    let raw = chars_of(recipient_trade_pubkey);
    let key = ascii_lowercase(&raw);
    if url.len() == 0 || key.len() != 64 {
        return None;
    }
    let mut i: usize = 0;
    while i < key.len()
        invariant
            i <= key.len(),
            key@ == ascii_lower(recipient_trade_pubkey@),
            url@ == server_url@,
            url@.len() > 0,
            key@.len() == 64,
            forall|j: int| 0 <= j < i ==> is_lower_hex(#[trigger] key@[j]),
        decreases key.len() - i,
    {
        let c = key[i];
        if !(('0' <= c && c <= '9') || ('a' <= c && c <= 'f')) {
            assert(!is_lower_hex(key@[i as int]));
            assert(!(forall|j: int| 0 <= j < key@.len() ==> is_lower_hex(#[trigger] key@[j])));
            return None;
        }
        i = i + 1;
    }
    let mut k: usize = url.len();
    while k > 0 && url[k - 1] == '/'
        invariant
            k <= url.len(),
            forall|j: int| k <= j < url.len() ==> #[trigger] url@[j] == '/',
        decreases k,
    {
        k = k - 1;
    }
    proof {
        lemma_strip_trailing(url@, k as int);
    }
    let mut out = crate::text::slice_chars(&url, 0, k);
    append_str(&mut out, "/api/notify");
    Some(WakeRequest { url: string_of(&out), trade_pubkey: string_of(&key) })
}

/// When each recipient key was last rung (monotonic milliseconds); a key rung twice
/// counts with its later ring.
pub open spec fn ring_map(s: Seq<(String, u64)>) -> Map<Seq<char>, u64>
    decreases s.len(),
{
    if s.len() == 0 {
        Map::empty()
    } else {
        ring_map(s.drop_last()).insert(s.last().0@, s.last().1)
    }
}

/// `s` without the rings of `key`, in order.
pub open spec fn without_key(s: Seq<(String, u64)>, key: Seq<char>) -> Seq<(String, u64)>
    decreases s.len(),
{
    if s.len() == 0 {
        Seq::empty()
    } else if s.last().0@ == key {
        without_key(s.drop_last(), key)
    } else {
        without_key(s.drop_last(), key).push(s.last())
    }
}

proof fn lemma_without_key(s: Seq<(String, u64)>, key: Seq<char>)
    ensures
        ring_map(without_key(s, key)) == ring_map(s).remove(key),
    decreases s.len(),
{
    if s.len() == 0 {
        assert(ring_map(s).remove(key) =~= Map::<Seq<char>, u64>::empty());
    } else {
        let t = s.drop_last();
        let x = s.last();
        lemma_without_key(t, key);
        if x.0@ == key {
            assert(ring_map(s).remove(key) =~= ring_map(t).remove(key));
        } else {
            let w = without_key(t, key);
            assert(w.push(x).drop_last() =~= w);
            assert(ring_map(w.push(x)) == ring_map(w).insert(x.0@, x.1));
            assert(ring_map(s).remove(key) =~= ring_map(t).remove(key).insert(x.0@, x.1));
        }
    }
}

/// The per-recipient ring times that debounce wakes.
pub struct WakeLog {
    rings: Vec<(String, u64)>,
}

impl View for WakeLog {
    type V = Map<Seq<char>, u64>;

    closed spec fn view(&self) -> Map<Seq<char>, u64> {
        ring_map(self.rings@)
    }
}

/// The last ring of `key` in a log, if any.
pub open spec fn last_ring_of(log: Map<Seq<char>, u64>, key: Seq<char>) -> Option<u64> {
    if log.contains_key(key) {
        Some(log[key])
    } else {
        None
    }
}

impl WakeLog {
    /// No recipient rung yet.
    pub fn new() -> (r: WakeLog)
        ensures
            r@ == Map::<Seq<char>, u64>::empty(),
    {
        WakeLog { rings: Vec::new() }
    }

    /// When `key` was last rung.
    pub fn last_ring(&self, key: &str) -> (r: Option<u64>)
        ensures
            r == last_ring_of(self@, key@),
    {
        let k = chars_of(key);
        let mut found: Option<u64> = None;
        let mut i: usize = 0;
        while i < self.rings.len()
            invariant
                i <= self.rings.len(),
                k@ == key@,
                found == last_ring_of(ring_map(self.rings@.subrange(0, i as int)), key@),
            decreases self.rings.len() - i,
        {
            let ghost pre = self.rings@.subrange(0, i as int);
            proof {
                assert(self.rings@.subrange(0, i + 1).drop_last() =~= pre);
            }
            if chars_eq(&chars_of(self.rings[i].0.as_str()), &k) {
                found = Some(self.rings[i].1);
            }
            i = i + 1;
        }
        proof {
            assert(self.rings@.subrange(0, self.rings.len() as int) =~= self.rings@);
        }
        found
    }

    /// Record that `key` was rung at `now_ms`.
    pub fn record(&mut self, key: &str, now_ms: u64)
        ensures
            final(self)@ == old(self)@.insert(key@, now_ms),
    {
        let k = chars_of(key);
        let mut kept: Vec<(String, u64)> = Vec::new();
        let mut i: usize = 0;
        while i < self.rings.len()
            invariant
                i <= self.rings.len(),
                k@ == key@,
                kept@ == without_key(self.rings@.subrange(0, i as int), key@),
            decreases self.rings.len() - i,
        {
            let ghost pre = self.rings@.subrange(0, i as int);
            proof {
                assert(self.rings@.subrange(0, i + 1).drop_last() =~= pre);
            }
            if !chars_eq(&chars_of(self.rings[i].0.as_str()), &k) {
                let name = self.rings[i].0.clone();
                kept.push((name, self.rings[i].1));
            }
            i = i + 1;
        }
        proof {
            assert(self.rings@.subrange(0, self.rings.len() as int) =~= self.rings@);
            lemma_without_key(self.rings@, key@);
        }
        let ghost w = kept@;
        kept.push((string_of(&k), now_ms));
        proof {
            assert(kept@.drop_last() =~= w);
        }
        self.rings = kept;
    }
}

/// What one wake does to the log and returns: nothing, log unchanged, when the plan
/// skips the wake or the key is inside its debounce window; otherwise the planned request,
/// with the key's ring recorded at `now_ms`.
pub open spec fn wake_outcome(
    before: Map<Seq<char>, u64>,
    after: Map<Seq<char>, u64>,
    r: Option<WakeRequest>,
    server_url: Seq<char>,
    recipient: Seq<char>,
    now_ms: u64,
) -> bool {
    match wake_plan(server_url, recipient) {
        None => r is None && after == before,
        Some(p) => if notify_allowed_at(last_ring_of(before, p.1), now_ms) {
            &&& r matches Some(w) && w.url@ == p.0 && w.trade_pubkey@ == p.1
            &&& after == before.insert(p.1, now_ms)
        } else {
            r is None && after == before
        },
    }
}

/// The wake to send for a chat to `recipient`, debounced per recipient: nothing when the
/// plan skips it or the recipient was rung less than [`NOTIFY_DEBOUNCE_MS`] ago;
/// otherwise the ring is recorded at `now_ms` before the request is returned, so
/// messages sent while a request is in flight do not each ring.
pub fn wake_recipient(log: &mut WakeLog, server_url: &str, recipient: &str, now_ms: u64) -> (r: Option<WakeRequest>)
    ensures
        wake_outcome(old(log)@, final(log)@, r, server_url@, recipient@, now_ms),
{
    let req = match plan_wake(server_url, recipient) {
        Some(w) => w,
        None => return None,
    };
    let last = log.last_ring(req.trade_pubkey.as_str());
    if !notify_allowed(last, now_ms) {
        return None;
    }
    log.record(req.trade_pubkey.as_str(), now_ms);
    Some(req)
}

/// [`wake_recipient`] against the push server named in the settings (none configured:
/// no wake).
pub fn wake_recipient_via_settings(
    log: &mut WakeLog,
    settings: Option<&Settings>,
    recipient_trade_pubkey: &str,
    now_ms: u64,
) -> (r: Option<WakeRequest>)
    ensures
        wake_outcome(
            old(log)@,
            final(log)@,
            r,
            match settings {
                Some(s) => s.push_server_url@,
                None => Seq::<char>::empty(),
            },
            recipient_trade_pubkey@,
            now_ms,
        ),
{
    let url = configured_server_url(settings);
    wake_recipient(log, url.as_str(), recipient_trade_pubkey, now_ms)
}

/// Within the debounce window after a ring, a recipient is not rung again: of two wakes
/// for one key less than [`NOTIFY_DEBOUNCE_MS`] apart, the second is skipped.
pub proof fn wake_debounce_law(log: Map<Seq<char>, u64>, key: Seq<char>, first_ms: u64, second_ms: u64)
    requires
        second_ms < first_ms + NOTIFY_DEBOUNCE_MS,
    ensures
        !notify_allowed_at(last_ring_of(log.insert(key, first_ms), key), second_ms),
{
}

} // verus!
