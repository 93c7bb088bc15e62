//! Shared-key chats (peer order chat, user-solver chat, admin dispute chat): which chats
//! the listener tracks, how a live chat event is disposed of, which history messages are
//! new, and who is who in an observed chat.
use vstd::prelude::*;
use crate::order::SmallOrder;
use crate::restore::{bytes_equal, opt_bytes, parse_public_key, public_key_of_text};
use crate::text::{chars_eq, chars_of, string_of};

verus! {

/// Side of a dispute chat.
#[derive(Debug, Clone, Copy, PartialEq, Eq, Structural)]
pub enum ChatParty {
    Buyer,
    Seller,
}

/// Which chat a shared key belongs to.
pub enum ChatKeyId {
    /// Peer order chat, by order id text.
    Order(String),
    /// User-to-solver chat, by parent order id text.
    UserDispute(String),
    /// Admin dispute chat, by dispute id text and party.
    Dispute(String, ChatParty),
}

/// A chat key as plain values: its kind, its id text, its party.
pub open spec fn key_view(k: ChatKeyId) -> (int, Seq<char>, Option<ChatParty>) {
    match k {
        ChatKeyId::Order(id) => (0, id@, None),
        ChatKeyId::UserDispute(id) => (1, id@, None),
        ChatKeyId::Dispute(id, p) => (2, id@, Some(p)),
    }
}

/// Whether two chat keys name the same chat.
pub fn same_chat_key(a: &ChatKeyId, b: &ChatKeyId) -> (r: bool)
    ensures
        r == (key_view(*a) == key_view(*b)),
{
    match (a, b) {
        (ChatKeyId::Order(x), ChatKeyId::Order(y)) => chars_eq(&chars_of(x.as_str()), &chars_of(y.as_str())),
        (ChatKeyId::UserDispute(x), ChatKeyId::UserDispute(y)) => chars_eq(
            &chars_of(x.as_str()),
            &chars_of(y.as_str()),
        ),
        (ChatKeyId::Dispute(x, p), ChatKeyId::Dispute(y, q)) => *p == *q && chars_eq(
            &chars_of(x.as_str()),
            &chars_of(y.as_str()),
        ),
        _ => false,
    }
}

/// A followed chat: the shared key's public key (the map key), the chat it belongs to, the
/// outer author of its live events, the local trade key (order chats) and the accepted
/// inner signers. Keys are raw public-key bytes.
pub struct ChatTarget {
    pub shared_pubkey: Vec<u8>,
    pub key_id: ChatKeyId,
    pub sign_pubkey: Vec<u8>,
    pub local_trade_pubkey: Option<Vec<u8>>,
    pub allowed_signers: Vec<Vec<u8>>,
}

/// The targets without the one keyed by `pk`.
pub open spec fn without_pubkey(s: Seq<ChatTarget>, pk: Seq<u8>) -> Seq<ChatTarget>
    decreases s.len(),
{
    if s.len() == 0 {
        Seq::empty()
    } else if s.last().shared_pubkey@ == pk {
        without_pubkey(s.drop_last(), pk)
    } else {
        without_pubkey(s.drop_last(), pk).push(s.last())
    }
}

/// The targets without those of chat `kv`.
pub open spec fn without_chat(s: Seq<ChatTarget>, kv: (int, Seq<char>, Option<ChatParty>)) -> Seq<ChatTarget>
    decreases s.len(),
{
    if s.len() == 0 {
        Seq::empty()
    } else if key_view(s.last().key_id) == kv {
        without_chat(s.drop_last(), kv)
    } else {
        without_chat(s.drop_last(), kv).push(s.last())
    }
}

/// Whether target `pk` already tracks chat `kv`.
pub open spec fn tracks(s: Seq<ChatTarget>, pk: Seq<u8>, kv: (int, Seq<char>, Option<ChatParty>)) -> bool {
    exists|i: int| 0 <= i < s.len() && (#[trigger] s[i]).shared_pubkey@ == pk && key_view(s[i].key_id) == kv
}

pub open spec fn pubkeys_distinct(s: Seq<ChatTarget>) -> bool {
    forall|a: int, b: int| 0 <= a < b < s.len() ==> (#[trigger] s[a]).shared_pubkey@ != (#[trigger] s[b]).shared_pubkey@
}

/// What a track or untrack command changed.
#[derive(Debug, Clone, Copy, PartialEq, Eq, Structural)]
pub struct CmdOutcome {
    /// The live subscription must be rebuilt.
    pub needs_resubscribe: bool,
    /// A newly added chat awaits its history.
    pub hydrate: bool,
    /// Cursor for the history fetch of a newly added chat.
    pub hydrate_since: Option<i64>,
    pub added: bool,
    pub dropped: bool,
}

/// The chats the listener tracks, one per shared public key.
pub struct ChatTargets {
    entries: Vec<ChatTarget>,
}

impl ChatTargets {
    /// The followed chats.
    pub closed spec fn targets(&self) -> Seq<ChatTarget> {
        self.entries@
    }

    /// No shared key is followed twice.
    pub open spec fn wf(&self) -> bool {
        pubkeys_distinct(self.targets())
    }

    /// Nothing followed.
    pub fn new() -> (r: ChatTargets)
        ensures
            r.targets() == Seq::<ChatTarget>::empty(),
            r.wf(),
    {
        ChatTargets { entries: Vec::new() }
    }

    /// Number of followed chats.
    pub fn len(&self) -> (r: usize)
        ensures
            r == self.targets().len(),
    {
        self.entries.len()
    }

    /// The followed chat at `i`.
    pub fn get(&self, i: usize) -> (r: &ChatTarget)
        requires
            i < self.targets().len(),
        ensures
            *r == self.targets()[i as int],
    {
        &self.entries[i]
    }

    /// Track a chat. An empty signer allow-list tracks nothing; a shared key already
    /// tracking this chat changes nothing; otherwise the target replaces whatever the
    /// shared key held, and the subscription is rebuilt and the history fetched from
    /// `since`.
    pub fn track(&mut self, target: ChatTarget, since: Option<i64>) -> (r: CmdOutcome)
        requires
            old(self).wf(),
        ensures
            final(self).wf(),
            if target.allowed_signers.len() == 0 || tracks(
                old(self).targets(),
                target.shared_pubkey@,
                key_view(target.key_id),
            ) {
                &&& final(self).targets() == old(self).targets()
                &&& r == (CmdOutcome { needs_resubscribe: false, hydrate: false, hydrate_since: None, added: false, dropped: false })
            } else {
                &&& final(self).targets() == without_pubkey(old(self).targets(), target.shared_pubkey@).push(target)
                &&& r == (CmdOutcome { needs_resubscribe: true, hydrate: true, hydrate_since: since, added: true, dropped: false })
            },
    {
        let none = CmdOutcome { needs_resubscribe: false, hydrate: false, hydrate_since: None, added: false, dropped: false };
        if target.allowed_signers.len() == 0 {
            return none;
        }
        let ghost s = self.entries@;
        let mut i: usize = 0;
        while i < self.entries.len()
            invariant
                i <= self.entries.len(),
                self.entries@ == s,
                pubkeys_distinct(s),
                forall|j: int| 0 <= j < i ==> !((#[trigger] s[j]).shared_pubkey@ == target.shared_pubkey@
                    && key_view(s[j].key_id) == key_view(target.key_id)),
            decreases self.entries.len() - i,
        {
            if crate::restore::bytes_equal(&self.entries[i].shared_pubkey, &target.shared_pubkey)
                && same_chat_key(&self.entries[i].key_id, &target.key_id) {
                proof {
                    assert(s[i as int].shared_pubkey@ == target.shared_pubkey@);
                }
                return CmdOutcome { needs_resubscribe: false, hydrate: false, hydrate_since: None, added: false, dropped: false };
            }
            i = i + 1;
        }
        let mut kept: Vec<ChatTarget> = Vec::new();
        let mut entries: Vec<ChatTarget> = Vec::new();
        std::mem::swap(&mut entries, &mut self.entries);
        proof {
            assert(s.subrange(0, 0) =~= Seq::<ChatTarget>::empty());
        }
        let mut j: usize = 0;
        let n = entries.len();
        let ghost mut src: Seq<int> = Seq::empty();
        while j < n
            invariant
                j <= n,
                n == s.len(),
                entries@ == s.subrange(j as int, n as int),
                pubkeys_distinct(s),
                kept@ == without_pubkey(s.subrange(0, j as int), target.shared_pubkey@),
                forall|m: int| 0 <= m < kept.len() ==> (#[trigger] kept@[m]).shared_pubkey@ != target.shared_pubkey@,
                pubkeys_distinct(kept@),
                src.len() == kept.len(),
                forall|m: int| 0 <= m < kept.len() ==> 0 <= #[trigger] src[m] < j && kept@[m] == s[src[m]],
            decreases n - j,
        {
            proof {
                assert(s.subrange(0, j + 1).drop_last() =~= s.subrange(0, j as int));
            }
            let e = entries.remove(0);
            proof {
                assert(e == s[j as int]);
                assert(entries@ =~= s.subrange(j + 1, n as int));
            }
            let keep = !crate::restore::bytes_equal(&e.shared_pubkey, &target.shared_pubkey);
            if keep {
                let ghost before = kept@;
                let ghost bsrc = src;
                kept.push(e);
                proof {
                    src = src.push(j as int);
                    assert forall|a: int, b: int| 0 <= a < b < kept.len() implies (#[trigger] kept@[a]).shared_pubkey@
                        != (#[trigger] kept@[b]).shared_pubkey@ by {
                        if b == before.len() {
                            assert(kept@[a] == s[bsrc[a]]);
                            assert(s[bsrc[a]].shared_pubkey@ != s[j as int].shared_pubkey@);
                        } else {
                            assert(kept@[a] == before[a] && kept@[b] == before[b]);
                        }
                    }
                    assert forall|m: int| 0 <= m < kept.len() implies 0 <= #[trigger] src[m] < j + 1 && kept@[m] == s[src[m]] by {
                        if m < before.len() {
                            assert(src[m] == bsrc[m] && kept@[m] == before[m]);
                        }
                    }
                }
            }
            j = j + 1;
        }
        proof {
            assert(s.subrange(0, s.len() as int) =~= s);
        }
        let ghost kv = kept@;
        kept.push(target);
        proof {
            assert forall|a: int, b: int| 0 <= a < b < kept.len() implies (#[trigger] kept@[a]).shared_pubkey@
                != (#[trigger] kept@[b]).shared_pubkey@ by {
                if b == kv.len() {
                    assert(kept@[a] == kv[a]);
                } else {
                    assert(kept@[a] == kv[a] && kept@[b] == kv[b]);
                }
            }
        }
        self.entries = kept;
        CmdOutcome { needs_resubscribe: true, hydrate: true, hydrate_since: since, added: true, dropped: false }
    }

    /// Stop tracking a chat: every target of that chat is dropped; the subscription is
    /// rebuilt only when something was dropped.
    pub fn untrack(&mut self, key_id: &ChatKeyId) -> (r: CmdOutcome)
        requires
            old(self).wf(),
        ensures
            final(self).wf(),
            final(self).targets() == without_chat(old(self).targets(), key_view(*key_id)),
            r.needs_resubscribe == (final(self).targets().len() != old(self).targets().len()),
            r.dropped == r.needs_resubscribe,
            !r.hydrate && !r.added && r.hydrate_since is None,
    {
        let ghost s = self.entries@;
        let mut entries: Vec<ChatTarget> = Vec::new();
        std::mem::swap(&mut entries, &mut self.entries);
        let before = entries.len();
        let mut kept: Vec<ChatTarget> = Vec::new();
        let mut j: usize = 0;
        let n = entries.len();
        let ghost mut src: Seq<int> = Seq::empty();
        proof {
            assert(s.subrange(0, 0) =~= Seq::<ChatTarget>::empty());
        }
        while j < n
            invariant
                j <= n,
                n == s.len(),
                entries@ == s.subrange(j as int, n as int),
                pubkeys_distinct(s),
                kept@ == without_chat(s.subrange(0, j as int), key_view(*key_id)),
                pubkeys_distinct(kept@),
                src.len() == kept.len(),
                forall|m: int| 0 <= m < kept.len() ==> 0 <= #[trigger] src[m] < j && kept@[m] == s[src[m]],
            decreases n - j,
        {
            proof {
                assert(s.subrange(0, j + 1).drop_last() =~= s.subrange(0, j as int));
            }
            let e = entries.remove(0);
            proof {
                assert(e == s[j as int]);
                assert(entries@ =~= s.subrange(j + 1, n as int));
            }
            if !same_chat_key(&e.key_id, key_id) {
                let ghost b = kept@;
                let ghost bsrc = src;
                kept.push(e);
                proof {
                    src = src.push(j as int);
                    assert forall|a: int, c: int| 0 <= a < c < kept.len() implies (#[trigger] kept@[a]).shared_pubkey@
                        != (#[trigger] kept@[c]).shared_pubkey@ by {
                        if c == b.len() {
                            assert(kept@[a] == s[bsrc[a]]);
                            assert(s[bsrc[a]].shared_pubkey@ != s[j as int].shared_pubkey@);
                        } else {
                            assert(kept@[a] == b[a] && kept@[c] == b[c]);
                        }
                    }
                    assert forall|m: int| 0 <= m < kept.len() implies 0 <= #[trigger] src[m] < j + 1 && kept@[m] == s[src[m]] by {
                        if m < b.len() {
                            assert(src[m] == bsrc[m] && kept@[m] == b[m]);
                        }
                    }
                }
            }
            j = j + 1;
        }
        proof {
            assert(s.subrange(0, s.len() as int) =~= s);
        }
        let removed = kept.len() != before;
        self.entries = kept;
        CmdOutcome { needs_resubscribe: removed, hydrate: false, hydrate_since: None, added: false, dropped: removed }
    }

    /// Route a live event: only private direct messages (kind 14) are chat events, and
    /// they go to the chat whose signing key authored them.
    pub fn resolve_chat_target(&self, kind: u16, author: &Vec<u8>) -> (r: Option<usize>)
        ensures
            kind != crate::filters::PRIVATE_DIRECT_MESSAGE_KIND ==> r is None,
            kind == crate::filters::PRIVATE_DIRECT_MESSAGE_KIND ==> match r {
                Some(i) => i < self.targets().len() && self.targets()[i as int].sign_pubkey@ == author@
                    && forall|j: int| 0 <= j < i ==> (#[trigger] self.targets()[j]).sign_pubkey@ != author@,
                None => forall|j: int| 0 <= j < self.targets().len() ==> (#[trigger] self.targets()[j]).sign_pubkey@
                    != author@,
            },
    {
        if kind != crate::filters::PRIVATE_DIRECT_MESSAGE_KIND {
            return None;
        }
        self.resolve_by_author(author)
    }

    /// Index of the followed chat whose live events are authored by `author`.
    pub fn resolve_by_author(&self, author: &Vec<u8>) -> (r: Option<usize>)
        ensures
            match r {
                Some(i) => i < self.targets().len() && self.targets()[i as int].sign_pubkey@ == author@
                    && forall|j: int| 0 <= j < i ==> (#[trigger] self.targets()[j]).sign_pubkey@ != author@,
                None => forall|j: int| 0 <= j < self.targets().len() ==> (#[trigger] self.targets()[j]).sign_pubkey@
                    != author@,
            },
    {
        let mut i: usize = 0;
        while i < self.entries.len()
            invariant
                i <= self.entries.len(),
                forall|j: int| 0 <= j < i ==> (#[trigger] self.entries@[j]).sign_pubkey@ != author@,
            decreases self.entries.len() - i,
        {
            if crate::restore::bytes_equal(&self.entries[i].sign_pubkey, author) {
                return Some(i);
            }
            i = i + 1;
        }
        None
    }
}


/// `mostro_core::chat::SharedKey::from_hex` then `public_key`: the public key of a stored
/// shared secret, by which its chat is followed.
pub uninterp spec fn shared_pubkey_of_hex(hex: Seq<char>) -> Option<Seq<u8>>;

/// `SharedKey::from_hex` then `chat_keys`: the public key of the chat's signing key, the
/// outer author of its live events.
pub uninterp spec fn chat_sign_pubkey_of_hex(hex: Seq<char>) -> Option<Seq<u8>>;

/// `mostro_core::chat::SharedKey::from_hex(hex)` and the shared key's public key, as 32
/// bytes; `None` when the hex is no secret key. The contract claims only that the outcome
/// is the named function of the text.
#[verifier::external_body]
fn shared_pubkey_from_hex(hex: &str) -> (r: Option<Vec<u8>>)
    ensures
        opt_bytes(r) == shared_pubkey_of_hex(hex@),
{
    mostro_core::chat::SharedKey::from_hex(hex).ok().map(|k| k.public_key().to_bytes().to_vec())
}

/// `SharedKey::from_hex(hex)` followed by `SharedKey::chat_keys`, giving the public key
/// of the second (signing) key; `None` when either step fails. The contract claims only
/// that the outcome is the named function of the text.
#[verifier::external_body]
fn chat_sign_pubkey_from_hex(hex: &str) -> (r: Option<Vec<u8>>)
    ensures
        opt_bytes(r) == chat_sign_pubkey_of_hex(hex@),
{
    match mostro_core::chat::SharedKey::from_hex(hex) {
        Ok(k) => k.chat_keys().ok().map(|(_conv, sign)| sign.public_key().to_bytes().to_vec()),
        Err(_) => None,
    }
}

/// A history cursor in the future is brought back to `now`.
pub open spec fn clamp_since(since: Option<i64>, now: i64) -> Option<i64> {
    match since {
        Some(s) => Some(if s > now { now } else { s }),
        None => None,
    }
}

impl ChatTargets {
    /// Apply a track command. The chat's keys come from the stored shared-secret hex; an
    /// empty signer allow-list or an unreadable key tracks nothing; a shared key already
    /// tracking this chat changes nothing. Otherwise the new target replaces whatever its
    /// shared key held, and the history is fetched from `since`, clamped to `now`.
    pub fn track_chat_key(
        &mut self,
        key_id: ChatKeyId,
        shared_key_hex: &str,
        local_trade_pubkey: Option<Vec<u8>>,
        allowed_signers: Vec<Vec<u8>>,
        since: Option<i64>,
        now: i64,
    ) -> (r: CmdOutcome)
        requires
            old(self).wf(),
        ensures
            final(self).wf(),
            ({
                let pk = shared_pubkey_of_hex(shared_key_hex@);
                let sk = chat_sign_pubkey_of_hex(shared_key_hex@);
                if allowed_signers.len() == 0 || pk is None || sk is None || tracks(
                    old(self).targets(),
                    pk->0,
                    key_view(key_id),
                ) {
                    &&& final(self).targets() == old(self).targets()
                    &&& r == (CmdOutcome {
                        needs_resubscribe: false,
                        hydrate: false,
                        hydrate_since: None,
                        added: false,
                        dropped: false,
                    })
                } else {
                    &&& final(self).targets().len() > 0
                    &&& final(self).targets().drop_last() == without_pubkey(old(self).targets(), pk->0)
                    &&& final(self).targets().last().shared_pubkey@ == pk->0
                    &&& final(self).targets().last().sign_pubkey@ == sk->0
                    &&& final(self).targets().last().key_id == key_id
                    &&& final(self).targets().last().local_trade_pubkey == local_trade_pubkey
                    &&& final(self).targets().last().allowed_signers == allowed_signers
                    &&& r == (CmdOutcome {
                        needs_resubscribe: true,
                        hydrate: true,
                        hydrate_since: clamp_since(since, now),
                        added: true,
                        dropped: false,
                    })
                }
            }),
    {
        let none = CmdOutcome { needs_resubscribe: false, hydrate: false, hydrate_since: None, added: false, dropped: false };
        if allowed_signers.len() == 0 {
            return none;
        }
        let pk = shared_pubkey_from_hex(shared_key_hex);
        let sk = chat_sign_pubkey_from_hex(shared_key_hex);
        match (pk, sk) {
            (Some(pk), Some(sk)) => {
                let clamped = match since {
                    Some(s) => Some(if s > now { now } else { s }),
                    None => None,
                };
                let target = ChatTarget {
                    shared_pubkey: pk,
                    key_id,
                    sign_pubkey: sk,
                    local_trade_pubkey,
                    allowed_signers,
                };
                let r = self.track(target, clamped);
                r
            },
            _ => none,
        }
    }
}

/// How one live chat event routed to a followed chat is disposed of.
#[derive(Debug, Clone, Copy, PartialEq, Eq, Structural)]
pub enum LiveChatDisposition {
    /// Its outer id is already retained.
    DuplicateOuter,
    /// The chat's token bucket refused it; it stays retryable.
    RateLimited,
    /// Decryption or the signer allow-list failed; retrying will not help.
    UnwrapFailed,
    /// Its inner id is already durably accepted.
    AlreadyPersisted,
    /// Handed to the UI; it stays retryable until the UI persists it.
    Emitted,
}

/// The disposition, whether the outer id is now retained, and whether the message is
/// emitted.
#[derive(Debug, Clone, Copy, PartialEq, Eq, Structural)]
pub struct LiveChatDecision {
    pub disposition: LiveChatDisposition,
    pub retain_outer: bool,
    pub emit: bool,
}

/// Decide a live chat event: the outer-id lookup first, then the rate limit, then the
/// unwrap, then the durable inner-id check. An input that an earlier check makes moot
/// is not read. Only a poison unwrap or an already persisted inner id retains the outer
/// id; an emitted event stays retryable.
pub fn live_chat_disposition(
    outer_seen: bool,
    rate_allowed: bool,
    unwrapped: bool,
    inner_accepted: bool,
) -> (r: LiveChatDecision)
    ensures
        outer_seen ==> r == (LiveChatDecision {
            disposition: LiveChatDisposition::DuplicateOuter,
            retain_outer: false,
            emit: false,
        }),
        !outer_seen && !rate_allowed ==> r == (LiveChatDecision {
            disposition: LiveChatDisposition::RateLimited,
            retain_outer: false,
            emit: false,
        }),
        !outer_seen && rate_allowed && !unwrapped ==> r == (LiveChatDecision {
            disposition: LiveChatDisposition::UnwrapFailed,
            retain_outer: true,
            emit: false,
        }),
        !outer_seen && rate_allowed && unwrapped && inner_accepted ==> r == (LiveChatDecision {
            disposition: LiveChatDisposition::AlreadyPersisted,
            retain_outer: true,
            emit: false,
        }),
        !outer_seen && rate_allowed && unwrapped && !inner_accepted ==> r == (LiveChatDecision {
            disposition: LiveChatDisposition::Emitted,
            retain_outer: false,
            emit: true,
        }),
{
    if outer_seen {
        LiveChatDecision { disposition: LiveChatDisposition::DuplicateOuter, retain_outer: false, emit: false }
    } else if !rate_allowed {
        LiveChatDecision { disposition: LiveChatDisposition::RateLimited, retain_outer: false, emit: false }
    } else if !unwrapped {
        LiveChatDecision { disposition: LiveChatDisposition::UnwrapFailed, retain_outer: true, emit: false }
    } else if inner_accepted {
        LiveChatDecision { disposition: LiveChatDisposition::AlreadyPersisted, retain_outer: true, emit: false }
    } else {
        LiveChatDecision { disposition: LiveChatDisposition::Emitted, retain_outer: false, emit: true }
    }
}

/// Where decoded messages of a chat go.
#[derive(Debug, Clone, Copy, PartialEq, Eq, Structural)]
pub enum ChatEmit {
    /// Nothing is sent.
    Skip,
    /// User update channel, peer chat of the order.
    UserPeer,
    /// User update channel, solver chat of the order.
    UserSolver,
    /// Admin update channel, for the dispute and party.
    Admin,
}

/// Route a batch of messages: an empty batch goes nowhere; user chats need the local
/// trade key, without which they are skipped; dispute chats go to the admin channel.
pub fn emit_route(target: &ChatTarget, n_messages: usize) -> (r: ChatEmit)
    ensures
        r == (if n_messages == 0 {
            ChatEmit::Skip
        } else {
            match target.key_id {
                ChatKeyId::Order(_) => if target.local_trade_pubkey is Some {
                    ChatEmit::UserPeer
                } else {
                    ChatEmit::Skip
                },
                ChatKeyId::UserDispute(_) => if target.local_trade_pubkey is Some {
                    ChatEmit::UserSolver
                } else {
                    ChatEmit::Skip
                },
                ChatKeyId::Dispute(_, _) => ChatEmit::Admin,
            }
        }),
{
    if n_messages == 0 {
        return ChatEmit::Skip;
    }
    match &target.key_id {
        ChatKeyId::Order(_) => if target.local_trade_pubkey.is_some() {
            ChatEmit::UserPeer
        } else {
            ChatEmit::Skip
        },
        ChatKeyId::UserDispute(_) => if target.local_trade_pubkey.is_some() {
            ChatEmit::UserSolver
        } else {
            ChatEmit::Skip
        },
        ChatKeyId::Dispute(_, _) => ChatEmit::Admin,
    }
}

/// A decrypted chat message: text, inner timestamp, inner signer and inner event id
/// (raw bytes).
pub struct DecodedChatMessage {
    pub content: String,
    pub timestamp: i64,
    pub sender: Vec<u8>,
    pub inner_event_id: Vec<u8>,
}

/// Whether `id` is among `ids`.
pub open spec fn ids_contain(ids: Seq<Vec<u8>>, id: Seq<u8>) -> bool {
    exists|k: int| 0 <= k < ids.len() && (#[trigger] ids[k])@ == id
}

/// Whether a message with inner id `id` is among `msgs`.
pub open spec fn has_inner_id(msgs: Seq<DecodedChatMessage>, id: Seq<u8>) -> bool {
    exists|k: int| 0 <= k < msgs.len() && (#[trigger] msgs[k]).inner_event_id@ == id
}

/// History messages worth emitting, in order: at or after the cutoff, not durably
/// accepted, and the first of their inner id within the batch.
pub open spec fn history_kept(s: Seq<DecodedChatMessage>, cutoff: i64, accepted: Seq<Vec<u8>>) -> Seq<
    DecodedChatMessage,
>
    decreases s.len(),
{
    if s.len() == 0 {
        Seq::empty()
    } else {
        let k = history_kept(s.drop_last(), cutoff, accepted);
        let m = s.last();
        if m.timestamp >= cutoff && !ids_contain(accepted, m.inner_event_id@) && !has_inner_id(
            k,
            m.inner_event_id@,
        ) {
            k.push(m)
        } else {
            k
        }
    }
}

pub(crate) fn contains_id(ids: &Vec<Vec<u8>>, id: &Vec<u8>) -> (r: bool)
    ensures
        r == ids_contain(ids@, id@),
{
    let mut i: usize = 0;
    while i < ids.len()
        invariant
            i <= ids.len(),
            forall|k: int| 0 <= k < i ==> (#[trigger] ids@[k])@ != id@,
        decreases ids.len() - i,
    {
        if bytes_equal(&ids[i], id) {
            return true;
        }
        i = i + 1;
    }
    false
}

fn contains_inner_id(msgs: &Vec<DecodedChatMessage>, id: &Vec<u8>) -> (r: bool)
    ensures
        r == has_inner_id(msgs@, id@),
{
    let mut i: usize = 0;
    while i < msgs.len()
        invariant
            i <= msgs.len(),
            forall|k: int| 0 <= k < i ==> (#[trigger] msgs@[k]).inner_event_id@ != id@,
        decreases msgs.len() - i,
    {
        if bytes_equal(&msgs[i].inner_event_id, id) {
            return true;
        }
        i = i + 1;
    }
    false
}

/// Drop history messages before the cutoff, those already durably accepted, and repeats
/// of an inner id within this batch. Nothing is recorded: a failed save stays
/// retryable.
pub fn filter_unpersisted_chat_history(
    messages: Vec<DecodedChatMessage>,
    cutoff: i64,
    accepted: &Vec<Vec<u8>>,
) -> (r: Vec<DecodedChatMessage>)
    ensures
        r@ == history_kept(messages@, cutoff, accepted@),
{
    let ghost s = messages@;
    let mut msgs = messages;
    let mut out: Vec<DecodedChatMessage> = Vec::new();
    let n = msgs.len();
    let mut i: usize = 0;
    proof {
        assert(s.subrange(0, 0) =~= Seq::<DecodedChatMessage>::empty());
        assert(msgs@ =~= s.subrange(0, n as int));
    }
    while i < n
        invariant
            i <= n,
            n == s.len(),
            msgs@ == s.subrange(i as int, n as int),
            out@ == history_kept(s.subrange(0, i as int), cutoff, accepted@),
        decreases n - i,
    {
        proof {
            assert(s.subrange(0, i + 1).drop_last() =~= s.subrange(0, i as int));
        }
        let m = msgs.remove(0);
        proof {
            assert(m == s[i as int]);
            assert(msgs@ =~= s.subrange(i + 1, n as int));
        }
        let keep = m.timestamp >= cutoff && !contains_id(accepted, &m.inner_event_id) && !contains_inner_id(
            &out,
            &m.inner_event_id,
        );
        if keep {
            out.push(m);
        }
        i = i + 1;
    }
    proof {
        assert(s.subrange(0, n as int) =~= s);
    }
    out
}

/// Role of a sender in an observed dispute chat.
#[derive(Debug, Clone, Copy, PartialEq, Eq, Structural)]
pub enum ChatSender {
    Admin,
    Buyer,
    Seller,
}

/// The byte views of a list of keys.
pub open spec fn byte_views(s: Seq<Vec<u8>>) -> Seq<Seq<u8>> {
    s.map_values(|v: Vec<u8>| v@)
}

/// Senders other than the admin, each at its first appearance.
pub open spec fn first_seen(pks: Seq<Seq<u8>>, admin: Option<Seq<u8>>) -> Seq<Seq<u8>>
    decreases pks.len(),
{
    if pks.len() == 0 {
        Seq::empty()
    } else {
        let d = first_seen(pks.drop_last(), admin);
        let p = pks.last();
        if admin == Some(p) || d.contains(p) {
            d
        } else {
            d.push(p)
        }
    }
}

/// The admin (when known) is the admin; the first other sender is the buyer, the second
/// the seller, and any later one is taken for an admin.
pub open spec fn observer_role(d: Seq<Seq<u8>>, admin: Option<Seq<u8>>, pk: Seq<u8>) -> ChatSender {
    if admin == Some(pk) {
        ChatSender::Admin
    } else if d.len() > 0 && d[0] == pk {
        ChatSender::Buyer
    } else if d.len() > 1 && d[1] == pk {
        ChatSender::Seller
    } else {
        ChatSender::Admin
    }
}

fn is_admin_key(admin: &Option<Vec<u8>>, pk: &Vec<u8>) -> (r: bool)
    ensures
        r == (opt_bytes(*admin) == Some(pk@)),
{
    match admin {
        Some(a) => bytes_equal(a, pk),
        None => false,
    }
}

/// Roles of the senders of an observed chat, message by message.
pub fn observer_roles(senders: &Vec<Vec<u8>>, admin: &Option<Vec<u8>>) -> (r: Vec<ChatSender>)
    ensures
        r.len() == senders.len(),
        forall|k: int|
            0 <= k < senders.len() ==> #[trigger] r@[k] == observer_role(
                first_seen(byte_views(senders@), opt_bytes(*admin)),
                opt_bytes(*admin),
                senders@[k]@,
            ),
{
    let ghost adm = opt_bytes(*admin);
    let ghost all = byte_views(senders@);
    let mut bi: Option<usize> = None;
    let mut si: Option<usize> = None;
    let mut i: usize = 0;
    proof {
        assert(all.subrange(0, 0) =~= Seq::<Seq<u8>>::empty());
    }
    while i < senders.len()
        invariant
            i <= senders.len(),
            all == byte_views(senders@),
            adm == opt_bytes(*admin),
            ({
                let d = first_seen(all.subrange(0, i as int), adm);
                &&& (bi is None <==> d.len() == 0)
                &&& (si is None <==> d.len() <= 1)
                &&& (bi matches Some(b) ==> b < i && d[0] == senders@[b as int]@)
                &&& (si matches Some(c) ==> c < i && d[1] == senders@[c as int]@)
            }),
        decreases senders.len() - i,
    {
        let ghost d0 = first_seen(all.subrange(0, i as int), adm);
        proof {
            assert(all.subrange(0, i + 1).drop_last() =~= all.subrange(0, i as int));
            assert(all.subrange(0, i + 1).last() == senders@[i as int]@);
        }
        if !is_admin_key(admin, &senders[i]) {
            match bi {
                None => {
                    bi = Some(i);
                },
                Some(b) => {
                    if si.is_none() && !bytes_equal(&senders[b], &senders[i]) {
                        proof {
                            assert(d0.len() == 1);
                            assert(!d0.contains(senders@[i as int]@)) by {
                                if d0.contains(senders@[i as int]@) {
                                    let w = choose|w: int| 0 <= w < d0.len() && d0[w] == senders@[i as int]@;
                                    assert(w == 0);
                                }
                            }
                        }
                        si = Some(i);
                    } else if si.is_none() {
                        proof {
                            assert(d0.contains(senders@[i as int]@)) by {
                                assert(d0[0] == senders@[i as int]@);
                            }
                        }
                    }
                },
            }
        }
        i = i + 1;
    }
    proof {
        assert(all.subrange(0, senders.len() as int) =~= all);
    }
    let ghost d = first_seen(all, adm);
    let mut out: Vec<ChatSender> = Vec::new();
    let mut k: usize = 0;
    while k < senders.len()
        invariant
            k <= senders.len(),
            out.len() == k,
            all == byte_views(senders@),
            adm == opt_bytes(*admin),
            d == first_seen(all, adm),
            bi is None <==> d.len() == 0,
            si is None <==> d.len() <= 1,
            bi matches Some(b) ==> b < senders.len() && d[0] == senders@[b as int]@,
            si matches Some(c) ==> c < senders.len() && d[1] == senders@[c as int]@,
            forall|j: int| 0 <= j < k ==> #[trigger] out@[j] == observer_role(d, adm, senders@[j]@),
        decreases senders.len() - k,
    {
        let role = if is_admin_key(admin, &senders[k]) {
            ChatSender::Admin
        } else {
            let is_buyer = match bi {
                Some(b) => bytes_equal(&senders[b], &senders[k]),
                None => false,
            };
            let is_seller = match si {
                Some(c) => bytes_equal(&senders[c], &senders[k]),
                None => false,
            };
            if is_buyer {
                ChatSender::Buyer
            } else if is_seller {
                ChatSender::Seller
            } else {
                ChatSender::Admin
            }
        };
        out.push(role);
        k = k + 1;
    }
    out
}

/// `nostr_sdk::Keys::parse` then `public_key`: the 32-byte public key of a secret key
/// written as hex or bech32.
pub uninterp spec fn public_key_of_secret_text(secret: Seq<char>) -> Option<Seq<u8>>;

/// `mostro_core::chat::SharedKey::derive(secret, counterparty).to_hex()`: the ECDH shared
/// secret of a secret key and a counterparty public key, as lower-case hex.
pub uninterp spec fn shared_key_hex_of(secret: Seq<char>, counterparty: Seq<u8>) -> Option<Seq<char>>;

/// `nostr_sdk::Keys::parse(secret)` and its public key's 32 bytes; `None` when the text
/// is no secret key. The contract claims only that the outcome is the named function of
/// the text.
#[verifier::external_body]
fn secret_public_key(secret: &str) -> (r: Option<Vec<u8>>)
    ensures
        opt_bytes(r) == public_key_of_secret_text(secret@),
{
    nostr_sdk::Keys::parse(secret).ok().map(|k| k.public_key().to_bytes().to_vec())
}

/// `mostro_core::chat::SharedKey::derive` on the secret key parsed from `secret` and the
/// public key read from the 32 `counterparty` bytes, written with `to_hex`; `None` when
/// a key does not parse or the derivation fails. The contract claims only that the
/// outcome is the named function of the two arguments.
#[verifier::external_body]
fn shared_key_hex_from(secret: &str, counterparty: &Vec<u8>) -> (r: Option<String>)
    ensures
        match r {
            Some(h) => shared_key_hex_of(secret@, counterparty@) == Some(h@),
            None => shared_key_hex_of(secret@, counterparty@) is None,
        },
{
    let keys = match nostr_sdk::Keys::parse(secret) {
        Ok(k) => k,
        Err(_) => return None,
    };
    let cp = match nostr_sdk::PublicKey::from_slice(counterparty) {
        Ok(p) => p,
        Err(_) => return None,
    };
    mostro_core::chat::SharedKey::derive(keys.secret_key(), &cp).ok().map(|k| k.to_hex())
}

/// The shared secret a local key derives with a counterparty given by its public-key
/// text: `None` when either is missing, the counterparty text is no public key, or the
/// derivation fails.
pub open spec fn shared_hex_spec(secret: Option<Seq<char>>, counterparty: Option<Seq<char>>) -> Option<Seq<char>> {
    match (secret, counterparty) {
        (Some(sec), Some(c)) => match public_key_of_text(c) {
            Some(cb) => shared_key_hex_of(sec, cb),
            None => None,
        },
        _ => None,
    }
}

pub open spec fn opt_text(o: Option<&str>) -> Option<Seq<char>> {
    match o {
        Some(s) => Some(s@),
        None => None,
    }
}

/// Derive the chat shared secret of a local secret key and a counterparty public key,
/// as hex for storage.
pub fn derive_shared_key_hex(secret: Option<&str>, counterparty: Option<&str>) -> (r: Option<String>)
    ensures
        match r {
            Some(h) => shared_hex_spec(opt_text(secret), opt_text(counterparty)) == Some(h@),
            None => shared_hex_spec(opt_text(secret), opt_text(counterparty)) is None,
        },
{
    let cp = match counterparty {
        Some(c) => parse_public_key(c),
        None => None,
    };
    match (secret, cp) {
        (Some(sec), Some(cb)) => shared_key_hex_from(sec, &cb),
        _ => None,
    }
}

/// The order-chat counterparty's key text: both trade keys present and non-empty, both
/// readable, and the local key one of them; the counterparty is the other.
pub open spec fn counterparty_choice(me: Option<Seq<u8>>, order: SmallOrder) -> Option<Seq<char>> {
    match (order.buyer_trade_pubkey, order.seller_trade_pubkey) {
        (Some(b), Some(s)) => if b@.len() == 0 || s@.len() == 0 {
            None
        } else {
            match (me, public_key_of_text(b@), public_key_of_text(s@)) {
                (Some(m), Some(bp), Some(sp)) => if m == bp {
                    Some(s@)
                } else if m == sp {
                    Some(b@)
                } else {
                    None
                },
                _ => None,
            }
        },
        _ => None,
    }
}

/// The order-chat counterparty's key text and the shared secret the local trade key
/// derives with it.
pub fn order_chat_counterparty_and_shared_hex(trade_secret: &str, order: &SmallOrder) -> (r: Option<(String, String)>)
    ensures
        match counterparty_choice(public_key_of_secret_text(trade_secret@), *order) {
            Some(c) => match r {
                Some(pair) => pair.0@ == c && shared_hex_spec(Some(trade_secret@), Some(c)) == Some(pair.1@),
                None => shared_hex_spec(Some(trade_secret@), Some(c)) is None,
            },
            None => r is None,
        },
{
    let (b, s) = match (&order.buyer_trade_pubkey, &order.seller_trade_pubkey) {
        (Some(b), Some(s)) => (b, s),
        _ => return None,
    };
    if b.as_str().unicode_len() == 0 || s.as_str().unicode_len() == 0 {
        proof {
            assert(b@.len() == 0 || s@.len() == 0);
        }
        return None;
    }
    let me = match secret_public_key(trade_secret) {
        Some(m) => m,
        None => return None,
    };
    let bp = match parse_public_key(b.as_str()) {
        Some(p) => p,
        None => return None,
    };
    let sp = match parse_public_key(s.as_str()) {
        Some(p) => p,
        None => return None,
    };
    let counterparty = if bytes_equal(&me, &bp) {
        s.clone()
    } else if bytes_equal(&me, &sp) {
        b.clone()
    } else {
        return None;
    };
    match derive_shared_key_hex(Some(trade_secret), Some(counterparty.as_str())) {
        Some(h) => Some((counterparty, h)),
        None => None,
    }
}


/// After a chat is tracked under a shared key, that key tracks that chat: tracking it
/// again is a no-op.
pub proof fn track_then_tracks_law(s: Seq<ChatTarget>, t: ChatTarget)
    ensures
        tracks(without_pubkey(s, t.shared_pubkey@).push(t), t.shared_pubkey@, key_view(t.key_id)),
{
    let r = without_pubkey(s, t.shared_pubkey@).push(t);
    assert(r[r.len() - 1] == t);
}

/// After a chat is untracked, no followed target belongs to it.
pub proof fn untrack_removes_chat_law(s: Seq<ChatTarget>, kv: (int, Seq<char>, Option<ChatParty>))
    ensures
        forall|i: int| 0 <= i < without_chat(s, kv).len() ==> key_view((#[trigger] without_chat(s, kv)[i]).key_id) != kv,
    decreases s.len(),
{
    if s.len() > 0 {
        untrack_removes_chat_law(s.drop_last(), kv);
        let rest = without_chat(s.drop_last(), kv);
        if key_view(s.last().key_id) != kv {
            assert forall|i: int| 0 <= i < rest.push(s.last()).len() implies key_view(
                (#[trigger] rest.push(s.last())[i]).key_id,
            ) != kv by {
                if i < rest.len() {
                    assert(rest.push(s.last())[i] == rest[i]);
                }
            }
        }
    }
}

/// Every emitted history message is at or after the cutoff, not durably accepted, and
/// carries an inner id no other emitted message carries.
pub proof fn history_kept_law(s: Seq<DecodedChatMessage>, cutoff: i64, accepted: Seq<Vec<u8>>)
    ensures
        forall|i: int|
            0 <= i < history_kept(s, cutoff, accepted).len() ==> (#[trigger] history_kept(s, cutoff, accepted)[i]).timestamp
                >= cutoff && !ids_contain(accepted, history_kept(s, cutoff, accepted)[i].inner_event_id@),
        forall|i: int, j: int|
            0 <= i < j < history_kept(s, cutoff, accepted).len() ==> (#[trigger] history_kept(s, cutoff, accepted)[i]).inner_event_id@
                != (#[trigger] history_kept(s, cutoff, accepted)[j]).inner_event_id@,
    decreases s.len(),
{
    if s.len() > 0 {
        history_kept_law(s.drop_last(), cutoff, accepted);
        let k = history_kept(s.drop_last(), cutoff, accepted);
        let m = s.last();
        if m.timestamp >= cutoff && !ids_contain(accepted, m.inner_event_id@) && !has_inner_id(k, m.inner_event_id@) {
            let r = k.push(m);
            assert forall|i: int| 0 <= i < r.len() implies (#[trigger] r[i]).timestamp >= cutoff && !ids_contain(
                accepted,
                r[i].inner_event_id@,
            ) by {
                if i < k.len() {
                    assert(r[i] == k[i]);
                }
            }
            assert forall|i: int, j: int| 0 <= i < j < r.len() implies (#[trigger] r[i]).inner_event_id@
                != (#[trigger] r[j]).inner_event_id@ by {
                assert(r[i] == k[i]);
                if j == k.len() {
                    if k[i].inner_event_id@ == m.inner_event_id@ {
                        assert(has_inner_id(k, m.inner_event_id@));
                    }
                } else {
                    assert(r[j] == k[j]);
                }
            }
        }
    }
}

/// Senders first seen in an observed chat are distinct and never the admin.
pub proof fn first_seen_distinct_law(pks: Seq<Seq<u8>>, admin: Option<Seq<u8>>)
    ensures
        forall|i: int, j: int|
            0 <= i < j < first_seen(pks, admin).len() ==> (#[trigger] first_seen(pks, admin)[i]) != (#[trigger] first_seen(
                pks,
                admin,
            )[j]),
        forall|i: int| 0 <= i < first_seen(pks, admin).len() ==> admin != Some(#[trigger] first_seen(pks, admin)[i]),
    decreases pks.len(),
{
    if pks.len() > 0 {
        first_seen_distinct_law(pks.drop_last(), admin);
        let d = first_seen(pks.drop_last(), admin);
        let p = pks.last();
        if !(admin == Some(p) || d.contains(p)) {
            let r = d.push(p);
            assert forall|i: int, j: int| 0 <= i < j < r.len() implies (#[trigger] r[i]) != (#[trigger] r[j]) by {
                assert(r[i] == d[i]);
                if j == d.len() {
                    if d[i] == p {
                        assert(d.contains(p));
                    }
                } else {
                    assert(r[j] == d[j]);
                }
            }
            assert forall|i: int| 0 <= i < r.len() implies admin != Some(#[trigger] r[i]) by {
                if i < d.len() {
                    assert(r[i] == d[i]);
                }
            }
        }
    }
}

/// In an observed chat the buyer and the seller are different senders, and the admin is
/// neither.
pub proof fn observer_roles_law(pks: Seq<Seq<u8>>, admin: Option<Seq<u8>>, p: Seq<u8>, q: Seq<u8>)
    ensures
        observer_role(first_seen(pks, admin), admin, p) == ChatSender::Buyer && observer_role(
            first_seen(pks, admin),
            admin,
            q,
        ) == ChatSender::Seller ==> p != q,
        admin == Some(p) ==> observer_role(first_seen(pks, admin), admin, p) == ChatSender::Admin,
{
    first_seen_distinct_law(pks, admin);
    let d = first_seen(pks, admin);
    if d.len() > 1 {
        assert(d[0] != d[1]);
    }
}

} // verus!
