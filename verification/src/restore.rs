//! Session restore and order-detail refresh: checking Mostro's answer, rebuilding each
//! order (role, details, status), keeping the trade index ahead of every restored key,
//! and the summaries shown to the user.
use vstd::prelude::*;
use crate::order::{
    cant_do_text, get_cant_do_description, action_name, action_name_str, is_empty_order,
    parse_order_status, restored_order_role, status_from_text, terminal_status, Action,
    CantDoReason, OrderKind, OrderStatus, Payload, RestoreSessionInfo, RestoredRole, SmallOrder,
    is_terminal_order_status,
};
use crate::protocol::MessageKind;
use crate::text::{append_chars, append_str, chars_eq, chars_of, decimal, string_of, u64_decimal};

verus! {

/// Key bytes of a nostr public key written as text (hex or `npub`), as
/// `nostr_sdk::PublicKey::parse` reads it.
pub uninterp spec fn public_key_of_text(s: Seq<char>) -> Option<Seq<u8>>;

pub open spec fn opt_bytes(o: Option<Vec<u8>>) -> Option<Seq<u8>> {
    match o {
        Some(v) => Some(v@),
        None => None,
    }
}

/// `nostr_sdk::PublicKey::parse` followed by `to_bytes`: the 32 key bytes of a public key
/// written as hex or bech32, or `None` when the text is no public key. The contract
/// claims only that the outcome is the named function of the text, 32 bytes long.
#[verifier::external_body]
pub(crate) fn parse_public_key(s: &str) -> (r: Option<Vec<u8>>)
    ensures
        opt_bytes(r) == public_key_of_text(s@),
        r matches Some(v) ==> v@.len() == 32,
{
    nostr_sdk::PublicKey::parse(s).ok().map(|pk| pk.to_bytes().to_vec())
}

/// Role from Mostro's order details: with both trade pubkeys present and readable, the
/// user is the maker when they are the buyer of a buy order or the seller of a sell order,
/// the taker when they are the other party, and unknown when they are neither.
pub open spec fn maker_from_details(order: SmallOrder, me: Seq<u8>) -> Option<bool> {
    match (order.kind, order.buyer_trade_pubkey, order.seller_trade_pubkey) {
        (Some(kind), Some(b), Some(s)) => if b@.len() == 0 || s@.len() == 0 {
            None
        } else {
            match (public_key_of_text(b@), public_key_of_text(s@)) {
                (Some(bk), Some(sk)) => if me == bk {
                    Some(kind == OrderKind::Buy)
                } else if me == sk {
                    Some(kind == OrderKind::Sell)
                } else {
                    None
                },
                _ => None,
            }
        },
        _ => None,
    }
}

pub(crate) fn bytes_equal(a: &Vec<u8>, b: &Vec<u8>) -> (r: bool)
    ensures
        r == (a@ == b@),
{
    if a.len() != b.len() {
        return false;
    }
    let mut i: usize = 0;
    while i < a.len()
        invariant
            a.len() == b.len(),
            i <= a.len(),
            forall|j: int| 0 <= j < i ==> a@[j] == b@[j],
        decreases a.len() - i,
    {
        if a[i] != b[i] {
            return false;
        }
        i = i + 1;
    }
    assert(a@ =~= b@);
    true
}

/// Maker (`Some(true)`), taker (`Some(false)`) or unknown, from Mostro's order details and
/// the key bytes of the user's trade key.
pub fn is_maker_from_mostro_details(order: &SmallOrder, my_pubkey: &Vec<u8>) -> (r: Option<bool>)
    ensures
        r == maker_from_details(*order, my_pubkey@),
{
    let kind = match order.kind {
        Some(k) => k,
        None => return None,
    };
    let buyer_s = match &order.buyer_trade_pubkey {
        Some(b) => b,
        None => return None,
    };
    let seller_s = match &order.seller_trade_pubkey {
        Some(s) => s,
        None => return None,
    };
    if chars_of(buyer_s.as_str()).len() == 0 || chars_of(seller_s.as_str()).len() == 0 {
        return None;
    }
    let buyer_pk = match parse_public_key(buyer_s.as_str()) {
        Some(k) => k,
        None => return None,
    };
    let seller_pk = match parse_public_key(seller_s.as_str()) {
        Some(k) => k,
        None => return None,
    };
    if bytes_equal(my_pubkey, &buyer_pk) {
        return Some(kind == OrderKind::Buy);
    }
    if bytes_equal(my_pubkey, &seller_pk) {
        return Some(kind == OrderKind::Sell);
    }
    None
}

/// Role of a restored order and whether it had to be guessed: details decide when they
/// can; otherwise only maker-exclusive statuses mean maker, and the rest is an unknown
/// role stored as taker.
pub open spec fn restore_role(order: SmallOrder, me: Seq<u8>) -> (bool, bool) {
    match maker_from_details(order, me) {
        Some(m) => (m, false),
        None => {
            let guessed_maker = order.status == Some(OrderStatus::Pending) || order.status == Some(
                OrderStatus::WaitingMakerBond,
            );
            (guessed_maker, !guessed_maker)
        },
    }
}

/// `(is_maker, role_unknown)` of a restored order.
pub fn restored_role_of(order: &SmallOrder, my_pubkey: &Vec<u8>) -> (r: (bool, bool))
    ensures
        r == restore_role(*order, my_pubkey@),
{
    match is_maker_from_mostro_details(order, my_pubkey) {
        Some(m) => (m, false),
        None => {
            let guess = restored_order_role(order.status);
            match guess {
                RestoredRole::Maker => (true, false),
                RestoredRole::UnknownAsTaker => (false, true),
            }
        },
    }
}

/// The order to store for a restored id: Mostro's details when it returned them, else the
/// relay's, else an empty order; always with the restored id, and with the status Mostro
/// reported whenever that status text parses. The flag tells whether details were found.
pub open spec fn restored_order(
    detail: Option<SmallOrder>,
    relay_found: Option<SmallOrder>,
    order_id: u128,
    status_text: Seq<char>,
) -> (SmallOrder, bool) {
    let source = match detail {
        Some(d) => Some(d),
        None => relay_found,
    };
    (
        match source {
            Some(o) => SmallOrder {
                id: Some(order_id),
                status: match status_from_text(status_text) {
                    Some(s) => Some(s),
                    None => o.status,
                },
                ..o
            },
            None => arbitrary_restored(order_id, status_text),
        },
        source is Some,
    )
}

/// An empty order with the restored id and status (when it parses).
pub open spec fn arbitrary_restored(order_id: u128, status_text: Seq<char>) -> SmallOrder {
    choose|o: SmallOrder|
        is_empty_order(SmallOrder { id: None, status: None, ..o }) && o.id == Some(order_id)
            && o.status == status_from_text(status_text)
}

/// Build the order stored for a restored id (`relay_found` is consulted only when Mostro
/// returned no details).
pub fn restored_small_order(
    detail: Option<SmallOrder>,
    relay_found: Option<SmallOrder>,
    order_id: u128,
    status_text: &str,
) -> (r: (SmallOrder, bool))
    ensures
        r.1 == restored_order(detail, relay_found, order_id, status_text@).1,
        r.1 ==> r.0 == restored_order(detail, relay_found, order_id, status_text@).0,
        !r.1 ==> {
            &&& is_empty_order(SmallOrder { id: None, status: None, ..r.0 })
            &&& r.0.id == Some(order_id)
            &&& r.0.status == status_from_text(status_text@)
        },
{
    let source = match detail {
        Some(d) => Some(d),
        None => relay_found,
    };
    let with_details = source.is_some();
    let mut order = match source {
        Some(o) => o,
        None => SmallOrder::default(),
    };
    order.id = Some(order_id);
    match parse_order_status(status_text) {
        Some(s) => {
            order.status = Some(s);
        },
        None => {},
    }
    (order, with_details)
}

/// How restoring one order went.
#[derive(Debug, Clone, Copy, PartialEq, Eq, Structural)]
pub enum RestoredAs {
    Inserted { with_details: bool, role_unknown: bool },
    AlreadyKnown,
    /// Could not be persisted.
    Failed,
}

/// Outcome of a session restore, for the result popup.
#[derive(Debug, Clone, Copy, PartialEq, Eq, Structural)]
pub struct RestoreSummary {
    /// Orders inserted into the local database.
    pub restored: usize,
    /// Orders already present locally (only their status was refreshed).
    pub already_known: usize,
    /// Restored orders saved without relay details.
    pub missing_details: usize,
    /// Restored orders whose maker/taker role could not be determined (stored as taker).
    pub role_unknown: usize,
    /// Orders that could not be persisted.
    pub failed: usize,
    /// Disputes Mostro reported.
    pub disputes: usize,
    /// Disputes whose local order could not be marked as disputed.
    pub dispute_status_failed: usize,
}

/// Number of elements of `s` that satisfy `p`.
pub open spec fn count_where<T>(s: Seq<T>, p: spec_fn(T) -> bool) -> nat
    decreases s.len(),
{
    if s.len() == 0 {
        0
    } else {
        count_where(s.drop_last(), p) + if p(s.last()) {
            1nat
        } else {
            0nat
        }
    }
}

proof fn lemma_count_where_le<T>(s: Seq<T>, p: spec_fn(T) -> bool)
    ensures
        count_where(s, p) <= s.len(),
    decreases s.len(),
{
    if s.len() > 0 {
        lemma_count_where_le(s.drop_last(), p);
    }
}

proof fn lemma_count_where_push<T>(s: Seq<T>, x: T, p: spec_fn(T) -> bool)
    ensures
        count_where(s.push(x), p) == count_where(s, p) + if p(x) {
            1nat
        } else {
            0nat
        },
{
    assert(s.push(x).drop_last() =~= s);
}

pub open spec fn is_inserted(o: RestoredAs) -> bool {
    o is Inserted
}

pub open spec fn is_already_known(o: RestoredAs) -> bool {
    o is AlreadyKnown
}

pub open spec fn is_failed(o: RestoredAs) -> bool {
    o is Failed
}

pub open spec fn lacks_details(o: RestoredAs) -> bool {
    o matches RestoredAs::Inserted { with_details, .. } && !with_details
}

pub open spec fn has_unknown_role(o: RestoredAs) -> bool {
    o matches RestoredAs::Inserted { role_unknown, .. } && role_unknown
}

/// Tally the per-order outcomes and the dispute marks (`true`: marked) of a restore.
pub fn tally_restore(outcomes: &Vec<RestoredAs>, disputes: usize, dispute_marked: &Vec<bool>) -> (r:
    RestoreSummary)
    ensures
        r.restored == count_where(outcomes@, |o: RestoredAs| is_inserted(o)),
        r.already_known == count_where(outcomes@, |o: RestoredAs| is_already_known(o)),
        r.missing_details == count_where(outcomes@, |o: RestoredAs| lacks_details(o)),
        r.role_unknown == count_where(outcomes@, |o: RestoredAs| has_unknown_role(o)),
        r.failed == count_where(outcomes@, |o: RestoredAs| is_failed(o)),
        r.disputes == disputes,
        r.dispute_status_failed == count_where(dispute_marked@, |m: bool| !m),
{
    let mut s = RestoreSummary {
        restored: 0,
        already_known: 0,
        missing_details: 0,
        role_unknown: 0,
        failed: 0,
        disputes,
        dispute_status_failed: 0,
    };
    let mut i: usize = 0;
    while i < outcomes.len()
        invariant
            i <= outcomes.len(),
            s.disputes == disputes,
            s.dispute_status_failed == 0,
            s.restored == count_where(outcomes@.subrange(0, i as int), |o: RestoredAs| is_inserted(o)),
            s.already_known == count_where(
                outcomes@.subrange(0, i as int),
                |o: RestoredAs| is_already_known(o),
            ),
            s.missing_details == count_where(
                outcomes@.subrange(0, i as int),
                |o: RestoredAs| lacks_details(o),
            ),
            s.role_unknown == count_where(
                outcomes@.subrange(0, i as int),
                |o: RestoredAs| has_unknown_role(o),
            ),
            s.failed == count_where(outcomes@.subrange(0, i as int), |o: RestoredAs| is_failed(o)),
        decreases outcomes.len() - i,
    {
        let o = outcomes[i];
        let ghost prefix = outcomes@.subrange(0, i as int);
        proof {
            assert(outcomes@.subrange(0, i + 1) =~= prefix.push(o));
            lemma_count_where_push(prefix, o, |o: RestoredAs| is_inserted(o));
            lemma_count_where_push(prefix, o, |o: RestoredAs| is_already_known(o));
            lemma_count_where_push(prefix, o, |o: RestoredAs| lacks_details(o));
            lemma_count_where_push(prefix, o, |o: RestoredAs| has_unknown_role(o));
            lemma_count_where_push(prefix, o, |o: RestoredAs| is_failed(o));
            lemma_count_where_le(prefix, |o: RestoredAs| is_inserted(o));
            lemma_count_where_le(prefix, |o: RestoredAs| is_already_known(o));
            lemma_count_where_le(prefix, |o: RestoredAs| lacks_details(o));
            lemma_count_where_le(prefix, |o: RestoredAs| has_unknown_role(o));
            lemma_count_where_le(prefix, |o: RestoredAs| is_failed(o));
        }
        match o {
            RestoredAs::Inserted { with_details, role_unknown } => {
                s.restored = s.restored + 1;
                if !with_details {
                    s.missing_details = s.missing_details + 1;
                }
                if role_unknown {
                    s.role_unknown = s.role_unknown + 1;
                }
            },
            RestoredAs::AlreadyKnown => {
                s.already_known = s.already_known + 1;
            },
            RestoredAs::Failed => {
                s.failed = s.failed + 1;
            },
        }
        i = i + 1;
    }
    proof {
        assert(outcomes@.subrange(0, outcomes.len() as int) =~= outcomes@);
    }
    let mut j: usize = 0;
    while j < dispute_marked.len()
        invariant
            j <= dispute_marked.len(),
            s.restored == count_where(outcomes@, |o: RestoredAs| is_inserted(o)),
            s.already_known == count_where(outcomes@, |o: RestoredAs| is_already_known(o)),
            s.missing_details == count_where(outcomes@, |o: RestoredAs| lacks_details(o)),
            s.role_unknown == count_where(outcomes@, |o: RestoredAs| has_unknown_role(o)),
            s.failed == count_where(outcomes@, |o: RestoredAs| is_failed(o)),
            s.disputes == disputes,
            s.dispute_status_failed == count_where(
                dispute_marked@.subrange(0, j as int),
                |m: bool| !m,
            ),
        decreases dispute_marked.len() - j,
    {
        let m = dispute_marked[j];
        proof {
            let prefix = dispute_marked@.subrange(0, j as int);
            assert(dispute_marked@.subrange(0, j + 1) =~= prefix.push(m));
            lemma_count_where_push(prefix, m, |m: bool| !m);
            lemma_count_where_le(prefix, |m: bool| !m);
        }
        if !m {
            s.dispute_status_failed = s.dispute_status_failed + 1;
        }
        j = j + 1;
    }
    proof {
        assert(dispute_marked@.subrange(0, dispute_marked.len() as int) =~= dispute_marked@);
    }
    s
}

/// Every restored order is counted exactly once: as inserted, already known or failed.
pub proof fn restore_tally_law(outcomes: Seq<RestoredAs>)
    ensures
        count_where(outcomes, |o: RestoredAs| is_inserted(o)) + count_where(
            outcomes,
            |o: RestoredAs| is_already_known(o),
        ) + count_where(outcomes, |o: RestoredAs| is_failed(o)) == outcomes.len(),
        count_where(outcomes, |o: RestoredAs| lacks_details(o)) <= count_where(
            outcomes,
            |o: RestoredAs| is_inserted(o),
        ),
        count_where(outcomes, |o: RestoredAs| has_unknown_role(o)) <= count_where(
            outcomes,
            |o: RestoredAs| is_inserted(o),
        ),
    decreases outcomes.len(),
{
    if outcomes.len() > 0 {
        restore_tally_law(outcomes.drop_last());
    }
}

/// `" <n><tail>"` when `n > 0`, else nothing.
pub open spec fn count_sentence(n: usize, tail: Seq<char>) -> Seq<char> {
    if n > 0 {
        " "@ + decimal(n as nat) + tail
    } else {
        Seq::<char>::empty()
    }
}

fn count_sentence_chars(n: usize, tail: &str) -> (r: Vec<char>)
    ensures
        r@ == count_sentence(n, tail@),
{
    let mut out: Vec<char> = Vec::new();
    if n > 0 {
        append_str(&mut out, " ");
        append_chars(&mut out, &u64_decimal(n as u64));
        append_str(&mut out, tail);
    }
    assert(out@ =~= count_sentence(n, tail@));
    out
}

/// Text of a restore summary.
pub open spec fn restore_summary_text(s: RestoreSummary) -> Seq<char> {
    "Session restored: "@ + decimal(s.restored as nat) + " order(s) recovered, "@ + decimal(
        s.already_known as nat,
    ) + " already known, "@ + decimal(s.disputes as nat) + " dispute(s)."@ + count_sentence(
        s.missing_details,
        " order(s) had no relay details and were saved with minimal info."@,
    ) + count_sentence(
        s.role_unknown,
        " order(s) restored with unknown maker/taker role (shown as taker)."@,
    ) + count_sentence(s.failed, " order(s) could not be saved — see log."@) + count_sentence(
        s.dispute_status_failed,
        " dispute(s) could not be marked locally — see log."@,
    )
}

impl RestoreSummary {
    /// A summary with every count at zero.
    pub fn new() -> (r: RestoreSummary)
        ensures
            r == (RestoreSummary {
                restored: 0,
                already_known: 0,
                missing_details: 0,
                role_unknown: 0,
                failed: 0,
                disputes: 0,
                dispute_status_failed: 0,
            }),
    {
        RestoreSummary {
            restored: 0,
            already_known: 0,
            missing_details: 0,
            role_unknown: 0,
            failed: 0,
            disputes: 0,
            dispute_status_failed: 0,
        }
    }

    /// The message shown when the restore finishes: the counts, and a sentence for each
    /// kind of trouble that occurred.
    pub fn to_user_message(&self) -> (r: String)
        ensures
            r@ == restore_summary_text(*self),
    {
        let mut out: Vec<char> = Vec::new();
        append_str(&mut out, "Session restored: ");
        append_chars(&mut out, &u64_decimal(self.restored as u64));
        append_str(&mut out, " order(s) recovered, ");
        append_chars(&mut out, &u64_decimal(self.already_known as u64));
        append_str(&mut out, " already known, ");
        append_chars(&mut out, &u64_decimal(self.disputes as u64));
        append_str(&mut out, " dispute(s).");
        append_chars(
            &mut out,
            &count_sentence_chars(
                self.missing_details,
                " order(s) had no relay details and were saved with minimal info.",
            ),
        );
        append_chars(
            &mut out,
            &count_sentence_chars(
                self.role_unknown,
                " order(s) restored with unknown maker/taker role (shown as taker).",
            ),
        );
        append_chars(
            &mut out,
            &count_sentence_chars(self.failed, " order(s) could not be saved — see log."),
        );
        append_chars(
            &mut out,
            &count_sentence_chars(
                self.dispute_status_failed,
                " dispute(s) could not be marked locally — see log.",
            ),
        );
        assert(out@ =~= restore_summary_text(*self));
        string_of(&out)
    }
}

impl Default for RestoreSummary {
    fn default() -> (r: RestoreSummary)
        ensures
            r == (RestoreSummary {
                restored: 0,
                already_known: 0,
                missing_details: 0,
                role_unknown: 0,
                failed: 0,
                disputes: 0,
                dispute_status_failed: 0,
            }),
    {
        RestoreSummary::new()
    }
}

/// What the restore task reports when it finishes.
pub enum RestoreCompletion {
    /// The restore went through; the UI resyncs and shows the message.
    SessionRestored { message: String },
    Error(String),
}

/// A finished restore becomes `SessionRestored` with the summary text; a failed one an
/// error that says so.
pub fn restore_completion_result(outcome: &Result<RestoreSummary, String>) -> (r: RestoreCompletion)
    ensures
        match outcome {
            Ok(s) => r matches RestoreCompletion::SessionRestored { message } && message@
                == restore_summary_text(*s),
            Err(e) => r matches RestoreCompletion::Error(m) && m@ == "Restore failed: "@ + e@,
        },
{
    match outcome {
        Ok(s) => RestoreCompletion::SessionRestored { message: s.to_user_message() },
        Err(e) => {
            let mut out: Vec<char> = Vec::new();
            append_str(&mut out, "Restore failed: ");
            append_str(&mut out, e.as_str());
            RestoreCompletion::Error(string_of(&out))
        },
    }
}

/// Why a restore answer was refused.
pub enum RestoreError {
    NoResponse,
    /// Signed by someone other than the configured Mostro (their key as text).
    WrongSender(String),
    CantDo(Option<CantDoReason>),
    UnexpectedAction(Action),
    MissingRestoreData,
}

pub open spec fn restore_error_text(e: RestoreError) -> Seq<char> {
    match e {
        RestoreError::NoResponse => "No response received from Mostro"@,
        RestoreError::WrongSender(s) => "Restore response signed by "@ + s@
            + ", expected the configured Mostro instance"@,
        RestoreError::CantDo(Some(r)) => cant_do_text(r),
        RestoreError::CantDo(None) => "Unknown error - Mostro couldn't process your request"@,
        RestoreError::UnexpectedAction(a) => "Unexpected action in response: "@ + action_name(a),
        RestoreError::MissingRestoreData => "No restore data payload in response"@,
    }
}

impl RestoreError {
    /// The error text.
    pub fn message(&self) -> (r: String)
        ensures
            r@ == restore_error_text(*self),
    {
        let mut out: Vec<char> = Vec::new();
        match self {
            RestoreError::NoResponse => append_str(&mut out, "No response received from Mostro"),
            RestoreError::WrongSender(s) => {
                append_str(&mut out, "Restore response signed by ");
                append_str(&mut out, s.as_str());
                append_str(&mut out, ", expected the configured Mostro instance");
            },
            RestoreError::CantDo(Some(r)) => {
                let d = get_cant_do_description(r);
                append_str(&mut out, d.as_str());
            },
            RestoreError::CantDo(None) => append_str(
                &mut out,
                "Unknown error - Mostro couldn't process your request",
            ),
            RestoreError::UnexpectedAction(a) => {
                append_str(&mut out, "Unexpected action in response: ");
                append_str(&mut out, action_name_str(*a));
            },
            RestoreError::MissingRestoreData => append_str(
                &mut out,
                "No restore data payload in response",
            ),
        }
        string_of(&out)
    }
}

/// The session data of a restore answer. The answer carries no request id, so it is
/// accepted only when signed by the configured Mostro (compared by key text), is no
/// `CantDo`, is a `RestoreSession` action and carries restore data.
pub fn restore_data_from_reply<'a>(
    first: Option<&'a MessageKind>,
    sender: &str,
    mostro: &str,
) -> (r: Result<&'a RestoreSessionInfo, RestoreError>)
    ensures
        match first {
            None => r matches Err(RestoreError::NoResponse),
            Some(msg) => if sender@ != mostro@ {
                r matches Err(RestoreError::WrongSender(s)) && s@ == sender@
            } else {
                match msg.payload {
                    Some(Payload::CantDo(reason)) => r matches Err(RestoreError::CantDo(x)) && x
                        == reason,
                    Some(Payload::RestoreData(d)) => if msg.action != Action::RestoreSession {
                        r matches Err(RestoreError::UnexpectedAction(a)) && a == msg.action
                    } else {
                        r matches Ok(v) && *v == d
                    },
                    _ => if msg.action != Action::RestoreSession {
                        r matches Err(RestoreError::UnexpectedAction(a)) && a == msg.action
                    } else {
                        r matches Err(RestoreError::MissingRestoreData)
                    },
                }
            },
        },
{
    let msg = match first {
        Some(m) => m,
        None => return Err(RestoreError::NoResponse),
    };
    if !chars_eq(&chars_of(sender), &chars_of(mostro)) {
        return Err(RestoreError::WrongSender(string_of(&chars_of(sender))));
    }
    match &msg.payload {
        Some(Payload::CantDo(reason)) => return Err(RestoreError::CantDo(*reason)),
        _ => {},
    }
    if msg.action != Action::RestoreSession {
        return Err(RestoreError::UnexpectedAction(msg.action));
    }
    match &msg.payload {
        Some(Payload::RestoreData(d)) => Ok(d),
        _ => Err(RestoreError::MissingRestoreData),
    }
}

/// Highest trade index among restored orders and disputes, `0` when there are none.
pub open spec fn restore_max_index(orders: Seq<i64>, disputes: Seq<i64>) -> int {
    let all = orders + disputes;
    if all.len() == 0 {
        0
    } else {
        seq_max(all)
    }
}

pub open spec fn seq_max(s: Seq<i64>) -> int
    decreases s.len(),
{
    if s.len() <= 1 {
        if s.len() == 1 { s[0] as int } else { 0 }
    } else {
        let m = seq_max(s.drop_last());
        if s.last() as int > m {
            s.last() as int
        } else {
            m
        }
    }
}

pub open spec fn order_indices(info: RestoreSessionInfo) -> Seq<i64> {
    info.restore_orders@.map_values(|o: crate::order::RestoredOrderInfo| o.trade_index)
}

pub open spec fn dispute_indices(info: RestoreSessionInfo) -> Seq<i64> {
    info.restore_disputes@.map_values(|d: crate::order::RestoredDisputeInfo| d.trade_index)
}

/// Highest restored trade index (orders and disputes), `0` when nothing was restored.
pub fn restore_max_trade_index(info: &RestoreSessionInfo) -> (r: i64)
    ensures
        r == restore_max_index(order_indices(*info), dispute_indices(*info)),
{
    let ghost all = order_indices(*info) + dispute_indices(*info);
    let mut best: Option<i64> = None;
    let mut i: usize = 0;
    let n1 = info.restore_orders.len();
    while i < n1
        invariant
            i <= n1,
            n1 == info.restore_orders.len(),
            all == order_indices(*info) + dispute_indices(*info),
            match best {
                Some(b) => i > 0 && b == seq_max(all.subrange(0, i as int)),
                None => i == 0,
            },
        decreases n1 - i,
    {
        let v = info.restore_orders[i].trade_index;
        proof {
            assert(all.subrange(0, i + 1).drop_last() =~= all.subrange(0, i as int));
            assert(all[i as int] == v);
        }
        best = match best {
            Some(b) => Some(if v > b { v } else { b }),
            None => Some(v),
        };
        i = i + 1;
    }
    let mut j: usize = 0;
    let n2 = info.restore_disputes.len();
    while j < n2
        invariant
            i == n1,
            j <= n2,
            n1 == info.restore_orders.len(),
            n2 == info.restore_disputes.len(),
            all == order_indices(*info) + dispute_indices(*info),
            all.len() == n1 + n2,
            match best {
                Some(b) => n1 + j > 0 && b == seq_max(all.subrange(0, n1 + j)),
                None => n1 + j == 0,
            },
        decreases n2 - j,
    {
        let v = info.restore_disputes[j].trade_index;
        proof {
            assert(all.subrange(0, n1 + j + 1).drop_last() =~= all.subrange(0, n1 + j));
            assert(all[n1 + j] == v);
        }
        best = match best {
            Some(b) => Some(if v > b { v } else { b }),
            None => Some(v),
        };
        j = j + 1;
    }
    proof {
        assert(all.subrange(0, all.len() as int) =~= all);
    }
    match best {
        Some(b) => b,
        None => 0,
    }
}

/// The stored last trade index moves only forward.
pub fn should_advance_last_trade_index(effective_last: i64, current: Option<i64>) -> (r: bool)
    ensures
        r == (effective_last > match current {
            Some(c) => c,
            None => 0,
        }),
{
    effective_last > match current {
        Some(c) => c,
        None => 0,
    }
}

/// A restored order keeps its live DM route unless its reported status ends the trade.
pub fn restore_tracks_order(status_text: &str) -> (r: bool)
    ensures
        r == !match status_from_text(status_text@) {
            Some(s) => terminal_status(s),
            None => false,
        },
{
    match parse_order_status(status_text) {
        Some(s) => !is_terminal_order_status(s),
        None => true,
    }
}

/// Outcome of an orders-info refresh, for the result popup.
pub struct OrdersInfoSummary {
    /// Orders Mostro returned that were merged locally.
    pub refreshed: usize,
    /// Ids of the refreshed orders.
    pub refreshed_ids: Vec<u128>,
    /// Orders a newer trade DM advanced while the request was out; kept as they were.
    pub superseded: usize,
    /// Orders that could not be refreshed.
    pub failed: usize,
}

pub open spec fn orders_info_text(refreshed: usize, superseded: usize, failed: usize) -> Seq<char> {
    "Refreshed "@ + decimal(refreshed as nat) + " order(s) from Mostro."@ + (if superseded > 0 {
        " "@ + decimal(superseded as nat) + " already had a newer update and were kept as is."@
    } else {
        Seq::<char>::empty()
    }) + (if failed > 0 {
        " "@ + decimal(failed as nat) + " could not be refreshed — see log."@
    } else {
        Seq::<char>::empty()
    })
}

impl Default for OrdersInfoSummary {
    fn default() -> (r: OrdersInfoSummary)
        ensures
            r.refreshed == 0 && r.refreshed_ids@ == Seq::<u128>::empty() && r.superseded == 0 && r.failed == 0,
    {
        OrdersInfoSummary { refreshed: 0, refreshed_ids: Vec::new(), superseded: 0, failed: 0 }
    }
}

impl OrdersInfoSummary {
    /// The message shown after a refresh.
    pub fn to_user_message(&self) -> (r: String)
        ensures
            r@ == orders_info_text(self.refreshed, self.superseded, self.failed),
    {
        let mut out: Vec<char> = Vec::new();
        append_str(&mut out, "Refreshed ");
        append_chars(&mut out, &u64_decimal(self.refreshed as u64));
        append_str(&mut out, " order(s) from Mostro.");
        if self.superseded > 0 {
            append_str(&mut out, " ");
            append_chars(&mut out, &u64_decimal(self.superseded as u64));
            append_str(&mut out, " already had a newer update and were kept as is.");
        }
        if self.failed > 0 {
            append_str(&mut out, " ");
            append_chars(&mut out, &u64_decimal(self.failed as u64));
            append_str(&mut out, " could not be refreshed — see log.");
        }
        assert(out@ =~= orders_info_text(self.refreshed, self.superseded, self.failed));
        string_of(&out)
    }
}

/// What merging one returned order did.
#[derive(Debug, Clone, Copy, PartialEq, Eq, Structural)]
pub enum RefreshOutcome {
    Applied,
    Superseded,
    Failed,
}

pub open spec fn applied_ids(outcomes: Seq<(u128, RefreshOutcome)>) -> Seq<u128>
    decreases outcomes.len(),
{
    if outcomes.len() == 0 {
        Seq::empty()
    } else {
        let prev = applied_ids(outcomes.drop_last());
        if outcomes.last().1 == RefreshOutcome::Applied {
            prev.push(outcomes.last().0)
        } else {
            prev
        }
    }
}

/// Nothing could be refreshed.
#[derive(Debug, Clone, Copy, PartialEq, Eq, Structural)]
pub struct NothingRefreshed;

/// Summarize an orders-info refresh: `pre_failed` orders failed before the request (no
/// local row or keys), then each returned order was applied, superseded or failed. When
/// nothing was applied or superseded, the refresh as a whole failed.
pub fn summarize_orders_info(pre_failed: usize, outcomes: &Vec<(u128, RefreshOutcome)>) -> (r: Result<
    OrdersInfoSummary,
    NothingRefreshed,
>)
    requires
        pre_failed + outcomes.len() <= usize::MAX,
    ensures
        ({
            let applied = count_where(outcomes@, |o: (u128, RefreshOutcome)| o.1 == RefreshOutcome::Applied);
            let superseded = count_where(
                outcomes@,
                |o: (u128, RefreshOutcome)| o.1 == RefreshOutcome::Superseded,
            );
            let failed = count_where(outcomes@, |o: (u128, RefreshOutcome)| o.1 == RefreshOutcome::Failed);
            if applied == 0 && superseded == 0 {
                r == Err::<OrdersInfoSummary, NothingRefreshed>(NothingRefreshed)
            } else {
                r matches Ok(s) && s.refreshed == applied && s.superseded == superseded && s.failed
                    == pre_failed + failed && s.refreshed_ids@ == applied_ids(outcomes@)
            }
        }),
{
    let mut refreshed: usize = 0;
    let mut superseded: usize = 0;
    let mut failed: usize = pre_failed;
    let mut ids: Vec<u128> = Vec::new();
    let mut i: usize = 0;
    while i < outcomes.len()
        invariant
            i <= outcomes.len(),
            pre_failed + outcomes.len() <= usize::MAX,
            refreshed == count_where(
                outcomes@.subrange(0, i as int),
                |o: (u128, RefreshOutcome)| o.1 == RefreshOutcome::Applied,
            ),
            superseded == count_where(
                outcomes@.subrange(0, i as int),
                |o: (u128, RefreshOutcome)| o.1 == RefreshOutcome::Superseded,
            ),
            failed == pre_failed + count_where(
                outcomes@.subrange(0, i as int),
                |o: (u128, RefreshOutcome)| o.1 == RefreshOutcome::Failed,
            ),
            ids@ == applied_ids(outcomes@.subrange(0, i as int)),
        decreases outcomes.len() - i,
    {
        let (id, o) = outcomes[i];
        proof {
            let prefix = outcomes@.subrange(0, i as int);
            assert(outcomes@.subrange(0, i + 1) =~= prefix.push((id, o)));
            assert(prefix.push((id, o)).drop_last() =~= prefix);
            lemma_count_where_push(prefix, (id, o), |o: (u128, RefreshOutcome)| o.1 == RefreshOutcome::Applied);
            lemma_count_where_push(prefix, (id, o), |o: (u128, RefreshOutcome)| o.1 == RefreshOutcome::Superseded);
            lemma_count_where_push(prefix, (id, o), |o: (u128, RefreshOutcome)| o.1 == RefreshOutcome::Failed);
            lemma_count_where_le(prefix, |o: (u128, RefreshOutcome)| o.1 == RefreshOutcome::Applied);
            lemma_count_where_le(prefix, |o: (u128, RefreshOutcome)| o.1 == RefreshOutcome::Superseded);
            lemma_count_where_le(prefix, |o: (u128, RefreshOutcome)| o.1 == RefreshOutcome::Failed);
        }
        match o {
            RefreshOutcome::Applied => {
                refreshed = refreshed + 1;
                ids.push(id);
            },
            RefreshOutcome::Superseded => {
                superseded = superseded + 1;
            },
            RefreshOutcome::Failed => {
                failed = failed + 1;
            },
        }
        i = i + 1;
    }
    proof {
        assert(outcomes@.subrange(0, outcomes.len() as int) =~= outcomes@);
    }
    if refreshed == 0 && superseded == 0 {
        return Err(NothingRefreshed);
    }
    Ok(OrdersInfoSummary { refreshed, refreshed_ids: ids, superseded, failed })
}

/// Mostro omits invoices from order details: keep the local one in that case.
pub fn keep_local_buyer_invoice(order: SmallOrder, local_invoice: Option<String>) -> (r: SmallOrder)
    ensures
        r == if order.buyer_invoice is None {
            SmallOrder { buyer_invoice: local_invoice, ..order }
        } else {
            order
        },
{
    let mut order = order;
    if order.buyer_invoice.is_none() {
        order.buyer_invoice = local_invoice;
    }
    order
}


/// The user's key is the key this trade-key text reads as.
pub open spec fn key_is_mine(k: Option<String>, me: Seq<u8>) -> bool {
    match k {
        Some(t) => public_key_of_text(t@) == Some(me),
        None => false,
    }
}

/// A present, non-empty trade-key text that reads as a key.
pub open spec fn key_readable(k: Option<String>) -> bool {
    match k {
        Some(t) => t@.len() > 0 && public_key_of_text(t@) is Some,
        None => false,
    }
}

/// The maker is the buyer of a buy order or the seller of a sell order; the taker is the
/// other party. So a role read from Mostro's details is "maker" only when the user's key
/// is the key of the party who created that kind of order, and "taker" only when it is the
/// key of the other party; when both keys are readable and the user holds exactly one of
/// them, the role is always read.
pub proof fn maker_role_law(order: SmallOrder, me: Seq<u8>)
    ensures
        maker_from_details(order, me) == Some(true) ==> (order.kind == Some(OrderKind::Buy) && key_is_mine(
            order.buyer_trade_pubkey,
            me,
        )) || (order.kind == Some(OrderKind::Sell) && key_is_mine(order.seller_trade_pubkey, me)),
        maker_from_details(order, me) == Some(false) ==> (order.kind == Some(OrderKind::Sell) && key_is_mine(
            order.buyer_trade_pubkey,
            me,
        )) || (order.kind == Some(OrderKind::Buy) && key_is_mine(order.seller_trade_pubkey, me)),
        (order.kind is Some && key_readable(order.buyer_trade_pubkey) && key_readable(order.seller_trade_pubkey)
            && key_is_mine(order.buyer_trade_pubkey, me) != key_is_mine(order.seller_trade_pubkey, me))
            ==> maker_from_details(order, me) is Some,
{
}

} // verus!
