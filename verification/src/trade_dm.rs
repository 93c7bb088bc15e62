//! How the DM listener folds one trade DM into the Messages tab: which sats and invoice
//! it shows, whether the DM is new and actionable, whether it replaces the order's row,
//! where a batch stops, and how startup replay picks and counts DMs.
use vstd::prelude::*;
use crate::order::{
    cancel_action, payload_order_status, terminal_status, untracks_chat_status, Action, OrderKind,
    OrderRow, OrderStatus, Payload, SmallOrder, is_pre_active_taker_take, row_status,
    pre_active_status, trade_message_is_terminal, trade_message_should_untrack_order_chat,
};
use crate::chat::{derive_shared_key_hex, shared_hex_spec};
use crate::text::chars_of;

verus! {

/// The newest Messages row already shown for an order.
pub struct PriorMessage {
    pub timestamp: i64,
    pub action: Action,
    pub sat_amount: Option<i64>,
    pub buyer_invoice: Option<String>,
    pub auto_popup_shown: bool,
    pub order_kind: Option<OrderKind>,
    pub is_mine: Option<bool>,
    pub order_status: Option<OrderStatus>,
}

/// Sats and invoice a trade DM carries: a payment request's amount (else its order's)
/// with its invoice; an `AddInvoice` order's amount; a bond payout request's order amount.
pub open spec fn dm_sats_and_invoice(action: Action, payload: Option<Payload>) -> (Option<i64>, Option<String>) {
    if action == Action::PayInvoice || action == Action::PayBondInvoice {
        match payload {
            Some(Payload::PaymentRequest(opt, inv, amt)) => (
                match amt {
                    Some(a) => Some(a),
                    None => match opt {
                        Some(o) => Some(o.amount),
                        None => None,
                    },
                },
                Some(inv),
            ),
            _ => (None, None),
        }
    } else if action == Action::AddInvoice {
        match payload {
            Some(Payload::Order(o)) => (Some(o.amount), None),
            _ => (None, None),
        }
    } else if action == Action::AddBondInvoice {
        match payload {
            Some(Payload::BondPayoutRequest(o, _)) => (Some(o.amount), None),
            _ => (None, None),
        }
    } else {
        (None, None)
    }
}

/// Sats and invoice of a trade DM.
pub fn trade_dm_sat_amount_and_invoice(action: Action, payload: &Option<Payload>) -> (r: (
    Option<i64>,
    Option<String>,
))
    ensures
        r == dm_sats_and_invoice(action, *payload),
{
    match action {
        Action::PayInvoice | Action::PayBondInvoice => match payload {
            Some(Payload::PaymentRequest(opt, inv, amt)) => {
                let sats = match amt {
                    Some(a) => Some(*a),
                    None => match opt {
                        Some(o) => Some(o.amount),
                        None => None,
                    },
                };
                (sats, Some(inv.clone()))
            },
            _ => (None, None),
        },
        Action::AddInvoice => match payload {
            Some(Payload::Order(o)) => (Some(o.amount), None),
            _ => (None, None),
        },
        Action::AddBondInvoice => match payload {
            Some(Payload::BondPayoutRequest(o, _)) => (Some(o.amount), None),
            _ => (None, None),
        },
        _ => (None, None),
    }
}

pub open spec fn nonempty_text(s: Option<String>) -> bool {
    match s {
        Some(t) => t@.len() > 0,
        None => false,
    }
}

fn has_text(s: &Option<String>) -> (r: bool)
    ensures
        r == nonempty_text(*s),
{
    match s {
        Some(t) => chars_of(t.as_str()).len() > 0,
        None => false,
    }
}

/// A pay DM without an invoice is dropped before it reaches the Messages tab.
pub fn pay_dm_lacks_invoice(action: Action, invoice: &Option<String>) -> (r: bool)
    ensures
        r == ((action == Action::PayInvoice || action == Action::PayBondInvoice) && !nonempty_text(
            *invoice,
        )),
{
    (action == Action::PayInvoice || action == Action::PayBondInvoice) && !has_text(invoice)
}

/// A DM is new when no row exists, when it carries another action than the row, or when
/// it is strictly newer than the row (relays deliver out of order).
pub open spec fn new_trade_message(action: Action, timestamp: i64, prior: Option<(i64, Action)>) -> bool {
    match prior {
        None => true,
        Some((ts, a)) => action != a || timestamp > ts,
    }
}

/// Whether a trade DM is new with respect to the order's row.
pub fn is_new_trade_message(action: Action, timestamp: i64, prior: Option<&PriorMessage>) -> (r: bool)
    ensures
        r == new_trade_message(
            action,
            timestamp,
            match prior {
                Some(p) => Some((p.timestamp, p.action)),
                None => None,
            },
        ),
{
    match prior {
        None => true,
        Some(p) => action != p.action || timestamp > p.timestamp,
    }
}

/// Order kind shown with the DM: the payload's order, else the row's, else the take
/// action's implied kind, else the stored order's.
pub open spec fn dm_order_kind(
    payload: Option<Payload>,
    prior_kind: Option<OrderKind>,
    action: Action,
    db_kind: Option<OrderKind>,
) -> Option<OrderKind> {
    let from_payload = match payload {
        Some(Payload::Order(o)) => o.kind,
        Some(Payload::PaymentRequest(Some(o), _, _)) => o.kind,
        _ => None,
    };
    let from_take = if action == Action::TakeSell {
        Some(OrderKind::Sell)
    } else if action == Action::TakeBuy {
        Some(OrderKind::Buy)
    } else {
        None
    };
    match from_payload {
        Some(k) => Some(k),
        None => match prior_kind {
            Some(k) => Some(k),
            None => match from_take {
                Some(k) => Some(k),
                None => db_kind,
            },
        },
    }
}

/// The order kind shown with a trade DM.
pub fn effective_order_kind(
    payload: &Option<Payload>,
    prior_kind: Option<OrderKind>,
    action: Action,
    db_kind: Option<OrderKind>,
) -> (r: Option<OrderKind>)
    ensures
        r == dm_order_kind(*payload, prior_kind, action, db_kind),
{
    let from_payload = match payload {
        Some(Payload::Order(o)) => o.kind,
        Some(Payload::PaymentRequest(Some(o), _, _)) => o.kind,
        _ => None,
    };
    if from_payload.is_some() {
        return from_payload;
    }
    if prior_kind.is_some() {
        return prior_kind;
    }
    match action {
        Action::TakeSell => Some(OrderKind::Sell),
        Action::TakeBuy => Some(OrderKind::Buy),
        _ => db_kind,
    }
}

/// A `CantDo` DM reports a rejected request: its payload never moves the order's status.
pub fn status_candidate_for_action(action: Action, resolved: Option<OrderStatus>) -> (r: Option<
    OrderStatus,
>)
    ensures
        r == if action == Action::CantDo {
            None
        } else {
            resolved
        },
{
    if action == Action::CantDo {
        None
    } else {
        resolved
    }
}

/// A payload-less `Canceled` for a taker's take that never became active returns the
/// order to the book: the local row is dropped.
pub fn should_drop_pre_active_taker_on_cancel(action: Action, payload_is_none: bool, row: Option<
    &OrderRow,
>) -> (r: bool)
    ensures
        r == (action == Action::Canceled && payload_is_none && match row {
            Some(row) => !row.is_mine && match row_status(row) {
                Some(s) => pre_active_status(s),
                None => false,
            },
            None => false,
        }),
{
    action == Action::Canceled && payload_is_none && match row {
        Some(row) => is_pre_active_taker_take(row),
        None => false,
    }
}

/// The status a trade DM writes to the stored order: an accepted candidate that differs
/// from the baseline; when the candidate is refused, the stored status again (the DM's
/// upsert may have written the stale payload status); otherwise nothing.
pub fn status_to_persist(
    candidate: Option<OrderStatus>,
    accepted: bool,
    baseline: Option<OrderStatus>,
    stored: Option<OrderStatus>,
) -> (r: Option<OrderStatus>)
    ensures
        r == match candidate {
            Some(c) => if accepted {
                if baseline != Some(c) {
                    Some(c)
                } else {
                    None
                }
            } else {
                stored
            },
            None => None,
        },
{
    match candidate {
        Some(c) => if accepted {
            if baseline != Some(c) {
                Some(c)
            } else {
                None
            }
        } else {
            stored
        },
        None => None,
    }
}

/// Inputs of folding one trade DM into the order's Messages row.
pub struct TradeDmInput {
    pub action: Action,
    pub timestamp: i64,
    /// Sats and invoice carried by the DM.
    pub sat_amount: Option<i64>,
    pub invoice: Option<String>,
    pub order_kind: Option<OrderKind>,
    pub is_mine: Option<bool>,
    /// Status the DM proposes (none for `CantDo`).
    pub status_candidate: Option<OrderStatus>,
    /// Status of the stored order, else of the row.
    pub baseline_status: Option<OrderStatus>,
    /// The status transition rules accept the candidate.
    pub accept_candidate: bool,
    /// The update notifies the user (live DMs; not startup replay).
    pub notify: bool,
}

/// What the listener does with one trade DM.
pub struct TradeDmPlan {
    pub sat_amount: Option<i64>,
    pub invoice: Option<String>,
    pub order_status: Option<OrderStatus>,
    /// Take-sell buyer waiting to submit a payout invoice: sats come only from the row.
    pub take_sell_waiting: bool,
    pub is_new: bool,
    pub actionable: bool,
    /// Bump the pending counter and send a notification.
    pub notify_user: bool,
    /// Popup-shown flag carried over from a row with the same action.
    pub auto_popup_shown: bool,
}

pub open spec fn waiting_buyer_invoice(
    action: Action,
    is_mine: Option<bool>,
    kind: Option<OrderKind>,
    status: Option<OrderStatus>,
) -> bool {
    action == Action::AddInvoice && is_mine != Some(true) && kind == Some(OrderKind::Sell) && (
    status == Some(OrderStatus::WaitingBuyerInvoice) || status is None)
}

pub open spec fn plan_status(i: TradeDmInput) -> Option<OrderStatus> {
    if i.accept_candidate && i.status_candidate is Some {
        i.status_candidate
    } else {
        i.baseline_status
    }
}

pub open spec fn plan_sats(i: TradeDmInput, prior: Option<PriorMessage>) -> Option<i64> {
    let prior_sats = match prior {
        Some(p) => p.sat_amount,
        None => None,
    };
    if waiting_buyer_invoice(i.action, i.is_mine, i.order_kind, plan_status(i)) {
        prior_sats
    } else {
        match i.sat_amount {
            Some(a) => Some(a),
            None => prior_sats,
        }
    }
}

pub open spec fn plan_invoice(i: TradeDmInput, prior: Option<PriorMessage>) -> Option<String> {
    match i.invoice {
        Some(v) => Some(v),
        None => match prior {
            Some(p) => p.buyer_invoice,
            None => None,
        },
    }
}

pub open spec fn plan_actionable(i: TradeDmInput, prior: Option<PriorMessage>) -> bool {
    if i.action == Action::PayInvoice || i.action == Action::PayBondInvoice {
        nonempty_text(plan_invoice(i, prior))
    } else if i.action == Action::AddInvoice || i.action == Action::AddBondInvoice {
        plan_sats(i, prior) is Some
    } else {
        true
    }
}

pub open spec fn plan_is_new(i: TradeDmInput, prior: Option<PriorMessage>) -> bool {
    new_trade_message(
        i.action,
        i.timestamp,
        match prior {
            Some(p) => Some((p.timestamp, p.action)),
            None => None,
        },
    )
}

/// The plan for one trade DM, given the order's current row.
pub open spec fn trade_dm_plan_of(i: TradeDmInput, prior: Option<PriorMessage>, p: TradeDmPlan) -> bool {
    &&& p.sat_amount == plan_sats(i, prior)
    &&& p.invoice == plan_invoice(i, prior)
    &&& p.order_status == plan_status(i)
    &&& p.take_sell_waiting == waiting_buyer_invoice(i.action, i.is_mine, i.order_kind, plan_status(i))
    &&& p.is_new == plan_is_new(i, prior)
    &&& p.actionable == plan_actionable(i, prior)
    &&& p.notify_user == (i.notify && plan_is_new(i, prior) && plan_actionable(i, prior))
    &&& p.auto_popup_shown == match prior {
        Some(pr) => pr.auto_popup_shown && pr.action == i.action,
        None => false,
    }
}

fn clone_opt_text(s: &Option<String>) -> (r: Option<String>)
    ensures
        r == *s,
{
    match s {
        Some(v) => Some(v.clone()),
        None => None,
    }
}

/// Fold one trade DM: the status shown (the candidate when the transition rules accept
/// it), the sats (never the daemon's for a take-sell buyer still owing an invoice), the
/// invoice, and whether the user is notified.
pub fn plan_trade_dm(input: &TradeDmInput, prior: Option<&PriorMessage>) -> (r: TradeDmPlan)
    ensures
        trade_dm_plan_of(
            *input,
            match prior {
                Some(p) => Some(*p),
                None => None,
            },
            r,
        ),
{
    let ghost prior_v = match prior {
        Some(p) => Some(*p),
        None => None::<PriorMessage>,
    };
    let status = if input.accept_candidate && input.status_candidate.is_some() {
        input.status_candidate
    } else {
        input.baseline_status
    };
    let waiting = input.action == Action::AddInvoice && !(match input.is_mine {
        Some(b) => b,
        None => false,
    }) && (match input.order_kind {
        Some(OrderKind::Sell) => true,
        _ => false,
    }) && (match status {
        Some(OrderStatus::WaitingBuyerInvoice) | None => true,
        _ => false,
    });
    let prior_sats = match prior {
        Some(p) => p.sat_amount,
        None => None,
    };
    let sats = if waiting {
        prior_sats
    } else {
        match input.sat_amount {
            Some(a) => Some(a),
            None => prior_sats,
        }
    };
    let invoice = match &input.invoice {
        Some(v) => Some(v.clone()),
        None => match prior {
            Some(p) => clone_opt_text(&p.buyer_invoice),
            None => None,
        },
    };
    let actionable = match input.action {
        Action::PayInvoice | Action::PayBondInvoice => has_text(&invoice),
        Action::AddInvoice | Action::AddBondInvoice => sats.is_some(),
        _ => true,
    };
    let is_new = is_new_trade_message(input.action, input.timestamp, prior);
    let popup = match prior {
        Some(p) => p.auto_popup_shown && p.action == input.action,
        None => false,
    };
    TradeDmPlan {
        sat_amount: sats,
        invoice,
        order_status: status,
        take_sell_waiting: waiting,
        is_new,
        actionable,
        notify_user: input.notify && is_new && actionable,
        auto_popup_shown: popup,
    }
}

/// While a take-sell buyer still owes the payout invoice, the sats shown are never the
/// ones the DM carries: they are the row's (or none). Nothing is notified on replay.
pub proof fn trade_dm_plan_law(i: TradeDmInput, prior: Option<PriorMessage>, p: TradeDmPlan)
    requires
        trade_dm_plan_of(i, prior, p),
    ensures
        p.take_sell_waiting ==> p.sat_amount == match prior {
            Some(pr) => pr.sat_amount,
            None => None,
        },
        !i.notify ==> !p.notify_user,
        p.notify_user ==> p.is_new && p.actionable,
{
}

/// Whether the DM replaces the order's Messages row. A post-retry `AddInvoice` always
/// wins; a `NewOrder` replay never overwrites another action; otherwise a newer DM wins,
/// an equally old one wins when its action differs, and an older one only when its
/// status strictly advances the row's.
pub open spec fn replaces_row(
    action: Action,
    timestamp: i64,
    prior: Option<(i64, Action)>,
    force_post_retry_add_invoice: bool,
    strictly_advances: bool,
) -> bool {
    match prior {
        None => true,
        Some((ts, a)) => if action == Action::AddInvoice && force_post_retry_add_invoice {
            true
        } else if action == Action::NewOrder && a != Action::NewOrder {
            false
        } else if timestamp > ts {
            true
        } else if timestamp == ts {
            action != a
        } else {
            strictly_advances
        },
    }
}

/// Decide whether a trade DM replaces the order's Messages row.
pub fn should_replace_messages_row(
    action: Action,
    timestamp: i64,
    prior: Option<&PriorMessage>,
    force_post_retry_add_invoice: bool,
    strictly_advances: bool,
) -> (r: bool)
    ensures
        r == replaces_row(
            action,
            timestamp,
            match prior {
                Some(p) => Some((p.timestamp, p.action)),
                None => None,
            },
            force_post_retry_add_invoice,
            strictly_advances,
        ),
{
    match prior {
        None => true,
        Some(p) => {
            if action == Action::AddInvoice && force_post_retry_add_invoice {
                true
            } else if action == Action::NewOrder && p.action != Action::NewOrder {
                false
            } else if timestamp > p.timestamp {
                true
            } else if timestamp == p.timestamp {
                action != p.action
            } else {
                strictly_advances
            }
        },
    }
}

/// A replayed `NewOrder` never replaces a row that shows another action, and a DM never
/// replaces a row with the same action and timestamp.
pub proof fn messages_row_law(
    action: Action,
    timestamp: i64,
    ts: i64,
    a: Action,
    force: bool,
    advances: bool,
)
    ensures
        (action == Action::NewOrder && a != Action::NewOrder) ==> !replaces_row(
            action,
            timestamp,
            Some((ts, a)),
            force,
            advances,
        ),
        (action == a && timestamp == ts) ==> (replaces_row(action, timestamp, Some((ts, a)), force, advances)
            == (action == Action::AddInvoice && force)),
{
}

/// One decoded DM of a batch, as the batch loop reads it.
pub struct BatchDm {
    pub action: Action,
    pub payload: Option<Payload>,
}

/// What the batch loop does after handling a DM.
#[derive(Debug, Clone, Copy, PartialEq, Eq, Structural)]
pub struct BatchStep {
    /// Drop the peer chat subscription of the order.
    pub untrack_chat: bool,
    /// The trade ended: forget the order's live route.
    pub terminal: bool,
}

pub open spec fn dm_terminal(d: BatchDm) -> bool {
    cancel_action(d.action) || match payload_order_status(
        match d.payload {
            Some(p) => Some(&p),
            None => None,
        },
    ) {
        Some(s) => terminal_status(s),
        None => false,
    }
}

pub open spec fn dm_untracks(d: BatchDm) -> bool {
    cancel_action(d.action) || match payload_order_status(
        match d.payload {
            Some(p) => Some(&p),
            None => None,
        },
    ) {
        Some(s) => untracks_chat_status(s),
        None => false,
    }
}

/// Steps for a batch of DMs of one order. On the listener's own subscription the batch stops right
/// after the first DM that ends the trade; otherwise every DM is handled.
pub fn plan_giftwrap_batch(batch: &Vec<BatchDm>, on_subscription: bool) -> (r: Vec<BatchStep>)
    ensures
        r.len() <= batch.len(),
        forall|k: int|
            0 <= k < r.len() ==> r@[k] == (BatchStep {
                untrack_chat: dm_untracks(#[trigger] batch@[k]),
                terminal: dm_terminal(batch@[k]),
            }),
        on_subscription ==> forall|k: int| 0 <= k < r.len() - 1 ==> !dm_terminal(#[trigger] batch@[k]),
        r.len() < batch.len() ==> (on_subscription && r.len() > 0 && dm_terminal(batch@[r.len() - 1])),
{
    let mut steps: Vec<BatchStep> = Vec::new();
    let mut i: usize = 0;
    while i < batch.len()
        invariant
            i <= batch.len(),
            steps.len() == i,
            forall|k: int|
                0 <= k < i ==> steps@[k] == (BatchStep {
                    untrack_chat: dm_untracks(#[trigger] batch@[k]),
                    terminal: dm_terminal(batch@[k]),
                }),
            on_subscription ==> forall|k: int| 0 <= k < i ==> !dm_terminal(#[trigger] batch@[k]),
        decreases batch.len() - i,
    {
        let d = &batch[i];
        let payload_ref = match &d.payload {
            Some(p) => Some(p),
            None => None,
        };
        let terminal = trade_message_is_terminal(d.action, payload_ref);
        let untrack = trade_message_should_untrack_order_chat(d.action, payload_ref);
        steps.push(BatchStep { untrack_chat: untrack, terminal });
        i = i + 1;
        if on_subscription && terminal {
            return steps;
        }
    }
    steps
}

/// Outcome of replaying the trade DMs of one active order at startup.
#[derive(Debug, Clone, Copy, PartialEq, Eq, Structural)]
pub enum ReplayTradeDmOutcome {
    Hydrated,
    SkippedNoKeys,
    FetchFailed,
    EmptyFetch,
    ParseFailed,
}

/// Counts of a startup replay.
#[derive(Debug, Clone, Copy, PartialEq, Eq, Structural)]
pub struct TradeDmReplaySummary {
    pub attempted: usize,
    pub hydrated: usize,
    pub fetch_failed: usize,
    pub empty: usize,
    pub parse_failed: usize,
    pub skipped_no_keys: usize,
}

pub open spec fn summary_total(s: TradeDmReplaySummary) -> int {
    s.hydrated + s.fetch_failed + s.empty + s.parse_failed + s.skipped_no_keys
}

impl TradeDmReplaySummary {
    /// All counts zero.
    pub fn new() -> (r: TradeDmReplaySummary)
        ensures
            r.attempted == 0,
            summary_total(r) == 0,
            r.hydrated == 0 && r.fetch_failed == 0 && r.empty == 0 && r.parse_failed == 0
                && r.skipped_no_keys == 0,
    {
        TradeDmReplaySummary {
            attempted: 0,
            hydrated: 0,
            fetch_failed: 0,
            empty: 0,
            parse_failed: 0,
            skipped_no_keys: 0,
        }
    }

    /// Count one outcome.
    pub fn record(&mut self, outcome: ReplayTradeDmOutcome)
        requires
            old(self).attempted < usize::MAX,
            summary_total(*old(self)) <= old(self).attempted,
        ensures
            final(self).attempted == old(self).attempted + 1,
            summary_total(*final(self)) == summary_total(*old(self)) + 1,
            final(self).hydrated == old(self).hydrated + if outcome == ReplayTradeDmOutcome::Hydrated {
                1int
            } else {
                0int
            },
            final(self).skipped_no_keys == old(self).skipped_no_keys + if outcome
                == ReplayTradeDmOutcome::SkippedNoKeys {
                1int
            } else {
                0int
            },
            final(self).fetch_failed == old(self).fetch_failed + if outcome
                == ReplayTradeDmOutcome::FetchFailed {
                1int
            } else {
                0int
            },
            final(self).empty == old(self).empty + if outcome == ReplayTradeDmOutcome::EmptyFetch {
                1int
            } else {
                0int
            },
            final(self).parse_failed == old(self).parse_failed + if outcome
                == ReplayTradeDmOutcome::ParseFailed {
                1int
            } else {
                0int
            },
    {
        self.attempted = self.attempted + 1;
        match outcome {
            ReplayTradeDmOutcome::Hydrated => self.hydrated = self.hydrated + 1,
            ReplayTradeDmOutcome::SkippedNoKeys => self.skipped_no_keys = self.skipped_no_keys + 1,
            ReplayTradeDmOutcome::FetchFailed => self.fetch_failed = self.fetch_failed + 1,
            ReplayTradeDmOutcome::EmptyFetch => self.empty = self.empty + 1,
            ReplayTradeDmOutcome::ParseFailed => self.parse_failed = self.parse_failed + 1,
        }
    }
}

/// Window of the startup replay (twelve hours).
pub const STARTUP_TRADE_DM_LOOKBACK_SECS: u64 = 43_200;

/// Slack between a gift wrap's envelope time and its rumor time (three days).
pub const STARTUP_GIFTWRAP_ENVELOPE_SKEW_SECS: u64 = 259_200;

/// `since` of the replay fetch: none without a (non-negative) last-seen rumor time;
/// otherwise the earlier of that time and the lookback start, widened by the envelope skew.
pub fn replay_since(last_seen_dm_ts: Option<i64>, lookback_start: u64) -> (r: Option<u64>)
    ensures
        r == match last_seen_dm_ts {
            Some(ts) => if ts >= 0 {
                let m = if (ts as int) <= (lookback_start as int) { ts as int } else { lookback_start as int };
                Some(
                    (if m >= STARTUP_GIFTWRAP_ENVELOPE_SKEW_SECS { m - STARTUP_GIFTWRAP_ENVELOPE_SKEW_SECS } else { 0 }) as u64,
                )
            } else {
                None
            },
            None => None,
        },
{
    match last_seen_dm_ts {
        Some(ts) => {
            if ts < 0 {
                return None;
            }
            let last = ts as u64;
            let m = if last <= lookback_start {
                last
            } else {
                lookback_start
            };
            Some(
                if m >= STARTUP_GIFTWRAP_ENVELOPE_SKEW_SECS {
                    m - STARTUP_GIFTWRAP_ENVELOPE_SKEW_SECS
                } else {
                    0
                },
            )
        },
        None => None,
    }
}

/// Lexicographic order of byte strings (a proper prefix is smaller).
pub open spec fn bytes_gt(a: Seq<u8>, b: Seq<u8>) -> bool
    decreases a.len(),
{
    if a.len() == 0 {
        false
    } else if b.len() == 0 {
        true
    } else if a[0] != b[0] {
        a[0] > b[0]
    } else {
        bytes_gt(a.drop_first(), b.drop_first())
    }
}

fn bytes_greater(a: &Vec<u8>, b: &Vec<u8>) -> (r: bool)
    ensures
        r == bytes_gt(a@, b@),
{
    let mut i: usize = 0;
    proof {
        assert(a@.subrange(0, a.len() as int) =~= a@);
        assert(b@.subrange(0, b.len() as int) =~= b@);
    }
    while i < a.len() && i < b.len()
        invariant
            i <= a.len(),
            i <= b.len(),
            a@.subrange(0, i as int) == b@.subrange(0, i as int),
            bytes_gt(a@, b@) == bytes_gt(a@.subrange(i as int, a.len() as int), b@.subrange(i as int, b.len() as int)),
        decreases a.len() - i,
    {
        if a[i] != b[i] {
            proof {
                let sa = a@.subrange(i as int, a.len() as int);
                let sb = b@.subrange(i as int, b.len() as int);
                assert(sa[0] == a@[i as int]);
                assert(sb[0] == b@[i as int]);
            }
            return a[i] > b[i];
        }
        proof {
            let sa = a@.subrange(i as int, a.len() as int);
            let sb = b@.subrange(i as int, b.len() as int);
            assert(sa.drop_first() =~= a@.subrange(i + 1, a.len() as int));
            assert(sb.drop_first() =~= b@.subrange(i + 1, b.len() as int));
            assert(a@.subrange(0, i + 1) =~= b@.subrange(0, i + 1));
        }
        i = i + 1;
    }
    i < a.len()
}

/// A decoded DM offered to the startup replay: its rumor time and its event id bytes.
pub struct RumorCandidate {
    pub rumor_ts: i64,
    pub event_id: Vec<u8>,
}

pub open spec fn fresher(a: RumorCandidate, b: RumorCandidate) -> bool {
    a.rumor_ts > b.rumor_ts || (a.rumor_ts == b.rumor_ts && bytes_gt(a.event_id@, b.event_id@))
}

/// Index of the DM the replay hydrates: the newest rumor, ties broken by the greater
/// event id; no other candidate is fresher. `None` when nothing decoded.
pub fn select_freshest_rumor(c: &Vec<RumorCandidate>) -> (r: Option<usize>)
    ensures
        match r {
            None => c.len() == 0,
            Some(k) => k < c.len() && forall|j: int|
                #![trigger c@[j]]
                0 <= j < c.len() && j != k ==> !fresher(c@[j], c@[k as int]),
        },
{
    if c.len() == 0 {
        return None;
    }
    let mut best: usize = 0;
    let mut i: usize = 1;
    while i < c.len()
        invariant
            0 <= best < i <= c.len(),
            forall|j: int| #![trigger c@[j]] 0 <= j < i && j != best ==> !fresher(c@[j], c@[best as int]),
        decreases c.len() - i,
    {
        let take = c[i].rumor_ts > c[best].rumor_ts || (c[i].rumor_ts == c[best].rumor_ts
            && bytes_greater(&c[i].event_id, &c[best].event_id));
        if take {
            proof {
                assert forall|j: int| #![trigger c@[j]] 0 <= j < i + 1 && j != i implies !fresher(
                    c@[j],
                    c@[i as int],
                ) by {
                    if j == best {
                        lemma_bytes_gt_asym(c@[i as int].event_id@, c@[best as int].event_id@);
                    } else {
                        lemma_fresher_trans_neg(c@[j], c@[best as int], c@[i as int]);
                    }
                }
            }
            best = i;
        }
        i = i + 1;
    }
    Some(best)
}

proof fn lemma_bytes_gt_asym(a: Seq<u8>, b: Seq<u8>)
    ensures
        !(bytes_gt(a, b) && bytes_gt(b, a)),
    decreases a.len(),
{
    if a.len() > 0 && b.len() > 0 && a[0] == b[0] {
        lemma_bytes_gt_asym(a.drop_first(), b.drop_first());
    }
}

proof fn lemma_bytes_gt_trans(a: Seq<u8>, b: Seq<u8>, c: Seq<u8>)
    requires
        bytes_gt(a, b),
        bytes_gt(b, c),
    ensures
        bytes_gt(a, c),
    decreases a.len(),
{
    if a.len() > 0 && b.len() > 0 && c.len() > 0 && a[0] == b[0] && b[0] == c[0] {
        lemma_bytes_gt_trans(a.drop_first(), b.drop_first(), c.drop_first());
    }
}

/// If `x` is not fresher than `y` and `z` is fresher than `y`, then `x` is not fresher than `z`.
proof fn lemma_fresher_trans_neg(x: RumorCandidate, y: RumorCandidate, z: RumorCandidate)
    requires
        !fresher(x, y),
        fresher(z, y),
    ensures
        !fresher(x, z),
{
    if fresher(x, z) {
        if x.rumor_ts == z.rumor_ts && z.rumor_ts == y.rumor_ts {
            lemma_bytes_gt_trans(x.event_id@, z.event_id@, y.event_id@);
        }
    }
}


/// Days until an outbound v2 protocol DM expires (NIP-40).
pub const DEFAULT_DM_EXPIRATION_DAYS: u64 = 30;

/// Expiration of an outbound protocol DM sent at `now_secs`: thirty days later,
/// saturating.
pub fn default_dm_expiration_at(now_secs: u64) -> (r: u64)
    ensures
        r == if now_secs + DEFAULT_DM_EXPIRATION_DAYS * 86_400 > u64::MAX {
            u64::MAX
        } else {
            (now_secs + DEFAULT_DM_EXPIRATION_DAYS * 86_400) as u64
        },
{
    now_secs.saturating_add(DEFAULT_DM_EXPIRATION_DAYS * 86_400)
}

/// Expiration of an outbound protocol DM sent now, by the wall clock.
pub fn default_dm_expiration() -> (r: u64)
    ensures
        exists|now: u64| r == #[trigger] expiration_after(now),
{
    let now = crate::clock::unix_now_secs();
    let r = default_dm_expiration_at(now);
    assert(r == expiration_after(now));
    r
}

/// Thirty days after `now_secs`, saturating.
pub open spec fn expiration_after(now_secs: u64) -> u64 {
    if now_secs + DEFAULT_DM_EXPIRATION_DAYS * 86_400 > u64::MAX {
        u64::MAX
    } else {
        (now_secs + DEFAULT_DM_EXPIRATION_DAYS * 86_400) as u64
    }
}

/// How a replayed trade DM reaches the listener.
#[derive(Debug, Clone, Copy, PartialEq, Eq, Structural)]
pub enum TradeDmReplayDispatchMode {
    /// Through the order's own subscription.
    TrackedSubscription,
    /// Through the untracked fallback path.
    UntrackedFallback,
}

/// Subscription id recorded for a trade key (the first entry for it).
pub open spec fn subscription_of(m: Seq<(Vec<u8>, String)>, pk: Seq<u8>) -> Option<Seq<char>>
    decreases m.len(),
{
    if m.len() == 0 {
        None
    } else if m[0].0@ == pk {
        Some(m[0].1@)
    } else {
        subscription_of(m.drop_first(), pk)
    }
}

/// Whether `id` is among the subscription ids bound to an order.
pub open spec fn ids_include(ids: Seq<String>, id: Seq<char>) -> bool {
    exists|i: int| 0 <= i < ids.len() && (#[trigger] ids[i])@ == id
}

/// A replay goes through the order's subscription only when the trade key has a
/// subscription id and that id is bound to an order.
pub fn trade_dm_replay_dispatch_mode(
    pubkey: &Vec<u8>,
    pubkey_to_subscription: &Vec<(Vec<u8>, String)>,
    subscriptions_with_order: &Vec<String>,
) -> (r: TradeDmReplayDispatchMode)
    ensures
        r == match subscription_of(pubkey_to_subscription@, pubkey@) {
            Some(id) => if ids_include(subscriptions_with_order@, id) {
                TradeDmReplayDispatchMode::TrackedSubscription
            } else {
                TradeDmReplayDispatchMode::UntrackedFallback
            },
            None => TradeDmReplayDispatchMode::UntrackedFallback,
        },
{
    let ghost m = pubkey_to_subscription@;
    let mut i: usize = 0;
    proof {
        assert(m.subrange(0, m.len() as int) =~= m);
    }
    while i < pubkey_to_subscription.len()
        invariant
            i <= m.len(),
            m == pubkey_to_subscription@,
            subscription_of(m, pubkey@) == subscription_of(m.subrange(i as int, m.len() as int), pubkey@),
        decreases m.len() - i,
    {
        let ghost rest = m.subrange(i as int, m.len() as int);
        assert(rest[0] == m[i as int]);
        assert(rest.drop_first() =~= m.subrange(i + 1, m.len() as int));
        if crate::restore::bytes_equal(&pubkey_to_subscription[i].0, pubkey) {
            let id = &pubkey_to_subscription[i].1;
            assert(subscription_of(m, pubkey@) == Some(id@));
            let mut j: usize = 0;
            while j < subscriptions_with_order.len()
                invariant
                    j <= subscriptions_with_order.len(),
                    subscription_of(m, pubkey@) == Some(id@),
                    m == pubkey_to_subscription@,
                    forall|k: int| 0 <= k < j ==> (#[trigger] subscriptions_with_order@[k])@ != id@,
                decreases subscriptions_with_order.len() - j,
            {
                if crate::text::chars_eq(
                    &crate::text::chars_of(subscriptions_with_order[j].as_str()),
                    &crate::text::chars_of(id.as_str()),
                ) {
                    assert(subscriptions_with_order@[j as int]@ == id@);
                    return TradeDmReplayDispatchMode::TrackedSubscription;
                }
                j = j + 1;
            }
            return TradeDmReplayDispatchMode::UntrackedFallback;
        }
        i = i + 1;
    }
    TradeDmReplayDispatchMode::UntrackedFallback
}


/// What a trade-DM `NewOrder` carrying a pending order does, by the order's local row.
pub enum NewOrderDmStep {
    /// Not a pending `NewOrder` listing, or a row that is no pre-active case: handled by
    /// the generic path.
    NotHandled,
    /// A taker's take ended before `Active`: drop the row and the Messages entry.
    DropPreActiveTake,
    /// A maker's listing is back on the book: revert it to `pending`.
    RevertMakerToPending,
    /// A range child listing with no local row yet: store this order.
    PersistRangeChild(SmallOrder),
}

/// Decide a trade-DM `NewOrder`: only a pending order payload is handled; with a local
/// row, a pre-active take is dropped and a pre-active listing reverted (other rows are
/// not handled); without one, the order is a new range child listing.
pub fn new_order_trade_dm_step(payload: Option<&Payload>, row: Option<&OrderRow>) -> (r: NewOrderDmStep)
    ensures
        match payload {
            Some(Payload::Order(o)) if o.status == Some(OrderStatus::Pending) => match row {
                Some(rw) => if !rw.is_mine && match row_status(rw) {
                    Some(s) => pre_active_status(s),
                    None => false,
                } {
                    r is DropPreActiveTake
                } else if rw.is_mine && match row_status(rw) {
                    Some(s) => pre_active_status(s),
                    None => false,
                } {
                    r is RevertMakerToPending
                } else {
                    r is NotHandled
                },
                None => r == NewOrderDmStep::PersistRangeChild(*o),
            },
            _ => r is NotHandled,
        },
{
    let order = match crate::order::small_order_pending_from_new_order_payload(payload) {
        Some(o) => o,
        None => return NewOrderDmStep::NotHandled,
    };
    match row {
        Some(rw) => {
            if is_pre_active_taker_take(rw) {
                NewOrderDmStep::DropPreActiveTake
            } else if crate::order::is_pre_active_maker_listing(rw) {
                NewOrderDmStep::RevertMakerToPending
            } else {
                NewOrderDmStep::NotHandled
            }
        },
        None => NewOrderDmStep::PersistRangeChild(order),
    }
}

/// What a trade DM records about its order's dispute.
pub enum DisputeDmEffect {
    /// Nothing dispute-related.
    NoEffect,
    /// A dispute was opened: store its id on the order.
    StoreDisputeId(u128),
    /// A solver took the dispute: store the solver's key and the chat's shared key, and
    /// follow the dispute chat.
    SolverChat { solver_pubkey: String, shared_key_hex: String },
}

/// A dispute-opened DM carries the dispute id; an `AdminTookDispute` DM carries the
/// solver's key, from which the dispute chat's shared key is derived with the trade key
/// (nothing is recorded when the key does not parse or the derivation fails).
pub open spec fn dispute_effect_of(
    action: Action,
    payload: Option<Payload>,
    trade_secret: Seq<char>,
    e: DisputeDmEffect,
) -> bool {
    if action == Action::DisputeInitiatedByYou || action == Action::DisputeInitiatedByPeer {
        match payload {
            Some(Payload::Dispute(id, _)) => e == DisputeDmEffect::StoreDisputeId(id),
            _ => e is NoEffect,
        }
    } else if action == Action::AdminTookDispute {
        match payload {
            Some(Payload::Peer(p)) => match shared_hex_spec(Some(trade_secret), Some(p@)) {
                Some(h) => e matches DisputeDmEffect::SolverChat { solver_pubkey, shared_key_hex }
                    && solver_pubkey@ == p@ && shared_key_hex@ == h,
                None => e is NoEffect,
            },
            _ => e is NoEffect,
        }
    } else {
        e is NoEffect
    }
}

/// The dispute record a trade DM leads to, with the trade key given as secret-key text.
pub fn dispute_dm_effect(action: Action, payload: &Option<Payload>, trade_secret: &str) -> (r: DisputeDmEffect)
    ensures
        dispute_effect_of(action, *payload, trade_secret@, r),
{
    match action {
        Action::DisputeInitiatedByYou | Action::DisputeInitiatedByPeer => match payload {
            Some(Payload::Dispute(id, _)) => DisputeDmEffect::StoreDisputeId(*id),
            _ => DisputeDmEffect::NoEffect,
        },
        Action::AdminTookDispute => match payload {
            Some(Payload::Peer(p)) => match derive_shared_key_hex(Some(trade_secret), Some(p.as_str())) {
                Some(h) => DisputeDmEffect::SolverChat { solver_pubkey: p.clone(), shared_key_hex: h },
                None => DisputeDmEffect::NoEffect,
            },
            _ => DisputeDmEffect::NoEffect,
        },
        _ => DisputeDmEffect::NoEffect,
    }
}


/// The sats a payment request shows: its explicit amount whenever it carries one (a bond
/// request carries no order, only the amount), the amount of its order only when it has
/// no explicit amount; always with its invoice. An `AddInvoice` or bond payout request
/// shows its order's amount and no invoice.
pub proof fn dm_sats_law(action: Action, payload: Option<Payload>)
    ensures
        (action == Action::PayInvoice || action == Action::PayBondInvoice) ==> match payload {
            Some(Payload::PaymentRequest(opt, inv, amt)) => {
                &&& dm_sats_and_invoice(action, payload).1 == Some(inv)
                &&& match amt {
                    Some(a) => dm_sats_and_invoice(action, payload).0 == Some(a),
                    None => match opt {
                        Some(o) => dm_sats_and_invoice(action, payload).0 == Some(o.amount),
                        None => dm_sats_and_invoice(action, payload).0 is None,
                    },
                }
            },
            _ => dm_sats_and_invoice(action, payload) == (None::<i64>, None::<String>),
        },
        action == Action::AddInvoice ==> match payload {
            Some(Payload::Order(o)) => dm_sats_and_invoice(action, payload) == (Some(o.amount), None::<String>),
            _ => true,
        },
        action == Action::AddBondInvoice ==> match payload {
            Some(Payload::BondPayoutRequest(o, _)) => dm_sats_and_invoice(action, payload) == (
                Some(o.amount),
                None::<String>,
            ),
            _ => true,
        },
        dm_sats_and_invoice(action, payload).1 is Some ==> (action == Action::PayInvoice || action
            == Action::PayBondInvoice),
{
}

} // verus!
