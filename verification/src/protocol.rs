//! Mostro replies to the client's requests: correlation by request id, `CantDo`
//! handling, and what each request flow (take order, payout invoices, trade-index sync,
//! order details) makes of the reply.
use vstd::prelude::*;
use crate::add_invoice::{saturating_sub_i64, expected_buyer_invoice_sats};
use crate::order::{
    action_name, action_name_str, cant_do_text, get_cant_do_description, Action, CantDoReason,
    OrderKind, OrderStatus, Payload, SmallOrder,
};
use crate::text::{
    append_chars, append_str, chars_eq, chars_eq_str, chars_of, decimal, i64_decimal, signed_decimal,
    string_of, u64_decimal,
};

verus! {

/// The inner message of a Mostro protocol DM, as far as the client reads it.
pub struct MessageKind {
    /// Order id as the 128-bit value of its UUID.
    pub id: Option<u128>,
    pub request_id: Option<u64>,
    pub trade_index: Option<i64>,
    pub action: Action,
    pub payload: Option<Payload>,
}

/// Why a reply was not accepted as the answer to a request.
#[derive(Debug, Clone, Copy, PartialEq, Eq, Structural)]
pub enum ResponseError {
    /// Mostro refused the request.
    CantDo(Option<CantDoReason>),
    MismatchedRequestId,
    NullRequestId,
}

/// Actions Mostro may send without echoing the request id.
pub open spec fn may_omit_request_id(a: Action) -> bool {
    a == Action::RateReceived || a == Action::NewOrder || a == Action::AddInvoice || a
        == Action::PayInvoice
}

/// Outcome of checking a reply against the request it answers.
pub open spec fn response_check(msg: MessageKind, expected_request_id: u64) -> Result<(), ResponseError> {
    match msg.payload {
        Some(Payload::CantDo(reason)) => Err(ResponseError::CantDo(reason)),
        _ => match msg.request_id {
            Some(id) => if id != expected_request_id {
                Err(ResponseError::MismatchedRequestId)
            } else {
                Ok(())
            },
            None => if may_omit_request_id(msg.action) {
                Ok(())
            } else {
                Err(ResponseError::NullRequestId)
            },
        },
    }
}

pub open spec fn response_error_text(e: ResponseError) -> Seq<char> {
    match e {
        ResponseError::CantDo(Some(r)) => cant_do_text(r),
        ResponseError::CantDo(None) => "Unknown error - Mostro couldn't process your request"@,
        ResponseError::MismatchedRequestId => "Mismatched request_id"@,
        ResponseError::NullRequestId => "Response with null request_id"@,
    }
}

impl ResponseError {
    /// The error text.
    pub fn message(&self) -> (r: String)
        ensures
            r@ == response_error_text(*self),
    {
        match self {
            ResponseError::CantDo(Some(r)) => get_cant_do_description(r),
            ResponseError::CantDo(None) => string_of(
                &chars_of("Unknown error - Mostro couldn't process your request"),
            ),
            ResponseError::MismatchedRequestId => string_of(&chars_of("Mismatched request_id")),
            ResponseError::NullRequestId => string_of(&chars_of("Response with null request_id")),
        }
    }
}

/// Check a reply: a `CantDo` payload is an error; an echoed request id must match; a
/// missing one is tolerated only for the actions Mostro sends without it.
pub fn handle_mostro_response(msg: &MessageKind, expected_request_id: u64) -> (r: Result<
    &MessageKind,
    ResponseError,
>)
    ensures
        match response_check(*msg, expected_request_id) {
            Ok(()) => r == Ok::<&MessageKind, ResponseError>(msg),
            Err(e) => r == Err::<&MessageKind, ResponseError>(e),
        },
{
    match &msg.payload {
        Some(Payload::CantDo(reason)) => {
            return Err(ResponseError::CantDo(*reason));
        },
        _ => {},
    }
    match msg.request_id {
        Some(id) => {
            if id != expected_request_id {
                return Err(ResponseError::MismatchedRequestId);
            }
        },
        None => {
            match msg.action {
                Action::RateReceived | Action::NewOrder | Action::AddInvoice
                | Action::PayInvoice => {},
                _ => {
                    return Err(ResponseError::NullRequestId);
                },
            }
        },
    }
    Ok(msg)
}

/// A reply that passes the check is no `CantDo`, and when it echoes a request id, it is
/// the id of the request.
pub proof fn response_check_law(msg: MessageKind, expected_request_id: u64)
    ensures
        response_check(msg, expected_request_id) is Ok ==> {
            &&& !(msg.payload matches Some(Payload::CantDo(_)))
            &&& (msg.request_id is Some ==> msg.request_id == Some(expected_request_id))
            &&& (msg.request_id is None ==> may_omit_request_id(msg.action))
        },
{
}

// ---------------------------------------------------------------------------------------
// Taking an order
// ---------------------------------------------------------------------------------------

/// Why taking an order failed on the client side.
#[derive(Debug, Clone, Copy, PartialEq, Eq, Structural)]
pub enum TakeError {
    OrderKindMissing,
    FeeRequiredForFixedTakeSell,
    InvalidTakeAction,
    OrderIdMissing,
    AddInvoiceWithoutOrder,
    PaymentActionWithoutRequest(Action),
    UnexpectedTakeAction(Action),
    BondFeeRequired,
}

pub open spec fn take_error_text(e: TakeError) -> Seq<char> {
    match e {
        TakeError::OrderKindMissing => "Order kind is not specified"@,
        TakeError::FeeRequiredForFixedTakeSell =>
            "Cannot take fixed-price sell without Mostro fee from instance info"@,
        TakeError::InvalidTakeAction => "Invalid action for take order"@,
        TakeError::OrderIdMissing => "Order ID is missing"@,
        TakeError::AddInvoiceWithoutOrder =>
            "Mostro replied with AddInvoice but no Order payload was provided"@,
        TakeError::PaymentActionWithoutRequest(a) => "Mostro replied with "@ + action_name(a)
            + " but no PaymentRequest payload was provided"@,
        TakeError::UnexpectedTakeAction(a) => "Unexpected take-order action: "@ + action_name(a),
        TakeError::BondFeeRequired =>
            "Cannot process fixed-price take-sell bond without Mostro fee from instance info"@,
    }
}

impl TakeError {
    /// The error text.
    pub fn message(&self) -> (r: String)
        ensures
            r@ == take_error_text(*self),
    {
        let mut out: Vec<char> = Vec::new();
        match self {
            TakeError::OrderKindMissing => append_str(&mut out, "Order kind is not specified"),
            TakeError::FeeRequiredForFixedTakeSell => append_str(
                &mut out,
                "Cannot take fixed-price sell without Mostro fee from instance info",
            ),
            TakeError::InvalidTakeAction => append_str(&mut out, "Invalid action for take order"),
            TakeError::OrderIdMissing => append_str(&mut out, "Order ID is missing"),
            TakeError::AddInvoiceWithoutOrder => append_str(
                &mut out,
                "Mostro replied with AddInvoice but no Order payload was provided",
            ),
            TakeError::PaymentActionWithoutRequest(a) => {
                append_str(&mut out, "Mostro replied with ");
                append_str(&mut out, action_name_str(*a));
                append_str(&mut out, " but no PaymentRequest payload was provided");
            },
            TakeError::UnexpectedTakeAction(a) => {
                append_str(&mut out, "Unexpected take-order action: ");
                append_str(&mut out, action_name_str(*a));
            },
            TakeError::BondFeeRequired => append_str(
                &mut out,
                "Cannot process fixed-price take-sell bond without Mostro fee from instance info",
            ),
        }
        string_of(&out)
    }
}

/// Taking a buy order sells sats (`TakeBuy`); taking a sell order buys them (`TakeSell`).
pub fn take_action_for_kind(kind: Option<OrderKind>) -> (r: Result<Action, TakeError>)
    ensures
        r == match kind {
            Some(OrderKind::Buy) => Ok::<Action, TakeError>(Action::TakeBuy),
            Some(OrderKind::Sell) => Ok(Action::TakeSell),
            None => Err(TakeError::OrderKindMissing),
        },
{
    match kind {
        Some(OrderKind::Buy) => Ok(Action::TakeBuy),
        Some(OrderKind::Sell) => Ok(Action::TakeSell),
        None => Err(TakeError::OrderKindMissing),
    }
}

/// A fixed-price take-sell needs the Mostro fee before anything is reserved or sent.
pub fn ensure_fee_for_fixed_take_sell(action: Action, order: &SmallOrder, fee_known: bool) -> (r:
    Result<(), TakeError>)
    ensures
        r == if action == Action::TakeSell && order.amount > 0 && !fee_known {
            Err::<(), TakeError>(TakeError::FeeRequiredForFixedTakeSell)
        } else {
            Ok(())
        },
{
    if action == Action::TakeSell && order.amount > 0 && !fee_known {
        return Err(TakeError::FeeRequiredForFixedTakeSell);
    }
    Ok(())
}

/// Payload of a take request: an optional amount for `TakeBuy`; for `TakeSell` a payment
/// request when the buyer supplies an invoice (with the range amount, if any), else the
/// amount (`0` when none).
pub open spec fn take_payload(action: Action, invoice: Option<String>, amount: Option<i64>) -> Result<
    Option<Payload>,
    TakeError,
> {
    if action == Action::TakeBuy {
        Ok(
            match amount {
                Some(a) => Some(Payload::Amount(a)),
                None => None,
            },
        )
    } else if action == Action::TakeSell {
        Ok(
            Some(
                match invoice {
                    Some(inv) => Payload::PaymentRequest(None, inv, amount),
                    None => Payload::Amount(
                        match amount {
                            Some(a) => a,
                            None => 0,
                        },
                    ),
                },
            ),
        )
    } else {
        Err(TakeError::InvalidTakeAction)
    }
}

/// Build the payload of a take request.
pub fn create_take_order_payload(action: Action, invoice: &Option<String>, amount: Option<i64>) -> (r:
    Result<Option<Payload>, TakeError>)
    ensures
        r == take_payload(action, *invoice, amount),
{
    match action {
        Action::TakeBuy => Ok(
            match amount {
                Some(a) => Some(Payload::Amount(a)),
                None => None,
            },
        ),
        Action::TakeSell => Ok(
            Some(
                match invoice {
                    Some(inv) => Payload::PaymentRequest(None, inv.clone(), amount),
                    None => Payload::Amount(
                        match amount {
                            Some(a) => a,
                            None => 0,
                        },
                    ),
                },
            ),
        ),
        _ => Err(TakeError::InvalidTakeAction),
    }
}

/// A take reply is correlated only when it echoes the request id.
pub fn take_reply_correlated(msg: &MessageKind, request_id: u64) -> (r: Result<(), ResponseError>)
    ensures
        r == match response_check(*msg, request_id) {
            Err(e) => Err(e),
            Ok(()) => match msg.request_id {
                Some(id) => if id == request_id {
                    Ok(())
                } else {
                    Err(ResponseError::MismatchedRequestId)
                },
                None => Err(ResponseError::NullRequestId),
            },
        },
{
    match handle_mostro_response(msg, request_id) {
        Err(e) => Err(e),
        Ok(inner) => match inner.request_id {
            Some(id) => if id == request_id {
                Ok(())
            } else {
                Err(ResponseError::MismatchedRequestId)
            },
            None => Err(ResponseError::NullRequestId),
        },
    }
}

/// What a take reply asks the user to do next.
pub enum MappedTakeReply {
    /// Take-sell without invoice: submit a payout invoice for this order.
    AddInvoice(SmallOrder),
    /// Pay a hold invoice (trade escrow or bond).
    PaymentRequest { action: Action, order: Option<SmallOrder>, invoice: String, amount: Option<i64> },
}

pub open spec fn take_reply_map(action: Action, payload: Option<Payload>) -> Result<MappedTakeReply, TakeError> {
    if action == Action::AddInvoice {
        match payload {
            Some(Payload::Order(o)) => Ok(MappedTakeReply::AddInvoice(o)),
            _ => Err(TakeError::AddInvoiceWithoutOrder),
        }
    } else if action == Action::PayInvoice || action == Action::PayBondInvoice {
        match payload {
            Some(Payload::PaymentRequest(order, invoice, amount)) => Ok(
                MappedTakeReply::PaymentRequest { action, order, invoice, amount },
            ),
            _ => Err(TakeError::PaymentActionWithoutRequest(action)),
        }
    } else {
        Err(TakeError::UnexpectedTakeAction(action))
    }
}

fn clone_opt_order(o: &Option<SmallOrder>) -> (r: Option<SmallOrder>)
    ensures
        r == *o,
{
    match o {
        Some(v) => Some(v.duplicate()),
        None => None,
    }
}

/// Dispatch a take reply by its action: `AddInvoice` must carry the order; the pay
/// actions must carry a payment request; anything else is refused.
pub fn map_take_reply(action: Action, payload: &Option<Payload>) -> (r: Result<MappedTakeReply, TakeError>)
    ensures
        r == take_reply_map(action, *payload),
{
    match action {
        Action::AddInvoice => match payload {
            Some(Payload::Order(o)) => Ok(MappedTakeReply::AddInvoice(o.duplicate())),
            _ => Err(TakeError::AddInvoiceWithoutOrder),
        },
        Action::PayInvoice | Action::PayBondInvoice => match payload {
            Some(Payload::PaymentRequest(order, invoice, amount)) => Ok(
                MappedTakeReply::PaymentRequest {
                    action,
                    order: clone_opt_order(order),
                    invoice: invoice.clone(),
                    amount: *amount,
                },
            ),
            _ => Err(TakeError::PaymentActionWithoutRequest(action)),
        },
        _ => Err(TakeError::UnexpectedTakeAction(action)),
    }
}

/// The returned order, with the requested order id when Mostro left it out.
pub fn normalize_taken_order(order: SmallOrder, fallback_order_id: u128) -> (r: SmallOrder)
    ensures
        r == (SmallOrder {
            id: match order.id {
                Some(id) => Some(id),
                None => Some(fallback_order_id),
            },
            ..order
        }),
{
    let mut order = order;
    if order.id.is_none() {
        order.id = Some(fallback_order_id);
    }
    order
}

/// Trade amount stored with a payment-request take reply: for a take-sell bond the
/// buyer's net (book minus split fee; the fee is required on fixed-price books, `0` on
/// market-price ones); for other bonds the book amount (or `0`); nothing otherwise.
pub open spec fn take_trade_amount(
    take_action: Action,
    reply_action: Action,
    requested_amount: i64,
    split_fee: Option<i64>,
) -> Result<Option<i64>, TakeError> {
    if reply_action == Action::PayBondInvoice {
        if take_action == Action::TakeSell {
            if requested_amount > 0 {
                match split_fee {
                    Some(fee) => Ok(Some(saturating_sub_i64(requested_amount as int, fee as int) as i64)),
                    None => Err(TakeError::BondFeeRequired),
                }
            } else {
                Ok(Some(0))
            }
        } else {
            Ok(Some(if requested_amount > 0 { requested_amount } else { 0 }))
        }
    } else {
        Ok(None)
    }
}

/// How a take-sell `AddInvoice` reply is framed for the invoice popup.
pub struct AddInvoiceFraming {
    /// The order shown, carrying the trusted sats as its amount.
    pub snapshot: SmallOrder,
    /// The order's status, `WaitingBuyerInvoice` when the reply gives none.
    pub status: OrderStatus,
    /// The sats shown: the trusted amount, never the daemon's.
    pub sat_amount: i64,
}

/// Frame a take-sell `AddInvoice` reply with the sats already checked against the take
/// (`trusted_sats`), so the popup never shows an unchecked daemon amount.
pub fn take_add_invoice_framing(order: &SmallOrder, trusted_sats: i64) -> (r: AddInvoiceFraming)
    ensures
        r.snapshot == (SmallOrder { amount: trusted_sats, ..*order }),
        r.status == match order.status {
            Some(s) => s,
            None => OrderStatus::WaitingBuyerInvoice,
        },
        r.sat_amount == trusted_sats,
{
    let mut snapshot = order.duplicate();
    snapshot.amount = trusted_sats;
    let status = match order.status {
        Some(s) => s,
        None => OrderStatus::WaitingBuyerInvoice,
    };
    AddInvoiceFraming { snapshot, status, sat_amount: trusted_sats }
}

/// The trade amount to persist with a payment-request take reply.
pub fn take_trade_amount_to_persist(
    take_action: Action,
    reply_action: Action,
    requested_amount: i64,
    split_fee: Option<i64>,
) -> (r: Result<Option<i64>, TakeError>)
    ensures
        r == take_trade_amount(take_action, reply_action, requested_amount, split_fee),
{
    if reply_action == Action::PayBondInvoice {
        if take_action == Action::TakeSell {
            if requested_amount > 0 {
                match split_fee {
                    Some(fee) => Ok(Some(expected_buyer_invoice_sats(requested_amount, fee))),
                    None => Err(TakeError::BondFeeRequired),
                }
            } else {
                Ok(Some(0))
            }
        } else {
            Ok(
                Some(
                    if requested_amount > 0 {
                        requested_amount
                    } else {
                        0
                    },
                ),
            )
        }
    } else {
        Ok(None)
    }
}

/// The buyer's own payout invoice fills an order that has none (or an empty one).
pub fn fill_take_buyer_invoice(order: Option<SmallOrder>, take_invoice: Option<String>) -> (r:
    Option<SmallOrder>)
    ensures
        r == match (order, take_invoice) {
            (Some(o), Some(inv)) => if inv@.len() > 0 && (o.buyer_invoice is None
                || o.buyer_invoice->0@.len() == 0) {
                Some(SmallOrder { buyer_invoice: Some(inv), ..o })
            } else {
                Some(o)
            },
            (o, _) => o,
        },
{
    match (order, take_invoice) {
        (Some(o), Some(inv)) => {
            let inv_len = chars_of(inv.as_str()).len();
            let current_empty = match &o.buyer_invoice {
                Some(b) => chars_of(b.as_str()).len() == 0,
                None => true,
            };
            if inv_len > 0 && current_empty {
                let mut o = o;
                o.buyer_invoice = Some(inv);
                Some(o)
            } else {
                Some(o)
            }
        },
        (o, _) => o,
    }
}

// ---------------------------------------------------------------------------------------
// Payout and bond invoices
// ---------------------------------------------------------------------------------------

/// The order a reply to a payout-invoice request carries for persisting, if any.
pub open spec fn payment_reply_order(action: Action, payload: Option<Payload>) -> Option<SmallOrder> {
    match payload {
        Some(Payload::Order(o)) => if action == Action::AddInvoice || action
            == Action::HoldInvoicePaymentAccepted || action == Action::WaitingBuyerInvoice {
            Some(o)
        } else {
            None
        },
        Some(Payload::PaymentRequest(Some(o), _, _)) => if action == Action::PayInvoice || action
            == Action::PayBondInvoice {
            Some(o)
        } else {
            None
        },
        _ => None,
    }
}

/// Order of a payout-invoice reply worth persisting.
pub fn order_from_payment_reply(action: Action, payload: &Option<Payload>) -> (r: Option<SmallOrder>)
    ensures
        r == payment_reply_order(action, *payload),
{
    match payload {
        Some(Payload::Order(o)) => match action {
            Action::AddInvoice | Action::HoldInvoicePaymentAccepted | Action::WaitingBuyerInvoice => Some(
                o.duplicate(),
            ),
            _ => None,
        },
        Some(Payload::PaymentRequest(Some(o), _, _)) => match action {
            Action::PayInvoice | Action::PayBondInvoice => Some(o.duplicate()),
            _ => None,
        },
        _ => None,
    }
}

/// Sats and invoice shown for a reply: the payment request's amount (else its order's),
/// with its invoice; an `AddInvoice` order's amount; nothing otherwise.
pub fn reply_sat_amount_and_invoice(action: Action, payload: &Option<Payload>) -> (r: (
    Option<i64>,
    Option<String>,
))
    ensures
        r == match *payload {
            Some(Payload::PaymentRequest(opt, inv, amt)) => if action == Action::PayInvoice || action
                == Action::PayBondInvoice {
                (
                    match amt {
                        Some(a) => Some(a),
                        None => match opt {
                            Some(o) => Some(o.amount),
                            None => None,
                        },
                    },
                    Some(inv),
                )
            } else {
                (None, None)
            },
            Some(Payload::Order(o)) => if action == Action::AddInvoice {
                (Some(o.amount), None)
            } else {
                (None, None)
            },
            _ => (None, None),
        },
{
    match payload {
        Some(Payload::PaymentRequest(opt, inv, amt)) => match action {
            Action::PayInvoice | Action::PayBondInvoice => {
                let sats = match amt {
                    Some(a) => Some(*a),
                    None => match opt {
                        Some(o) => Some(o.amount),
                        None => None,
                    },
                };
                (sats, Some(inv.clone()))
            },
            _ => (None, None),
        },
        Some(Payload::Order(o)) => match action {
            Action::AddInvoice => (Some(o.amount), None),
            _ => (None, None),
        },
        _ => (None, None),
    }
}

/// Next step after Mostro answered a bond payout invoice.
pub enum BondInvoiceStep {
    /// Pay the hold invoice of this order.
    PaymentRequest { order: SmallOrder, invoice: String, sat_amount: Option<i64>, action: Action },
    /// Show the payout-invoice popup.
    OpenInvoicePopup,
    /// Accepted without a follow-up.
    Acknowledged,
}

/// A payment request without the order it is for.
#[derive(Debug, Clone, Copy, PartialEq, Eq, Structural)]
pub struct OrderMissingFromPaymentRequest;

pub open spec fn popup_action(a: Action) -> bool {
    a == Action::WaitingBuyerInvoice || a == Action::AddInvoice || a == Action::WaitingSellerToPay
        || a == Action::HoldInvoicePaymentAccepted || a == Action::BuyerInvoiceAccepted
}

pub open spec fn bond_invoice_step(action: Action, payload: Option<Payload>, order_id: u128) -> Result<
    BondInvoiceStep,
    OrderMissingFromPaymentRequest,
> {
    match payload {
        Some(Payload::PaymentRequest(opt, invoice, amount)) if action == Action::PayBondInvoice
            || action == Action::PayInvoice => match opt {
            Some(o) => {
                let order = SmallOrder {
                    id: match o.id {
                        Some(id) => Some(id),
                        None => Some(order_id),
                    },
                    ..o
                };
                Ok(
                    BondInvoiceStep::PaymentRequest {
                        order,
                        invoice,
                        sat_amount: match amount {
                            Some(a) => Some(a),
                            None => Some(order.amount),
                        },
                        action,
                    },
                )
            },
            None => Err(OrderMissingFromPaymentRequest),
        },
        _ => if popup_action(action) {
            Ok(BondInvoiceStep::OpenInvoicePopup)
        } else {
            Ok(BondInvoiceStep::Acknowledged)
        },
    }
}

/// Map a checked reply to a bond payout invoice to the next UI step.
pub fn bond_invoice_reply_step(action: Action, payload: &Option<Payload>, order_id: u128) -> (r:
    Result<BondInvoiceStep, OrderMissingFromPaymentRequest>)
    ensures
        r == bond_invoice_step(action, *payload, order_id),
{
    let is_pay = action == Action::PayBondInvoice || action == Action::PayInvoice;
    if is_pay {
        match payload {
            Some(Payload::PaymentRequest(opt, invoice, amount)) => {
                return match opt {
                    Some(o) => {
                        let order = normalize_taken_order(o.duplicate(), order_id);
                        let sat_amount = match amount {
                            Some(a) => Some(*a),
                            None => Some(order.amount),
                        };
                        Ok(
                            BondInvoiceStep::PaymentRequest {
                                order,
                                invoice: invoice.clone(),
                                sat_amount,
                                action,
                            },
                        )
                    },
                    None => Err(OrderMissingFromPaymentRequest),
                };
            },
            _ => {},
        }
    }
    match action {
        Action::WaitingBuyerInvoice | Action::AddInvoice | Action::WaitingSellerToPay
        | Action::HoldInvoicePaymentAccepted | Action::BuyerInvoiceAccepted => Ok(
            BondInvoiceStep::OpenInvoicePopup,
        ),
        _ => Ok(BondInvoiceStep::Acknowledged),
    }
}

/// A reply to a payout invoice must move the trade on: Mostro then waits for the seller or
/// has accepted the hold invoice. Otherwise the unexpected action is reported.
pub fn payment_reply_outcome(action: Action) -> (r: Result<(), Action>)
    ensures
        r == if action == Action::WaitingSellerToPay || action == Action::HoldInvoicePaymentAccepted {
            Ok::<(), Action>(())
        } else {
            Err(action)
        },
{
    match action {
        Action::WaitingSellerToPay | Action::HoldInvoicePaymentAccepted => Ok(()),
        _ => Err(action),
    }
}

/// Text of an unexpected reply action.
pub fn unexpected_action_message(action: Action) -> (r: String)
    ensures
        r@ == "Unexpected action: "@ + action_name(action),
{
    let mut out: Vec<char> = Vec::new();
    append_str(&mut out, "Unexpected action: ");
    append_str(&mut out, action_name_str(action));
    string_of(&out)
}

/// Whether an error text is the DM wait's timeout.
pub fn is_wait_for_dm_timeout(err_text: &str) -> (r: bool)
    ensures
        r == (err_text@ == "Timeout waiting for DM or gift wrap event"@),
{
    chars_eq_str(&chars_of(err_text), "Timeout waiting for DM or gift wrap event")
}

/// What a trade DM stores in the local order row.
pub enum TradeDmUpsert {
    /// Nothing to store from this DM.
    Skip,
    /// An `AddInvoice` order arrived before a trusted local amount exists.
    Defer,
    /// Store this order.
    Upsert(SmallOrder),
}

/// Order data a trade DM carries for the local row. `AddInvoice` never stores the
/// daemon's sats: it waits for a local row with a positive (validated) amount and keeps it.
pub open spec fn trade_dm_upsert(action: Action, payload: Option<Payload>, local_amount: Option<i64>) -> TradeDmUpsert {
    match payload {
        Some(Payload::Order(o)) => if action == Action::AddInvoice {
            match local_amount {
                Some(a) => if a > 0 {
                    TradeDmUpsert::Upsert(SmallOrder { amount: a, ..o })
                } else {
                    TradeDmUpsert::Defer
                },
                None => TradeDmUpsert::Defer,
            }
        } else if action == Action::BuyerTookOrder || action == Action::HoldInvoicePaymentAccepted
            || action == Action::NewOrder {
            TradeDmUpsert::Upsert(o)
        } else {
            TradeDmUpsert::Skip
        },
        Some(Payload::PaymentRequest(Some(o), _, _)) => if action == Action::PayInvoice || action
            == Action::PayBondInvoice {
            TradeDmUpsert::Upsert(o)
        } else {
            TradeDmUpsert::Skip
        },
        Some(Payload::BondPayoutRequest(o, _)) => if action == Action::AddBondInvoice {
            TradeDmUpsert::Upsert(o)
        } else {
            TradeDmUpsert::Skip
        },
        _ => TradeDmUpsert::Skip,
    }
}

/// Decide what a trade DM stores in the local order row; `local_amount` is the amount of
/// the existing row, if there is one.
pub fn order_to_upsert_from_trade_dm(action: Action, payload: &Option<Payload>, local_amount: Option<
    i64,
>) -> (r: TradeDmUpsert)
    ensures
        r == trade_dm_upsert(action, *payload, local_amount),
{
    match payload {
        Some(Payload::Order(o)) => match action {
            Action::AddInvoice => match local_amount {
                Some(a) => if a > 0 {
                    let mut order = o.duplicate();
                    order.amount = a;
                    TradeDmUpsert::Upsert(order)
                } else {
                    TradeDmUpsert::Defer
                },
                None => TradeDmUpsert::Defer,
            },
            Action::BuyerTookOrder | Action::HoldInvoicePaymentAccepted | Action::NewOrder => {
                TradeDmUpsert::Upsert(o.duplicate())
            },
            _ => TradeDmUpsert::Skip,
        },
        Some(Payload::PaymentRequest(Some(o), _, _)) => match action {
            Action::PayInvoice | Action::PayBondInvoice => TradeDmUpsert::Upsert(o.duplicate()),
            _ => TradeDmUpsert::Skip,
        },
        Some(Payload::BondPayoutRequest(o, _)) => match action {
            Action::AddBondInvoice => TradeDmUpsert::Upsert(o.duplicate()),
            _ => TradeDmUpsert::Skip,
        },
        _ => TradeDmUpsert::Skip,
    }
}

/// An `AddInvoice` DM never writes the daemon's sats amount into the local row: what it
/// stores carries the positive local amount.
pub proof fn add_invoice_upsert_law(payload: Option<Payload>, local_amount: Option<i64>)
    ensures
        trade_dm_upsert(Action::AddInvoice, payload, local_amount) matches TradeDmUpsert::Upsert(o)
            ==> (local_amount == Some(o.amount) && o.amount > 0),
{
}

// ---------------------------------------------------------------------------------------
// Trade-index sync
// ---------------------------------------------------------------------------------------

/// Outcome of asking Mostro for the last trade index.
#[derive(Debug, Clone, Copy, PartialEq, Eq, Structural)]
pub struct LastTradeIndexSync {
    /// Highest trade index Mostro recorded for this identity.
    pub last_used_index: i64,
    /// Mostro reports no trade history.
    pub no_history: bool,
}

/// The index to reflect locally before reserving a new trade key: the higher of the
/// restore maximum and Mostro's answer.
pub fn effective_last_trade_index(restore_max: i64, mostro_last: i64) -> (r: i64)
    ensures
        r == if restore_max >= mostro_last { restore_max } else { mostro_last },
        r >= restore_max,
        r >= mostro_last,
{
    if restore_max >= mostro_last {
        restore_max
    } else {
        mostro_last
    }
}

/// Why a last-trade-index answer was refused.
#[derive(Debug, Clone, Copy, PartialEq, Eq, Structural)]
pub enum TradeIndexError {
    RequestIdMismatch { expected: u64, got: u64 },
    RequestIdMissing { expected: u64 },
    InvalidTradeIndexRejected,
    CantDo(CantDoReason),
    CantDoUnspecified,
    UnexpectedAction(Action),
    TradeIndexMissing,
    NonPositiveTradeIndex(i64),
}

pub open spec fn trade_index_error_text(e: TradeIndexError) -> Seq<char> {
    match e {
        TradeIndexError::RequestIdMismatch { expected, got } =>
            "Last-trade-index response request_id mismatch: expected "@ + decimal(expected as nat)
            + ", got "@ + decimal(got as nat),
        TradeIndexError::RequestIdMissing { expected } =>
            "Last-trade-index response omitted request_id (expected "@ + decimal(expected as nat)
            + ")"@,
        TradeIndexError::InvalidTradeIndexRejected =>
            "Mostro rejected the last-trade-index request (invalid trade index)"@,
        TradeIndexError::CantDo(r) => cant_do_text(r),
        TradeIndexError::CantDoUnspecified =>
            "Mostro couldn't process the last-trade-index request"@,
        TradeIndexError::UnexpectedAction(a) =>
            "Unexpected action in last-trade-index response: "@ + action_name(a),
        TradeIndexError::TradeIndexMissing =>
            "Last-trade-index response from Mostro omitted trade_index"@,
        TradeIndexError::NonPositiveTradeIndex(i) =>
            "Last-trade-index response from Mostro returned invalid trade index: "@
            + signed_decimal(i as int),
    }
}

impl TradeIndexError {
    /// The error text.
    pub fn message(&self) -> (r: String)
        ensures
            r@ == trade_index_error_text(*self),
    {
        let mut out: Vec<char> = Vec::new();
        match self {
            TradeIndexError::RequestIdMismatch { expected, got } => {
                append_str(&mut out, "Last-trade-index response request_id mismatch: expected ");
                append_chars(&mut out, &u64_decimal(*expected));
                append_str(&mut out, ", got ");
                append_chars(&mut out, &u64_decimal(*got));
            },
            TradeIndexError::RequestIdMissing { expected } => {
                append_str(&mut out, "Last-trade-index response omitted request_id (expected ");
                append_chars(&mut out, &u64_decimal(*expected));
                append_str(&mut out, ")");
            },
            TradeIndexError::InvalidTradeIndexRejected => append_str(
                &mut out,
                "Mostro rejected the last-trade-index request (invalid trade index)",
            ),
            TradeIndexError::CantDo(r) => {
                let d = get_cant_do_description(r);
                append_str(&mut out, d.as_str());
            },
            TradeIndexError::CantDoUnspecified => append_str(
                &mut out,
                "Mostro couldn't process the last-trade-index request",
            ),
            TradeIndexError::UnexpectedAction(a) => {
                append_str(&mut out, "Unexpected action in last-trade-index response: ");
                append_str(&mut out, action_name_str(*a));
            },
            TradeIndexError::TradeIndexMissing => append_str(
                &mut out,
                "Last-trade-index response from Mostro omitted trade_index",
            ),
            TradeIndexError::NonPositiveTradeIndex(i) => {
                append_str(&mut out, "Last-trade-index response from Mostro returned invalid trade index: ");
                append_chars(&mut out, &i64_decimal(*i));
            },
        }
        string_of(&out)
    }
}

/// A trade-index answer must echo the request id.
pub fn validate_correlated_response(msg: &MessageKind, expected_request_id: u64) -> (r: Result<
    (),
    TradeIndexError,
>)
    ensures
        r == match msg.request_id {
            Some(id) => if id == expected_request_id {
                Ok::<(), TradeIndexError>(())
            } else {
                Err(TradeIndexError::RequestIdMismatch { expected: expected_request_id, got: id })
            },
            None => Err(TradeIndexError::RequestIdMissing { expected: expected_request_id }),
        },
{
    match msg.request_id {
        Some(id) => if id == expected_request_id {
            Ok(())
        } else {
            Err(TradeIndexError::RequestIdMismatch { expected: expected_request_id, got: id })
        },
        None => Err(TradeIndexError::RequestIdMissing { expected: expected_request_id }),
    }
}

pub open spec fn last_trade_index_answer(msg: MessageKind) -> Result<LastTradeIndexSync, TradeIndexError> {
    match msg.payload {
        Some(Payload::CantDo(reason)) => match reason {
            Some(CantDoReason::NotFound) => Ok(LastTradeIndexSync { last_used_index: 0, no_history: true }),
            Some(CantDoReason::InvalidTradeIndex) => Err(TradeIndexError::InvalidTradeIndexRejected),
            Some(other) => Err(TradeIndexError::CantDo(other)),
            None => Err(TradeIndexError::CantDoUnspecified),
        },
        _ => if msg.action != Action::LastTradeIndex {
            Err(TradeIndexError::UnexpectedAction(msg.action))
        } else {
            match msg.trade_index {
                None => Err(TradeIndexError::TradeIndexMissing),
                Some(i) => if i <= 0 {
                    Err(TradeIndexError::NonPositiveTradeIndex(i))
                } else {
                    Ok(LastTradeIndexSync { last_used_index: i, no_history: false })
                },
            }
        },
    }
}

/// Read Mostro's last-trade-index answer: `NotFound` means no history; otherwise the
/// answer must be a `LastTradeIndex` carrying a positive index.
pub fn parse_last_trade_index_response(msg: &MessageKind) -> (r: Result<LastTradeIndexSync, TradeIndexError>)
    ensures
        r == last_trade_index_answer(*msg),
{
    match &msg.payload {
        Some(Payload::CantDo(reason)) => {
            return match reason {
                Some(CantDoReason::NotFound) => Ok(
                    LastTradeIndexSync { last_used_index: 0, no_history: true },
                ),
                Some(CantDoReason::InvalidTradeIndex) => Err(TradeIndexError::InvalidTradeIndexRejected),
                Some(other) => Err(TradeIndexError::CantDo(*other)),
                None => Err(TradeIndexError::CantDoUnspecified),
            };
        },
        _ => {},
    }
    if msg.action != Action::LastTradeIndex {
        return Err(TradeIndexError::UnexpectedAction(msg.action));
    }
    match msg.trade_index {
        None => Err(TradeIndexError::TradeIndexMissing),
        Some(i) => if i <= 0 {
            Err(TradeIndexError::NonPositiveTradeIndex(i))
        } else {
            Ok(LastTradeIndexSync { last_used_index: i, no_history: false })
        },
    }
}

/// An accepted answer either reports no history at index `0`, or a positive index.
pub proof fn last_trade_index_law(msg: MessageKind)
    ensures
        last_trade_index_answer(msg) matches Ok(s) ==> ((s.no_history && s.last_used_index == 0)
            || (!s.no_history && s.last_used_index > 0)),
{
}

// ---------------------------------------------------------------------------------------
// Order details (`Orders` request)
// ---------------------------------------------------------------------------------------

/// Why an `Orders` answer was refused.
#[derive(Debug, Clone, Copy, PartialEq, Eq, Structural)]
pub enum OrdersReplyError {
    Response(ResponseError),
    UnexpectedAction(Action),
    MissingOrders,
}

pub open spec fn orders_reply_error_text(e: OrdersReplyError) -> Seq<char> {
    match e {
        OrdersReplyError::Response(r) => response_error_text(r),
        OrdersReplyError::UnexpectedAction(a) => "Unexpected action in orders response: "@
            + action_name(a),
        OrdersReplyError::MissingOrders => "Orders response missing Payload::Orders"@,
    }
}

impl OrdersReplyError {
    /// The error text.
    pub fn message(&self) -> (r: String)
        ensures
            r@ == orders_reply_error_text(*self),
    {
        match self {
            OrdersReplyError::Response(e) => e.message(),
            OrdersReplyError::UnexpectedAction(a) => {
                let mut out: Vec<char> = Vec::new();
                append_str(&mut out, "Unexpected action in orders response: ");
                append_str(&mut out, action_name_str(*a));
                string_of(&out)
            },
            OrdersReplyError::MissingOrders => string_of(
                &chars_of("Orders response missing Payload::Orders"),
            ),
        }
    }
}

fn clone_orders(v: &Vec<SmallOrder>) -> (r: Vec<SmallOrder>)
    ensures
        r@ == v@,
{
    let mut r: Vec<SmallOrder> = Vec::new();
    let mut i: usize = 0;
    while i < v.len()
        invariant
            i <= v.len(),
            r@ == v@.subrange(0, i as int),
        decreases v.len() - i,
    {
        r.push(v[i].duplicate());
        i = i + 1;
        assert(r@ =~= v@.subrange(0, i as int));
    }
    assert(r@ =~= v@);
    r
}

/// The orders of a checked `Orders` answer.
pub fn orders_from_reply(msg: &MessageKind, request_id: u64) -> (r: Result<Vec<SmallOrder>, OrdersReplyError>)
    ensures
        match response_check(*msg, request_id) {
            Err(e) => r == Err::<Vec<SmallOrder>, OrdersReplyError>(OrdersReplyError::Response(e)),
            Ok(()) => if msg.action != Action::Orders {
                r == Err::<Vec<SmallOrder>, OrdersReplyError>(
                    OrdersReplyError::UnexpectedAction(msg.action),
                )
            } else {
                match msg.payload {
                    Some(Payload::Orders(v)) => r matches Ok(w) && w@ == v@,
                    _ => r == Err::<Vec<SmallOrder>, OrdersReplyError>(OrdersReplyError::MissingOrders),
                }
            },
        },
{
    let inner = match handle_mostro_response(msg, request_id) {
        Ok(m) => m,
        Err(e) => return Err(OrdersReplyError::Response(e)),
    };
    if inner.action != Action::Orders {
        return Err(OrdersReplyError::UnexpectedAction(inner.action));
    }
    match &inner.payload {
        Some(Payload::Orders(v)) => Ok(clone_orders(v)),
        _ => Err(OrdersReplyError::MissingOrders),
    }
}

/// Why the answer to an `Orders` request was refused before its content was read.
pub enum OrdersAnswerError {
    NoResponse,
    /// Signed by someone other than the configured Mostro (their key as text).
    WrongSender(String),
    Reply(OrdersReplyError),
}

pub open spec fn orders_answer_error_text(e: OrdersAnswerError) -> Seq<char> {
    match e {
        OrdersAnswerError::NoResponse => "No response received for Action::Orders"@,
        OrdersAnswerError::WrongSender(s) => "Orders response signed by "@ + s@
            + ", expected the configured Mostro instance"@,
        OrdersAnswerError::Reply(r) => orders_reply_error_text(r),
    }
}

impl OrdersAnswerError {
    /// The error text.
    pub fn message(&self) -> (r: String)
        ensures
            r@ == orders_answer_error_text(*self),
    {
        match self {
            OrdersAnswerError::NoResponse => string_of(&chars_of("No response received for Action::Orders")),
            OrdersAnswerError::WrongSender(s) => {
                let mut out: Vec<char> = Vec::new();
                append_str(&mut out, "Orders response signed by ");
                append_str(&mut out, s.as_str());
                append_str(&mut out, ", expected the configured Mostro instance");
                string_of(&out)
            },
            OrdersAnswerError::Reply(r) => r.message(),
        }
    }
}

/// The orders of the first answer to an `Orders` request: there must be one, signed by the
/// configured Mostro (compared by key text), and it must pass `orders_from_reply`.
pub fn orders_from_answer(first: Option<&MessageKind>, sender: &str, mostro: &str, request_id: u64) -> (r:
    Result<Vec<SmallOrder>, OrdersAnswerError>)
    ensures
        match first {
            None => r matches Err(OrdersAnswerError::NoResponse),
            Some(msg) => if sender@ != mostro@ {
                r matches Err(OrdersAnswerError::WrongSender(s)) && s@ == sender@
            } else {
                match response_check(*msg, request_id) {
                    Err(e) => r matches Err(OrdersAnswerError::Reply(x)) && x == OrdersReplyError::Response(e),
                    Ok(()) => if msg.action != Action::Orders {
                        r matches Err(OrdersAnswerError::Reply(x)) && x == OrdersReplyError::UnexpectedAction(
                            msg.action,
                        )
                    } else {
                        match msg.payload {
                            Some(Payload::Orders(v)) => r matches Ok(w) && w@ == v@,
                            _ => r matches Err(OrdersAnswerError::Reply(x)) && x
                                == OrdersReplyError::MissingOrders,
                        }
                    },
                }
            },
        },
{
    let msg = match first {
        Some(m) => m,
        None => return Err(OrdersAnswerError::NoResponse),
    };
    if !chars_eq(&chars_of(sender), &chars_of(mostro)) {
        return Err(OrdersAnswerError::WrongSender(string_of(&chars_of(sender))));
    }
    match orders_from_reply(msg, request_id) {
        Ok(v) => Ok(v),
        Err(e) => Err(OrdersAnswerError::Reply(e)),
    }
}

/// The details Mostro returned for an order id: the last returned order with that id.
pub fn returned_order_for(orders: &Vec<SmallOrder>, id: u128) -> (r: Option<SmallOrder>)
    ensures
        match r {
            Some(o) => exists|k: int|
                0 <= k < orders.len() && orders@[k] == o && o.id == Some(id) && forall|j: int|
                    k < j < orders.len() ==> #[trigger] orders@[j].id != Some(id),
            None => forall|j: int| 0 <= j < orders.len() ==> #[trigger] orders@[j].id != Some(id),
        },
{
    let mut i: usize = orders.len();
    while i > 0
        invariant
            i <= orders.len(),
            forall|j: int| i <= j < orders.len() ==> #[trigger] orders@[j].id != Some(id),
        decreases i,
    {
        i = i - 1;
        if orders[i].id == Some(id) {
            let o = orders[i].duplicate();
            assert(orders@[i as int] == o);
            return Some(o);
        }
    }
    None
}

} // verus!
