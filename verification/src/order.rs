//! Orders and protocol messages as the library sees them, and the status rules of a trade.
use vstd::prelude::*;
use mostro_core::order::Status as MostroStatus;
use crate::text::{ascii_lower, chars_eq_str, chars_of, is_ascii_text, lower_text, string_of, trim, trim_chars};

verus! {

/// Direction of an order: the maker buys or sells sats.
#[derive(Debug, Clone, Copy, PartialEq, Eq, Structural)]
pub enum OrderKind {
    Buy,
    Sell,
}

/// Lifecycle status of an order.
#[derive(Debug, Clone, Copy, PartialEq, Eq, Structural)]
pub enum OrderStatus {
    Active,
    Canceled,
    CanceledByAdmin,
    SettledByAdmin,
    CompletedByAdmin,
    Dispute,
    Expired,
    FiatSent,
    SettledHoldInvoice,
    Pending,
    Success,
    WaitingBuyerInvoice,
    WaitingPayment,
    WaitingTakerBond,
    CooperativelyCanceled,
    InProgress,
    WaitingMakerBond,
}

/// Verb of a Mostro protocol message.
#[derive(Debug, Clone, Copy, PartialEq, Eq, Structural)]
pub enum Action {
    NewOrder,
    TakeSell,
    TakeBuy,
    PayInvoice,
    PayBondInvoice,
    FiatSent,
    FiatSentOk,
    Release,
    Released,
    Cancel,
    Canceled,
    CooperativeCancelInitiatedByYou,
    CooperativeCancelInitiatedByPeer,
    DisputeInitiatedByYou,
    DisputeInitiatedByPeer,
    CooperativeCancelAccepted,
    BuyerInvoiceAccepted,
    BondInvoiceAccepted,
    PurchaseCompleted,
    BondPayoutCompleted,
    BondSlashed,
    HoldInvoicePaymentAccepted,
    HoldInvoicePaymentSettled,
    HoldInvoicePaymentCanceled,
    WaitingSellerToPay,
    WaitingBuyerInvoice,
    AddInvoice,
    AddBondInvoice,
    BuyerTookOrder,
    Rate,
    RateUser,
    RateReceived,
    CantDo,
    Dispute,
    AdminCancel,
    AdminCanceled,
    AdminSettle,
    AdminSettled,
    AdminAddSolver,
    AdminTakeDispute,
    AdminTookDispute,
    PaymentFailed,
    InvoiceUpdated,
    SendDm,
    TradePubkey,
    RestoreSession,
    LastTradeIndex,
    Orders,
    AddCashuEscrow,
    CashuEscrowLocked,
    CashuPmSignature,
}

/// Machine-readable reasons carried by a `CantDo` reply.
#[derive(Debug, Clone, Copy, PartialEq, Eq, Structural)]
pub enum CantDoReason {
    InvalidSignature,
    InvalidTradeIndex,
    InvalidAmount,
    InvalidInvoice,
    InvalidPaymentRequest,
    InvalidPeer,
    InvalidRating,
    InvalidTextMessage,
    InvalidOrderKind,
    InvalidOrderStatus,
    InvalidPubkey,
    InvalidParameters,
    OrderAlreadyCanceled,
    CantCreateUser,
    IsNotYourOrder,
    NotAllowedByStatus,
    OutOfRangeFiatAmount,
    OutOfRangeSatsAmount,
    IsNotYourDispute,
    DisputeTakenByAdmin,
    DisputeCreationError,
    NotFound,
    InvalidDisputeStatus,
    InvalidAction,
    PendingOrderExists,
    InvalidFiatCurrency,
    TooManyRequests,
}

/// Wire transport of protocol messages.
#[derive(Debug, Clone, Copy, PartialEq, Eq, Structural)]
pub enum Transport {
    /// Protocol v1: NIP-59 gift wrap.
    GiftWrap,
    /// Protocol v2: NIP-44 direct message (kind 14).
    Nip44Direct,
}

/// How an outgoing protocol message is wrapped.
#[derive(Debug, Clone, Copy, PartialEq, Eq, Structural)]
pub enum MessageType {
    /// NIP-17 direct message to a user.
    PrivateDirectMessage,
    /// Gift wrap whose rumor is not signed.
    PrivateGiftWrap,
    /// Gift wrap whose rumor is signed by the trade key.
    SignedGiftWrap,
}

/// A message to a user is a direct message; one to Mostro is a gift wrap, signed unless
/// the request is private.
pub fn determine_message_type(to_user: bool, private: bool) -> (r: MessageType)
    ensures
        r == if to_user {
            MessageType::PrivateDirectMessage
        } else if private {
            MessageType::PrivateGiftWrap
        } else {
            MessageType::SignedGiftWrap
        },
{
    if to_user {
        MessageType::PrivateDirectMessage
    } else if private {
        MessageType::PrivateGiftWrap
    } else {
        MessageType::SignedGiftWrap
    }
}

/// Compact order representation carried in protocol payloads.
pub struct SmallOrder {
    /// Order id as the 128-bit value of its UUID.
    pub id: Option<u128>,
    pub kind: Option<OrderKind>,
    pub status: Option<OrderStatus>,
    pub amount: i64,
    pub fiat_code: String,
    pub min_amount: Option<i64>,
    pub max_amount: Option<i64>,
    pub fiat_amount: i64,
    pub payment_method: String,
    pub premium: i64,
    pub buyer_trade_pubkey: Option<String>,
    pub seller_trade_pubkey: Option<String>,
    pub buyer_invoice: Option<String>,
    pub created_at: Option<i64>,
    pub expires_at: Option<i64>,
}

fn clone_opt_string(s: &Option<String>) -> (r: Option<String>)
    ensures
        r == *s,
{
    match s {
        Some(v) => Some(v.clone()),
        None => None,
    }
}

impl SmallOrder {
    /// A field-by-field copy.
    pub fn duplicate(&self) -> (r: SmallOrder)
        ensures
            r == *self,
    {
        SmallOrder {
            id: self.id,
            kind: self.kind,
            status: self.status,
            amount: self.amount,
            fiat_code: self.fiat_code.clone(),
            min_amount: self.min_amount,
            max_amount: self.max_amount,
            fiat_amount: self.fiat_amount,
            payment_method: self.payment_method.clone(),
            premium: self.premium,
            buyer_trade_pubkey: clone_opt_string(&self.buyer_trade_pubkey),
            seller_trade_pubkey: clone_opt_string(&self.seller_trade_pubkey),
            buyer_invoice: clone_opt_string(&self.buyer_invoice),
            created_at: self.created_at,
            expires_at: self.expires_at,
        }
    }
}

/// The empty order: no id, kind or status, zero amounts, empty texts.
pub open spec fn is_empty_order(o: SmallOrder) -> bool {
    &&& o.id is None
    &&& o.kind is None
    &&& o.status is None
    &&& o.amount == 0
    &&& o.fiat_code@ == Seq::<char>::empty()
    &&& o.min_amount is None
    &&& o.max_amount is None
    &&& o.fiat_amount == 0
    &&& o.payment_method@ == Seq::<char>::empty()
    &&& o.premium == 0
    &&& o.buyer_trade_pubkey is None
    &&& o.seller_trade_pubkey is None
    &&& o.buyer_invoice is None
    &&& o.created_at is None
    &&& o.expires_at is None
}

impl Default for SmallOrder {
    fn default() -> (r: SmallOrder)
        ensures
            is_empty_order(r),
    {
        SmallOrder {
            id: None,
            kind: None,
            status: None,
            amount: 0,
            fiat_code: String::new(),
            min_amount: None,
            max_amount: None,
            fiat_amount: 0,
            payment_method: String::new(),
            premium: 0,
            buyer_trade_pubkey: None,
            seller_trade_pubkey: None,
            buyer_invoice: None,
            created_at: None,
            expires_at: None,
        }
    }
}

/// Bond slash decision of an admin settle / cancel.
#[derive(Debug, Clone, Copy, PartialEq, Eq, Structural)]
pub struct BondResolution {
    pub slash_seller: bool,
    pub slash_buyer: bool,
}

/// An order Mostro reports in a restore answer.
pub struct RestoredOrderInfo {
    pub order_id: u128,
    pub trade_index: i64,
    /// Status text (kebab-case).
    pub status: String,
}

/// A dispute Mostro reports in a restore answer.
pub struct RestoredDisputeInfo {
    pub dispute_id: u128,
    pub order_id: u128,
    pub trade_index: i64,
    pub status: String,
    pub solver_pubkey: Option<String>,
}

/// The session state of a restore answer.
pub struct RestoreSessionInfo {
    pub restore_orders: Vec<RestoredOrderInfo>,
    pub restore_disputes: Vec<RestoredDisputeInfo>,
}

/// Payload shapes the client logic reads. Shapes it never inspects are `Other`.
pub enum Payload {
    Order(SmallOrder),
    /// Order (when relevant), BOLT-11 invoice, optional amount override.
    PaymentRequest(Option<SmallOrder>, String, Option<i64>),
    Amount(i64),
    CantDo(Option<CantDoReason>),
    BondResolution(BondResolution),
    /// Order context of a bond payout request, and when the slash was recorded.
    BondPayoutRequest(SmallOrder, i64),
    Orders(Vec<SmallOrder>),
    RestoreData(RestoreSessionInfo),
    /// Dispute id, and the id of the solver's dispute information when it is present.
    Dispute(u128, Option<u128>),
    /// A peer's public key, as text.
    Peer(String),
    Other,
}

/// Trade-ending statuses, including `Success`.
pub open spec fn terminal_status(s: OrderStatus) -> bool {
    s == OrderStatus::Success || s == OrderStatus::Canceled || s == OrderStatus::CanceledByAdmin
        || s == OrderStatus::SettledByAdmin || s == OrderStatus::CompletedByAdmin || s
        == OrderStatus::Expired || s == OrderStatus::CooperativelyCanceled
}

/// Statuses that drop the peer chat subscription: the terminal ones except `Success`.
pub open spec fn untracks_chat_status(s: OrderStatus) -> bool {
    s == OrderStatus::Canceled || s == OrderStatus::CanceledByAdmin || s
        == OrderStatus::SettledByAdmin || s == OrderStatus::CompletedByAdmin || s
        == OrderStatus::Expired || s == OrderStatus::CooperativelyCanceled
}

/// Statuses before the trade becomes active.
pub open spec fn pre_active_status(s: OrderStatus) -> bool {
    s == OrderStatus::Pending || s == OrderStatus::WaitingTakerBond || s
        == OrderStatus::WaitingMakerBond || s == OrderStatus::WaitingPayment || s
        == OrderStatus::WaitingBuyerInvoice || s == OrderStatus::SettledHoldInvoice
}

/// Full trade-DM terminal set (includes `Success`).
pub fn is_terminal_order_status(status: OrderStatus) -> (r: bool)
    ensures
        r == terminal_status(status),
{
    match status {
        OrderStatus::Success | OrderStatus::Canceled | OrderStatus::CanceledByAdmin
        | OrderStatus::SettledByAdmin | OrderStatus::CompletedByAdmin | OrderStatus::Expired
        | OrderStatus::CooperativelyCanceled => true,
        _ => false,
    }
}

/// Peer chat untrack set (terminal without `Success`).
pub fn order_status_untracks_chat(status: OrderStatus) -> (r: bool)
    ensures
        r == untracks_chat_status(status),
{
    match status {
        OrderStatus::Canceled | OrderStatus::CanceledByAdmin | OrderStatus::SettledByAdmin
        | OrderStatus::CompletedByAdmin | OrderStatus::Expired
        | OrderStatus::CooperativelyCanceled => true,
        _ => false,
    }
}

/// Statuses before `Active`.
pub fn is_pre_active_status(status: OrderStatus) -> (r: bool)
    ensures
        r == pre_active_status(status),
{
    match status {
        OrderStatus::Pending | OrderStatus::WaitingTakerBond | OrderStatus::WaitingMakerBond
        | OrderStatus::WaitingPayment | OrderStatus::WaitingBuyerInvoice
        | OrderStatus::SettledHoldInvoice => true,
        _ => false,
    }
}

/// The chat stays tracked exactly through `Success`: a status drops the chat if and only
/// if it ends the trade and is not `Success`; no status is both terminal and pre-active.
pub proof fn status_sets_law(s: OrderStatus)
    ensures
        untracks_chat_status(s) <==> (terminal_status(s) && s != OrderStatus::Success),
        !(terminal_status(s) && pre_active_status(s)),
{
}

/// Status carried in an order payload, if any.
pub open spec fn payload_order_status(p: Option<&Payload>) -> Option<OrderStatus> {
    match p {
        Some(Payload::Order(o)) => o.status,
        _ => None,
    }
}

/// Actions Mostro sends without a payload when a trade is canceled.
pub open spec fn cancel_action(a: Action) -> bool {
    a == Action::AdminCanceled || a == Action::Canceled || a == Action::CooperativeCancelAccepted
}

fn is_cancel_action(a: Action) -> (r: bool)
    ensures
        r == cancel_action(a),
{
    match a {
        Action::AdminCanceled | Action::Canceled | Action::CooperativeCancelAccepted => true,
        _ => false,
    }
}

fn order_payload_status(payload: Option<&Payload>) -> (r: Option<OrderStatus>)
    ensures
        r == payload_order_status(payload),
{
    match payload {
        Some(Payload::Order(o)) => o.status,
        _ => None,
    }
}

/// End of a trade: a cancel action, or a terminal status in the order payload.
pub fn trade_message_is_terminal(action: Action, payload: Option<&Payload>) -> (r: bool)
    ensures
        r == (cancel_action(action) || match payload_order_status(payload) {
            Some(s) => terminal_status(s),
            None => false,
        }),
{
    if is_cancel_action(action) {
        return true;
    }
    match order_payload_status(payload) {
        Some(s) => is_terminal_order_status(s),
        None => false,
    }
}

/// Whether a trade DM drops the peer chat: a cancel action, or a payload status in the
/// untrack set (`Success` keeps the chat for the post-trade window).
pub fn trade_message_should_untrack_order_chat(action: Action, payload: Option<&Payload>) -> (r:
    bool)
    ensures
        r == (cancel_action(action) || match payload_order_status(payload) {
            Some(s) => untracks_chat_status(s),
            None => false,
        }),
{
    if is_cancel_action(action) {
        return true;
    }
    match order_payload_status(payload) {
        Some(s) => order_status_untracks_chat(s),
        None => false,
    }
}

/// Every DM that drops the chat also ends the trade.
pub proof fn untrack_implies_terminal_law(action: Action, payload: Option<&Payload>)
    ensures
        (cancel_action(action) || match payload_order_status(payload) {
            Some(s) => untracks_chat_status(s),
            None => false,
        }) ==> (cancel_action(action) || match payload_order_status(payload) {
            Some(s) => terminal_status(s),
            None => false,
        }),
{
}

/// A replayed `NewOrder` must not overwrite a Messages row that holds any other action.
pub fn new_order_would_regress_messages_row(action: Action, existing_action: Action) -> (r: bool)
    ensures
        r == (action == Action::NewOrder && existing_action != Action::NewOrder),
{
    action == Action::NewOrder && existing_action != Action::NewOrder
}

/// Maker/taker role shown for a stored trade DM: the database role once a row existed
/// before the DM's upsert, otherwise only the role an earlier Messages row carried.
pub fn effective_is_mine_for_trade_dm_message(
    had_local_row_before_upsert: bool,
    post_upsert_is_mine: Option<bool>,
    prior_message_is_mine: Option<bool>,
) -> (r: Option<bool>)
    ensures
        r == if had_local_row_before_upsert {
            match post_upsert_is_mine {
                Some(b) => Some(b),
                None => prior_message_is_mine,
            }
        } else {
            prior_message_is_mine
        },
{
    if had_local_row_before_upsert {
        return match post_upsert_is_mine {
            Some(b) => Some(b),
            None => prior_message_is_mine,
        };
    }
    prior_message_is_mine
}

/// Take-sell buyer still waiting to submit a payout invoice: sats for this phase must come
/// from the validated take path, never from the daemon's order payload.
pub fn is_take_sell_buyer_waiting_invoice(
    action: Action,
    is_mine: Option<bool>,
    order_kind: Option<OrderKind>,
    order_status: Option<OrderStatus>,
) -> (r: bool)
    ensures
        r == (action == Action::AddInvoice && is_mine != Some(true) && order_kind == Some(
            OrderKind::Sell,
        ) && (order_status == Some(OrderStatus::WaitingBuyerInvoice) || order_status is None)),
{
    action == Action::AddInvoice && !(match is_mine {
        Some(b) => b,
        None => false,
    }) && (match order_kind {
        Some(OrderKind::Sell) => true,
        _ => false,
    }) && (match order_status {
        Some(OrderStatus::WaitingBuyerInvoice) | None => true,
        _ => false,
    })
}

/// The order of a `NewOrder` payload whose status is `Pending` (book republish or range child).
pub fn small_order_pending_from_new_order_payload(payload: Option<&Payload>) -> (r: Option<
    SmallOrder,
>)
    ensures
        match payload {
            Some(Payload::Order(o)) => if o.status == Some(OrderStatus::Pending) {
                r == Some(*o)
            } else {
                r is None
            },
            _ => r is None,
        },
{
    match payload {
        Some(Payload::Order(o)) => {
            if o.status == Some(OrderStatus::Pending) {
                Some(o.duplicate())
            } else {
                None
            }
        },
        _ => None,
    }
}

/// The order embedded in an order payload or a payment request, if any.
pub fn small_order_ref_from_payload(payload: Option<&Payload>) -> (r: Option<&SmallOrder>)
    ensures
        r == match payload {
            Some(Payload::Order(o)) => Some(o),
            Some(Payload::PaymentRequest(Some(o), _, _)) => Some(o),
            _ => None,
        },
{
    match payload {
        Some(Payload::Order(o)) => Some(o),
        Some(Payload::PaymentRequest(Some(o), _, _)) => Some(o),
        _ => None,
    }
}

/// Status of a stored order row, as mostro-core parses its text: the text's lower-case
/// form is one of the wire names.
pub open spec fn status_from_text(s: Seq<char>) -> Option<OrderStatus> {
    status_named(lower_text(s))
}

/// `mostro_core::order::Status::from_str(s)` written back with its `Display` impl.
/// `from_str` lower-cases the text with `str::to_lowercase` and matches the seventeen
/// wire names, and `Display` writes the matched name back; so the result is the text's
/// lower-case form when that is a wire name, and `None` otherwise. On ASCII text the
/// lower-case form is the ASCII fold.
#[verifier::external_body]
fn status_wire_name(s: &str) -> (r: Option<String>)
    ensures
        match r {
            Some(n) => n@ == lower_text(s@) && status_named(n@) is Some,
            None => status_named(lower_text(s@)) is None,
        },
        is_ascii_text(s@) ==> match r {
            Some(n) => n@ == ascii_lower(s@),
            None => status_named(ascii_lower(s@)) is None,
        },
{
    let parsed: Result<MostroStatus, ()> = std::str::FromStr::from_str(s);
    parsed.ok().map(|st| st.to_string())
}

/// The status whose wire name (kebab-case, as mostro-core writes it) is `n`.
pub open spec fn status_named(n: Seq<char>) -> Option<OrderStatus> {
    if n == "active"@ {
        Some(OrderStatus::Active)
    } else if n == "canceled"@ {
        Some(OrderStatus::Canceled)
    } else if n == "canceled-by-admin"@ {
        Some(OrderStatus::CanceledByAdmin)
    } else if n == "settled-by-admin"@ {
        Some(OrderStatus::SettledByAdmin)
    } else if n == "completed-by-admin"@ {
        Some(OrderStatus::CompletedByAdmin)
    } else if n == "dispute"@ {
        Some(OrderStatus::Dispute)
    } else if n == "expired"@ {
        Some(OrderStatus::Expired)
    } else if n == "fiat-sent"@ {
        Some(OrderStatus::FiatSent)
    } else if n == "settled-hold-invoice"@ {
        Some(OrderStatus::SettledHoldInvoice)
    } else if n == "pending"@ {
        Some(OrderStatus::Pending)
    } else if n == "success"@ {
        Some(OrderStatus::Success)
    } else if n == "waiting-buyer-invoice"@ {
        Some(OrderStatus::WaitingBuyerInvoice)
    } else if n == "waiting-payment"@ {
        Some(OrderStatus::WaitingPayment)
    } else if n == "waiting-taker-bond"@ {
        Some(OrderStatus::WaitingTakerBond)
    } else if n == "waiting-maker-bond"@ {
        Some(OrderStatus::WaitingMakerBond)
    } else if n == "cooperatively-canceled"@ {
        Some(OrderStatus::CooperativelyCanceled)
    } else if n == "in-progress"@ {
        Some(OrderStatus::InProgress)
    } else {
        None
    }
}

/// The status with wire name `n`.
pub fn status_by_name(n: &str) -> (r: Option<OrderStatus>)
    ensures
        r == status_named(n@),
{
    let c = chars_of(n);
    if chars_eq_str(&c, "active") {
        Some(OrderStatus::Active)
    } else if chars_eq_str(&c, "canceled") {
        Some(OrderStatus::Canceled)
    } else if chars_eq_str(&c, "canceled-by-admin") {
        Some(OrderStatus::CanceledByAdmin)
    } else if chars_eq_str(&c, "settled-by-admin") {
        Some(OrderStatus::SettledByAdmin)
    } else if chars_eq_str(&c, "completed-by-admin") {
        Some(OrderStatus::CompletedByAdmin)
    } else if chars_eq_str(&c, "dispute") {
        Some(OrderStatus::Dispute)
    } else if chars_eq_str(&c, "expired") {
        Some(OrderStatus::Expired)
    } else if chars_eq_str(&c, "fiat-sent") {
        Some(OrderStatus::FiatSent)
    } else if chars_eq_str(&c, "settled-hold-invoice") {
        Some(OrderStatus::SettledHoldInvoice)
    } else if chars_eq_str(&c, "pending") {
        Some(OrderStatus::Pending)
    } else if chars_eq_str(&c, "success") {
        Some(OrderStatus::Success)
    } else if chars_eq_str(&c, "waiting-buyer-invoice") {
        Some(OrderStatus::WaitingBuyerInvoice)
    } else if chars_eq_str(&c, "waiting-payment") {
        Some(OrderStatus::WaitingPayment)
    } else if chars_eq_str(&c, "waiting-taker-bond") {
        Some(OrderStatus::WaitingTakerBond)
    } else if chars_eq_str(&c, "waiting-maker-bond") {
        Some(OrderStatus::WaitingMakerBond)
    } else if chars_eq_str(&c, "cooperatively-canceled") {
        Some(OrderStatus::CooperativelyCanceled)
    } else if chars_eq_str(&c, "in-progress") {
        Some(OrderStatus::InProgress)
    } else {
        None
    }
}

/// Parse a stored status text as mostro-core does.
pub(crate) fn parse_order_status(s: &str) -> (r: Option<OrderStatus>)
    ensures
        r == status_from_text(s@),
        is_ascii_text(s@) ==> r == status_named(ascii_lower(s@)),
{
    match status_wire_name(s) {
        Some(n) => status_by_name(n.as_str()),
        None => None,
    }
}

/// A stored order row: texts as the database holds them (order id as UUID text, kind and
/// status in kebab-case, keys as hex).
pub struct OrderRow {
    pub id: Option<String>,
    pub kind: Option<String>,
    /// Status text as stored (kebab-case).
    pub status: Option<String>,
    pub amount: i64,
    pub fiat_code: String,
    pub min_amount: Option<i64>,
    pub max_amount: Option<i64>,
    pub fiat_amount: i64,
    pub payment_method: String,
    pub premium: i64,
    pub trade_keys: Option<String>,
    pub counterparty_pubkey: Option<String>,
    pub order_chat_shared_key_hex: Option<String>,
    pub dispute_id: Option<String>,
    pub solver_pubkey: Option<String>,
    pub dispute_chat_shared_key_hex: Option<String>,
    pub is_mine: bool,
    pub buyer_invoice: Option<String>,
    pub request_id: Option<i64>,
    pub trade_index: Option<i64>,
    pub created_at: Option<i64>,
    pub expires_at: Option<i64>,
    pub last_seen_dm_ts: Option<i64>,
}

pub open spec fn row_status(row: &OrderRow) -> Option<OrderStatus> {
    match row.status {
        Some(t) => status_from_text(t@),
        None => None,
    }
}

/// Parsed status of a stored row.
pub fn order_status_from_row(row: &OrderRow) -> (r: Option<OrderStatus>)
    ensures
        r == row_status(row),
{
    match &row.status {
        Some(t) => parse_order_status(t.as_str()),
        None => None,
    }
}

/// A taker's row for a take that has not reached `Active`.
pub fn is_pre_active_taker_take(row: &OrderRow) -> (r: bool)
    ensures
        r == (!row.is_mine && match row_status(row) {
            Some(s) => pre_active_status(s),
            None => false,
        }),
{
    !row.is_mine && match order_status_from_row(row) {
        Some(s) => is_pre_active_status(s),
        None => false,
    }
}

/// A maker's listing that has not reached `Active`.
pub fn is_pre_active_maker_listing(row: &OrderRow) -> (r: bool)
    ensures
        r == (row.is_mine && match row_status(row) {
            Some(s) => pre_active_status(s),
            None => false,
        }),
{
    row.is_mine && match order_status_from_row(row) {
        Some(s) => is_pre_active_status(s),
        None => false,
    }
}

/// A row saved without relay details: its fiat code is blank.
pub fn is_minimal_placeholder(row: &OrderRow) -> (r: bool)
    ensures
        r == (trim(row.fiat_code@).len() == 0),
{
    let t = trim_chars(&chars_of(row.fiat_code.as_str()));
    t.len() == 0
}

/// Role of a restored order when trade pubkeys do not decide it.
#[derive(Debug, Clone, Copy, PartialEq, Eq, Structural)]
pub enum RestoredRole {
    Maker,
    UnknownAsTaker,
}

/// Only maker-exclusive statuses (`Pending`, `WaitingMakerBond`) imply the maker role.
pub fn restored_order_role(status: Option<OrderStatus>) -> (r: RestoredRole)
    ensures
        r == if status == Some(OrderStatus::Pending) || status == Some(
            OrderStatus::WaitingMakerBond,
        ) {
            RestoredRole::Maker
        } else {
            RestoredRole::UnknownAsTaker
        },
{
    match status {
        Some(OrderStatus::Pending) | Some(OrderStatus::WaitingMakerBond) => RestoredRole::Maker,
        _ => RestoredRole::UnknownAsTaker,
    }
}

/// User-facing text for a `CantDo` reason.
pub open spec fn cant_do_text(reason: CantDoReason) -> Seq<char> {
    match reason {
        CantDoReason::InvalidSignature => "Invalid signature - authentication failed"@,
        CantDoReason::InvalidTradeIndex => "Invalid trade index - please try again"@,
        CantDoReason::InvalidAmount => "Invalid amount - check your order values"@,
        CantDoReason::InvalidInvoice => "Invalid invoice - please provide a valid lightning invoice"@,
        CantDoReason::InvalidPaymentRequest => "Invalid payment request"@,
        CantDoReason::InvalidPeer => "Invalid peer information"@,
        CantDoReason::InvalidRating => "Invalid rating value"@,
        CantDoReason::InvalidTextMessage => "Invalid text message"@,
        CantDoReason::InvalidOrderKind => "Invalid order kind - must be 'buy' or 'sell'"@,
        CantDoReason::InvalidOrderStatus => "Invalid order status"@,
        CantDoReason::InvalidPubkey => "Invalid public key"@,
        CantDoReason::InvalidParameters => "Invalid parameters - check your order details"@,
        CantDoReason::OrderAlreadyCanceled => "Order is already canceled"@,
        CantDoReason::CantCreateUser => "Cannot create user - please contact support"@,
        CantDoReason::IsNotYourOrder => "This is not your order"@,
        CantDoReason::NotAllowedByStatus => "Action not allowed - order status prevents this operation"@,
        CantDoReason::OutOfRangeFiatAmount => "Fiat amount is out of acceptable range"@,
        CantDoReason::OutOfRangeSatsAmount => "Satoshis amount is out of acceptable range"@,
        CantDoReason::IsNotYourDispute => "This is not your dispute"@,
        CantDoReason::DisputeTakenByAdmin => "Dispute has been taken over by an administrator"@,
        CantDoReason::DisputeCreationError => "Cannot create dispute for this order"@,
        CantDoReason::NotFound => "Resource not found"@,
        CantDoReason::InvalidDisputeStatus => "Invalid dispute status"@,
        CantDoReason::InvalidAction => "Invalid action for current state"@,
        CantDoReason::PendingOrderExists => "You already have a pending order - please complete or cancel it first"@,
        CantDoReason::InvalidFiatCurrency => "Invalid fiat currency - currency not supported or specify a fixed rate"@,
        CantDoReason::TooManyRequests => "Too many requests - please wait and try again"@,
    }
}

/// Convert a `CantDo` reason to a user-facing description.
pub fn get_cant_do_description(reason: &CantDoReason) -> (r: String)
    ensures
        r@ == cant_do_text(*reason),
{
    let s: &str = match reason {
        CantDoReason::InvalidSignature => "Invalid signature - authentication failed",
        CantDoReason::InvalidTradeIndex => "Invalid trade index - please try again",
        CantDoReason::InvalidAmount => "Invalid amount - check your order values",
        CantDoReason::InvalidInvoice => "Invalid invoice - please provide a valid lightning invoice",
        CantDoReason::InvalidPaymentRequest => "Invalid payment request",
        CantDoReason::InvalidPeer => "Invalid peer information",
        CantDoReason::InvalidRating => "Invalid rating value",
        CantDoReason::InvalidTextMessage => "Invalid text message",
        CantDoReason::InvalidOrderKind => "Invalid order kind - must be 'buy' or 'sell'",
        CantDoReason::InvalidOrderStatus => "Invalid order status",
        CantDoReason::InvalidPubkey => "Invalid public key",
        CantDoReason::InvalidParameters => "Invalid parameters - check your order details",
        CantDoReason::OrderAlreadyCanceled => "Order is already canceled",
        CantDoReason::CantCreateUser => "Cannot create user - please contact support",
        CantDoReason::IsNotYourOrder => "This is not your order",
        CantDoReason::NotAllowedByStatus => "Action not allowed - order status prevents this operation",
        CantDoReason::OutOfRangeFiatAmount => "Fiat amount is out of acceptable range",
        CantDoReason::OutOfRangeSatsAmount => "Satoshis amount is out of acceptable range",
        CantDoReason::IsNotYourDispute => "This is not your dispute",
        CantDoReason::DisputeTakenByAdmin => "Dispute has been taken over by an administrator",
        CantDoReason::DisputeCreationError => "Cannot create dispute for this order",
        CantDoReason::NotFound => "Resource not found",
        CantDoReason::InvalidDisputeStatus => "Invalid dispute status",
        CantDoReason::InvalidAction => "Invalid action for current state",
        CantDoReason::PendingOrderExists => "You already have a pending order - please complete or cancel it first",
        CantDoReason::InvalidFiatCurrency => "Invalid fiat currency - currency not supported or specify a fixed rate",
        CantDoReason::TooManyRequests => "Too many requests - please wait and try again",
    };
    string_of(&chars_of(s))
}

/// `Debug` rendering of an order kind.
pub open spec fn kind_name(k: OrderKind) -> Seq<char> {
    match k {
        OrderKind::Buy => "Buy"@,
        OrderKind::Sell => "Sell"@,
    }
}

/// The `Debug` name of an order kind.
pub fn kind_name_str(k: OrderKind) -> (r: &'static str)
    ensures
        r@ == kind_name(k),
{
    match k {
        OrderKind::Buy => "Buy",
        OrderKind::Sell => "Sell",
    }
}

/// `Debug` rendering of an order status.
pub open spec fn status_name(s: OrderStatus) -> Seq<char> {
    match s {
        OrderStatus::Active => "Active"@,
        OrderStatus::Canceled => "Canceled"@,
        OrderStatus::CanceledByAdmin => "CanceledByAdmin"@,
        OrderStatus::SettledByAdmin => "SettledByAdmin"@,
        OrderStatus::CompletedByAdmin => "CompletedByAdmin"@,
        OrderStatus::Dispute => "Dispute"@,
        OrderStatus::Expired => "Expired"@,
        OrderStatus::FiatSent => "FiatSent"@,
        OrderStatus::SettledHoldInvoice => "SettledHoldInvoice"@,
        OrderStatus::Pending => "Pending"@,
        OrderStatus::Success => "Success"@,
        OrderStatus::WaitingBuyerInvoice => "WaitingBuyerInvoice"@,
        OrderStatus::WaitingPayment => "WaitingPayment"@,
        OrderStatus::WaitingTakerBond => "WaitingTakerBond"@,
        OrderStatus::CooperativelyCanceled => "CooperativelyCanceled"@,
        OrderStatus::InProgress => "InProgress"@,
        OrderStatus::WaitingMakerBond => "WaitingMakerBond"@,
    }
}

/// The `Debug` name of an order status.
pub fn status_name_str(s: OrderStatus) -> (r: &'static str)
    ensures
        r@ == status_name(s),
{
    match s {
        OrderStatus::Active => "Active",
        OrderStatus::Canceled => "Canceled",
        OrderStatus::CanceledByAdmin => "CanceledByAdmin",
        OrderStatus::SettledByAdmin => "SettledByAdmin",
        OrderStatus::CompletedByAdmin => "CompletedByAdmin",
        OrderStatus::Dispute => "Dispute",
        OrderStatus::Expired => "Expired",
        OrderStatus::FiatSent => "FiatSent",
        OrderStatus::SettledHoldInvoice => "SettledHoldInvoice",
        OrderStatus::Pending => "Pending",
        OrderStatus::Success => "Success",
        OrderStatus::WaitingBuyerInvoice => "WaitingBuyerInvoice",
        OrderStatus::WaitingPayment => "WaitingPayment",
        OrderStatus::WaitingTakerBond => "WaitingTakerBond",
        OrderStatus::CooperativelyCanceled => "CooperativelyCanceled",
        OrderStatus::InProgress => "InProgress",
        OrderStatus::WaitingMakerBond => "WaitingMakerBond",
    }
}

/// `Debug` rendering of an action.
pub open spec fn action_name(a: Action) -> Seq<char> {
    match a {
        Action::NewOrder => "NewOrder"@,
        Action::TakeSell => "TakeSell"@,
        Action::TakeBuy => "TakeBuy"@,
        Action::PayInvoice => "PayInvoice"@,
        Action::PayBondInvoice => "PayBondInvoice"@,
        Action::FiatSent => "FiatSent"@,
        Action::FiatSentOk => "FiatSentOk"@,
        Action::Release => "Release"@,
        Action::Released => "Released"@,
        Action::Cancel => "Cancel"@,
        Action::Canceled => "Canceled"@,
        Action::CooperativeCancelInitiatedByYou => "CooperativeCancelInitiatedByYou"@,
        Action::CooperativeCancelInitiatedByPeer => "CooperativeCancelInitiatedByPeer"@,
        Action::DisputeInitiatedByYou => "DisputeInitiatedByYou"@,
        Action::DisputeInitiatedByPeer => "DisputeInitiatedByPeer"@,
        Action::CooperativeCancelAccepted => "CooperativeCancelAccepted"@,
        Action::BuyerInvoiceAccepted => "BuyerInvoiceAccepted"@,
        Action::BondInvoiceAccepted => "BondInvoiceAccepted"@,
        Action::PurchaseCompleted => "PurchaseCompleted"@,
        Action::BondPayoutCompleted => "BondPayoutCompleted"@,
        Action::BondSlashed => "BondSlashed"@,
        Action::HoldInvoicePaymentAccepted => "HoldInvoicePaymentAccepted"@,
        Action::HoldInvoicePaymentSettled => "HoldInvoicePaymentSettled"@,
        Action::HoldInvoicePaymentCanceled => "HoldInvoicePaymentCanceled"@,
        Action::WaitingSellerToPay => "WaitingSellerToPay"@,
        Action::WaitingBuyerInvoice => "WaitingBuyerInvoice"@,
        Action::AddInvoice => "AddInvoice"@,
        Action::AddBondInvoice => "AddBondInvoice"@,
        Action::BuyerTookOrder => "BuyerTookOrder"@,
        Action::Rate => "Rate"@,
        Action::RateUser => "RateUser"@,
        Action::RateReceived => "RateReceived"@,
        Action::CantDo => "CantDo"@,
        Action::Dispute => "Dispute"@,
        Action::AdminCancel => "AdminCancel"@,
        Action::AdminCanceled => "AdminCanceled"@,
        Action::AdminSettle => "AdminSettle"@,
        Action::AdminSettled => "AdminSettled"@,
        Action::AdminAddSolver => "AdminAddSolver"@,
        Action::AdminTakeDispute => "AdminTakeDispute"@,
        Action::AdminTookDispute => "AdminTookDispute"@,
        Action::PaymentFailed => "PaymentFailed"@,
        Action::InvoiceUpdated => "InvoiceUpdated"@,
        Action::SendDm => "SendDm"@,
        Action::TradePubkey => "TradePubkey"@,
        Action::RestoreSession => "RestoreSession"@,
        Action::LastTradeIndex => "LastTradeIndex"@,
        Action::Orders => "Orders"@,
        Action::AddCashuEscrow => "AddCashuEscrow"@,
        Action::CashuEscrowLocked => "CashuEscrowLocked"@,
        Action::CashuPmSignature => "CashuPmSignature"@,
    }
}

/// The `Debug` name of an action.
pub fn action_name_str(a: Action) -> (r: &'static str)
    ensures
        r@ == action_name(a),
{
    match a {
        Action::NewOrder => "NewOrder",
        Action::TakeSell => "TakeSell",
        Action::TakeBuy => "TakeBuy",
        Action::PayInvoice => "PayInvoice",
        Action::PayBondInvoice => "PayBondInvoice",
        Action::FiatSent => "FiatSent",
        Action::FiatSentOk => "FiatSentOk",
        Action::Release => "Release",
        Action::Released => "Released",
        Action::Cancel => "Cancel",
        Action::Canceled => "Canceled",
        Action::CooperativeCancelInitiatedByYou => "CooperativeCancelInitiatedByYou",
        Action::CooperativeCancelInitiatedByPeer => "CooperativeCancelInitiatedByPeer",
        Action::DisputeInitiatedByYou => "DisputeInitiatedByYou",
        Action::DisputeInitiatedByPeer => "DisputeInitiatedByPeer",
        Action::CooperativeCancelAccepted => "CooperativeCancelAccepted",
        Action::BuyerInvoiceAccepted => "BuyerInvoiceAccepted",
        Action::BondInvoiceAccepted => "BondInvoiceAccepted",
        Action::PurchaseCompleted => "PurchaseCompleted",
        Action::BondPayoutCompleted => "BondPayoutCompleted",
        Action::BondSlashed => "BondSlashed",
        Action::HoldInvoicePaymentAccepted => "HoldInvoicePaymentAccepted",
        Action::HoldInvoicePaymentSettled => "HoldInvoicePaymentSettled",
        Action::HoldInvoicePaymentCanceled => "HoldInvoicePaymentCanceled",
        Action::WaitingSellerToPay => "WaitingSellerToPay",
        Action::WaitingBuyerInvoice => "WaitingBuyerInvoice",
        Action::AddInvoice => "AddInvoice",
        Action::AddBondInvoice => "AddBondInvoice",
        Action::BuyerTookOrder => "BuyerTookOrder",
        Action::Rate => "Rate",
        Action::RateUser => "RateUser",
        Action::RateReceived => "RateReceived",
        Action::CantDo => "CantDo",
        Action::Dispute => "Dispute",
        Action::AdminCancel => "AdminCancel",
        Action::AdminCanceled => "AdminCanceled",
        Action::AdminSettle => "AdminSettle",
        Action::AdminSettled => "AdminSettled",
        Action::AdminAddSolver => "AdminAddSolver",
        Action::AdminTakeDispute => "AdminTakeDispute",
        Action::AdminTookDispute => "AdminTookDispute",
        Action::PaymentFailed => "PaymentFailed",
        Action::InvoiceUpdated => "InvoiceUpdated",
        Action::SendDm => "SendDm",
        Action::TradePubkey => "TradePubkey",
        Action::RestoreSession => "RestoreSession",
        Action::LastTradeIndex => "LastTradeIndex",
        Action::Orders => "Orders",
        Action::AddCashuEscrow => "AddCashuEscrow",
        Action::CashuEscrowLocked => "CashuEscrowLocked",
        Action::CashuPmSignature => "CashuPmSignature",
    }
}


/// Every status is exactly one of: before the trade is active (pending, awaiting a bond,
/// a payment or the buyer invoice, hold invoice settled), live (active, fiat sent, in
/// dispute, in progress), or ended (success, canceled by a party, by an admin or
/// cooperatively, settled or completed by an admin, expired). A trade that ended other
/// than by success drops its peer chat; one that succeeded keeps it.
pub proof fn status_partition_law(s: OrderStatus)
    ensures
        pre_active_status(s) || terminal_status(s) || (s == OrderStatus::Active || s == OrderStatus::FiatSent
            || s == OrderStatus::Dispute || s == OrderStatus::InProgress),
        !(pre_active_status(s) && terminal_status(s)),
        (s == OrderStatus::Active || s == OrderStatus::FiatSent || s == OrderStatus::Dispute || s
            == OrderStatus::InProgress) ==> !pre_active_status(s) && !terminal_status(s),
        s == OrderStatus::Success ==> terminal_status(s) && !untracks_chat_status(s),
        (s == OrderStatus::Canceled || s == OrderStatus::CanceledByAdmin || s == OrderStatus::SettledByAdmin || s
            == OrderStatus::CompletedByAdmin || s == OrderStatus::Expired || s == OrderStatus::CooperativelyCanceled)
            ==> terminal_status(s) && untracks_chat_status(s),
{
}

} // verus!
