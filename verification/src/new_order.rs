//! Creating an order: reading the order form, the next trade index, and what Mostro's
//! answer to `NewOrder` means.
use vstd::prelude::*;
use crate::order::{OrderKind, OrderStatus, Payload, SmallOrder, Action, CantDoReason};
use crate::protocol::MessageKind;
use crate::text::{
    ascii_lower, chars_of, is_ascii_text, lower_text, parse_i64_chars, parse_signed64, string_of, trim, trim_chars,
};

verus! {

/// Order kind of a lower-case text: `buy` or `sell`.
pub open spec fn kind_of_lower(l: Seq<char>) -> Option<OrderKind> {
    if l == "buy"@ {
        Some(OrderKind::Buy)
    } else if l == "sell"@ {
        Some(OrderKind::Sell)
    } else {
        None
    }
}

/// Order kind of a text, as `mostro_core::order::Kind::from_str` reads it: the text's
/// lower-case form is `buy` or `sell`.
pub open spec fn kind_from_text(s: Seq<char>) -> Option<OrderKind> {
    kind_of_lower(lower_text(s))
}

/// `mostro_core::order::Kind::from_str`, which lower-cases the text with
/// `str::to_lowercase` and matches `buy` and `sell`. On ASCII text the lower-case form is
/// the ASCII fold.
#[verifier::external_body]
pub(crate) fn parse_order_kind(s: &str) -> (r: Option<OrderKind>)
    ensures
        r == kind_of_lower(lower_text(s@)),
        is_ascii_text(s@) ==> r == kind_of_lower(ascii_lower(s@)),
        s@ == "buy"@ ==> r == Some(OrderKind::Buy),
        s@ == "sell"@ ==> r == Some(OrderKind::Sell),
{
    match <mostro_core::order::Kind as std::str::FromStr>::from_str(s) {
        Ok(mostro_core::order::Kind::Buy) => Some(OrderKind::Buy),
        Ok(mostro_core::order::Kind::Sell) => Some(OrderKind::Sell),
        Err(_) => None,
    }
}

/// Upper-case form of a text by Unicode rules, as `str::to_uppercase` computes it.
pub uninterp spec fn upper_text(s: Seq<char>) -> Seq<char>;

/// `str::to_uppercase`: the Unicode upper-case equivalent of the text. The contract names
/// the result.
#[verifier::external_body]
fn to_uppercase_text(s: &str) -> (r: String)
    ensures
        r@ == upper_text(s@),
{
    s.to_uppercase()
}

/// The fields of the new-order form, as typed.
pub struct NewOrderForm {
    pub kind: String,
    pub fiat_code: String,
    pub amount: String,
    pub fiat_amount: String,
    pub fiat_amount_max: String,
    pub use_range: bool,
    pub payment_method: String,
    pub premium: String,
    pub invoice: String,
    pub expiration_days: String,
}

/// The order the form describes.
pub struct NewOrderDraft {
    pub kind: OrderKind,
    pub fiat_code: String,
    /// Sats; `0` means market price.
    pub amount: i64,
    pub fiat_amount: i64,
    pub min_amount: Option<i64>,
    pub max_amount: Option<i64>,
    pub payment_method: String,
    pub premium: i64,
    pub invoice: Option<String>,
    /// Days until expiry; `0` means no expiry.
    pub expiration_days: i64,
}

/// The kind field does not name a kind.
#[derive(Debug, Clone, Copy, PartialEq, Eq, Structural)]
pub struct InvalidOrderKind;

impl InvalidOrderKind {
    /// The error text.
    pub fn message(&self) -> (r: String)
        ensures
            r@ == "Invalid order kind"@,
    {
        string_of(&chars_of("Invalid order kind"))
    }
}

/// A number field: its trimmed text as `i64`, `0` when it does not parse.
pub open spec fn number_or_zero(s: Seq<char>) -> i64 {
    match parse_signed64(trim(s)) {
        Some(v) => v as i64,
        None => 0,
    }
}

fn field_number(s: &String) -> (r: i64)
    ensures
        r == number_or_zero(s@),
{
    match parse_i64_chars(&trim_chars(&chars_of(s.as_str()))) {
        Some(v) => v,
        None => 0,
    }
}

/// What the form yields: the kind (blank means buy), the fiat code in upper case (blank
/// means USD), the amounts (a range when asked for and a maximum is given), the trimmed
/// payment method, the premium, the invoice when not blank, and the expiry in days.
pub open spec fn form_draft(form: NewOrderForm, d: NewOrderDraft) -> bool {
    let kind_text = trim(form.kind@);
    let range = form.use_range && trim(form.fiat_amount_max@).len() > 0;
    &&& kind_text.len() > 0 ==> kind_from_text(kind_text) == Some(d.kind)
    &&& kind_text.len() == 0 ==> d.kind == OrderKind::Buy
    &&& d.fiat_code@ == if trim(form.fiat_code@).len() == 0 {
        "USD"@
    } else {
        upper_text(trim(form.fiat_code@))
    }
    &&& d.amount == number_or_zero(form.amount@)
    &&& range ==> (d.fiat_amount == 0 && d.min_amount == Some(number_or_zero(form.fiat_amount@))
        && d.max_amount == Some(number_or_zero(form.fiat_amount_max@)))
    &&& !range ==> (d.fiat_amount == number_or_zero(form.fiat_amount@) && d.min_amount is None
        && d.max_amount is None)
    &&& d.payment_method@ == trim(form.payment_method@)
    &&& d.premium == number_or_zero(form.premium@)
    &&& (trim(form.invoice@).len() == 0 <==> d.invoice is None)
    &&& (d.invoice matches Some(i) ==> i@ == trim(form.invoice@))
    &&& d.expiration_days == number_or_zero(form.expiration_days@)
}

/// Read the new-order form. The only refusal is a kind that is neither buy nor sell.
pub fn parse_new_order_form(form: &NewOrderForm) -> (r: Result<NewOrderDraft, InvalidOrderKind>)
    ensures
        match r {
            Ok(d) => form_draft(*form, d),
            Err(_) => trim(form.kind@).len() > 0 && kind_from_text(trim(form.kind@)) is None,
        },
{
    let kind_text = string_of(&trim_chars(&chars_of(form.kind.as_str())));
    let kind = if chars_of(kind_text.as_str()).len() == 0 {
        OrderKind::Buy
    } else {
        match parse_order_kind(kind_text.as_str()) {
            Some(k) => k,
            None => return Err(InvalidOrderKind),
        }
    };
    let fiat_trimmed = string_of(&trim_chars(&chars_of(form.fiat_code.as_str())));
    let fiat_code = if chars_of(fiat_trimmed.as_str()).len() == 0 {
        string_of(&chars_of("USD"))
    } else {
        to_uppercase_text(fiat_trimmed.as_str())
    };
    let amount = field_number(&form.amount);
    let max_trimmed = trim_chars(&chars_of(form.fiat_amount_max.as_str()));
    let (fiat_amount, min_amount, max_amount) = if form.use_range && max_trimmed.len() > 0 {
        (0i64, Some(field_number(&form.fiat_amount)), Some(field_number(&form.fiat_amount_max)))
    } else {
        (field_number(&form.fiat_amount), None, None)
    };
    let payment_method = string_of(&trim_chars(&chars_of(form.payment_method.as_str())));
    let premium = field_number(&form.premium);
    let invoice_trimmed = trim_chars(&chars_of(form.invoice.as_str()));
    let invoice = if invoice_trimmed.len() == 0 {
        None
    } else {
        Some(string_of(&invoice_trimmed))
    };
    let expiration_days = field_number(&form.expiration_days);
    Ok(
        NewOrderDraft {
            kind,
            fiat_code,
            amount,
            fiat_amount,
            min_amount,
            max_amount,
            payment_method,
            premium,
            invoice,
            expiration_days,
        },
    )
}

/// Trade index of a new order: one past the last used (`1` when none was recorded, so the
/// first order uses index `2`).
pub fn next_trade_index(last_trade_index: Option<i64>) -> (r: i64)
    requires
        match last_trade_index {
            Some(l) => l < i64::MAX,
            None => true,
        },
    ensures
        r == match last_trade_index {
            Some(l) => l + 1,
            None => 2,
        },
{
    match last_trade_index {
        Some(l) => l + 1,
        None => 2,
    }
}

/// How Mostro answered a `NewOrder` request.
pub enum NewOrderError {
    CantDo(Option<CantDoReason>),
    UnexpectedAction(Action),
}

/// The order a `NewOrder` answer confirms: Mostro's copy when it sends one, otherwise the
/// order as sent, pending and without id. A `CantDo` or another action is an error.
pub fn new_order_reply_outcome(msg: &MessageKind, sent: &SmallOrder) -> (r: Result<SmallOrder, NewOrderError>)
    ensures
        match msg.payload {
            Some(Payload::CantDo(reason)) => r matches Err(NewOrderError::CantDo(x)) && x == reason,
            Some(Payload::Order(o)) => if msg.action == Action::NewOrder {
                r == Ok::<SmallOrder, NewOrderError>(o)
            } else {
                r matches Err(NewOrderError::UnexpectedAction(a)) && a == msg.action
            },
            _ => if msg.action == Action::NewOrder {
                r == Ok::<SmallOrder, NewOrderError>(
                    SmallOrder { id: None, status: Some(OrderStatus::Pending), ..*sent },
                )
            } else {
                r matches Err(NewOrderError::UnexpectedAction(a)) && a == msg.action
            },
        },
{
    match &msg.payload {
        Some(Payload::CantDo(reason)) => return Err(NewOrderError::CantDo(*reason)),
        _ => {},
    }
    if msg.action != Action::NewOrder {
        return Err(NewOrderError::UnexpectedAction(msg.action));
    }
    match &msg.payload {
        Some(Payload::Order(o)) => Ok(o.duplicate()),
        _ => {
            let mut order = sent.duplicate();
            order.id = None;
            order.status = Some(OrderStatus::Pending);
            Ok(order)
        },
    }
}

} // verus!
