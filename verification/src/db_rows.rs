//! Reading stored order rows: their kind, status and the order snapshot they describe.
use vstd::prelude::*;
use crate::new_order::{kind_from_text, parse_order_kind};
use crate::order::{parse_order_status, status_from_text, OrderKind, OrderRow, OrderStatus, SmallOrder};
use crate::order_book::{parse_uuid, uuid_of_text};

verus! {

/// Kind of a stored row, as mostro-core reads the text.
pub open spec fn row_kind(row: &OrderRow) -> Option<OrderKind> {
    match row.kind {
        Some(k) => kind_from_text(k@),
        None => None,
    }
}

/// Status of a stored row, as mostro-core reads the text.
pub open spec fn row_status_of(row: &OrderRow) -> Option<OrderStatus> {
    match row.status {
        Some(s) => status_from_text(s@),
        None => None,
    }
}

/// The order kind stored in a row; `None` when absent or unreadable.
pub fn order_kind_from_db(row: &OrderRow) -> (r: Option<OrderKind>)
    ensures
        r == row_kind(row),
{
    match &row.kind {
        Some(k) => parse_order_kind(k.as_str()),
        None => None,
    }
}

/// The order status stored in a row; `None` when absent or unreadable.
pub fn status_from_db(row: &OrderRow) -> (r: Option<OrderStatus>)
    ensures
        r == row_status_of(row),
{
    match &row.status {
        Some(s) => parse_order_status(s.as_str()),
        None => None,
    }
}

fn copy_opt_text(s: &Option<String>) -> (r: Option<String>)
    ensures
        match (r, *s) {
            (Some(a), Some(b)) => a@ == b@,
            (None, None) => true,
            _ => false,
        },
{
    match s {
        Some(v) => Some(v.clone()),
        None => None,
    }
}

/// The trade-card snapshot of a stored row: id, kind and status read from their texts
/// (unreadable ones dropped), amounts, fiat, method, premium, invoice and times copied;
/// no trade pubkeys.
pub open spec fn row_snapshot(row: &OrderRow, o: SmallOrder) -> bool {
    &&& o.id == match row.id {
        Some(t) => uuid_of_text(t@),
        None => None,
    }
    &&& o.kind == row_kind(row)
    &&& o.status == row_status_of(row)
    &&& o.amount == row.amount
    &&& o.fiat_code@ == row.fiat_code@
    &&& o.min_amount == row.min_amount
    &&& o.max_amount == row.max_amount
    &&& o.fiat_amount == row.fiat_amount
    &&& o.payment_method@ == row.payment_method@
    &&& o.premium == row.premium
    &&& o.buyer_trade_pubkey is None
    &&& o.seller_trade_pubkey is None
    &&& match (o.buyer_invoice, row.buyer_invoice) {
        (Some(a), Some(b)) => a@ == b@,
        (None, None) => true,
        _ => false,
    }
    &&& o.created_at == row.created_at
    &&& o.expires_at == row.expires_at
}

/// Build the order snapshot of a stored row.
pub fn small_order_from_db_order(row: &OrderRow) -> (r: SmallOrder)
    ensures
        row_snapshot(row, r),
{
    let id = match &row.id {
        Some(t) => parse_uuid(t.as_str()),
        None => None,
    };
    SmallOrder {
        id,
        kind: order_kind_from_db(row),
        status: status_from_db(row),
        amount: row.amount,
        fiat_code: row.fiat_code.clone(),
        min_amount: row.min_amount,
        max_amount: row.max_amount,
        fiat_amount: row.fiat_amount,
        payment_method: row.payment_method.clone(),
        premium: row.premium,
        buyer_trade_pubkey: None,
        seller_trade_pubkey: None,
        buyer_invoice: copy_opt_text(&row.buyer_invoice),
        created_at: row.created_at,
        expires_at: row.expires_at,
    }
}

} // verus!
