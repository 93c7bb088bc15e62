//! How the UI takes an operation result: whether it opens an invoice popup, updates the
//! observer view, is shown at once, or waits behind an open invoice popup; and the texts
//! and index clamps that go with it.
use vstd::prelude::*;
use crate::active_orders::ActiveOrders;
use crate::order::Action;
use crate::text::{append_str, chars_of, string_of};

verus! {

/// The kind of an operation result handed to the UI.
#[derive(Debug, Clone, Copy, PartialEq, Eq, Structural)]
pub enum ResultKind {
    /// A trade closed; shown as information.
    TradeClosed,
    /// Order history rows were deleted; shown as information.
    OrderHistoryDeleted,
    /// A payout invoice was submitted; shown as information.
    InvoiceSubmitted,
    /// A chat attachment was sent; shown as information.
    AttachmentSent,
    /// A chat attachment was uploaded but not sent; shown as an error.
    AttachmentSendFailed,
    /// An order was created or taken.
    Success,
    /// A hold invoice must be paid (trade escrow or bond).
    PaymentRequestRequired(Action),
    /// A take-sell reply asks for the payout invoice.
    OpenInvoicePopup,
    ObserverChatLoaded,
    ObserverChatError,
    Error,
    Info,
    SessionRestored,
}

/// The screen the UI is on when a result arrives.
#[derive(Debug, Clone, Copy, PartialEq, Eq, Structural)]
pub enum ModeKind {
    WaitingTakeOrder,
    WaitingAddInvoice,
    /// A DM notification popup for this action.
    NewMessageNotification(Action),
    ConfirmSavedLnAddressForInvoice,
    Other,
}

/// What becomes of a result.
#[derive(Debug, Clone, Copy, PartialEq, Eq, Structural)]
pub enum ResultPlacement {
    /// Open the payout-invoice popup.
    OpenInvoicePopup,
    /// Open the pay-invoice popup for this action.
    PaymentRequestPopup(Action),
    /// Update the observer tab without a popup.
    ObserverView,
    /// Show the observer error.
    ObserverErrorPopup,
    /// Show the result popup now.
    ShowNow,
    /// Keep the result until the open invoice popup closes.
    Defer,
}

/// Invoice popups that a late result must not cover.
pub open spec fn invoice_popup_action(a: Action) -> bool {
    a == Action::AddInvoice || a == Action::AddBondInvoice || a == Action::PayInvoice
        || a == Action::PayBondInvoice
}

/// Where a result goes: invoice popups and the observer view are handled first; other
/// results are shown now, except over an invoice popup or the saved-address confirmation,
/// where they wait.
pub open spec fn placement_of(kind: ResultKind, mode: ModeKind) -> ResultPlacement {
    match kind {
        ResultKind::OpenInvoicePopup => ResultPlacement::OpenInvoicePopup,
        ResultKind::PaymentRequestRequired(a) => ResultPlacement::PaymentRequestPopup(a),
        ResultKind::ObserverChatLoaded => ResultPlacement::ObserverView,
        ResultKind::ObserverChatError => ResultPlacement::ObserverErrorPopup,
        _ => match mode {
            ModeKind::NewMessageNotification(a) => if invoice_popup_action(a) {
                ResultPlacement::Defer
            } else {
                ResultPlacement::ShowNow
            },
            ModeKind::ConfirmSavedLnAddressForInvoice => ResultPlacement::Defer,
            _ => ResultPlacement::ShowNow,
        },
    }
}

/// Decide where a result goes.
pub fn result_placement(kind: ResultKind, mode: ModeKind) -> (r: ResultPlacement)
    ensures
        r == placement_of(kind, mode),
{
    match kind {
        ResultKind::OpenInvoicePopup => ResultPlacement::OpenInvoicePopup,
        ResultKind::PaymentRequestRequired(a) => ResultPlacement::PaymentRequestPopup(a),
        ResultKind::ObserverChatLoaded => ResultPlacement::ObserverView,
        ResultKind::ObserverChatError => ResultPlacement::ObserverErrorPopup,
        _ => match mode {
            ModeKind::NewMessageNotification(a) => {
                if a == Action::AddInvoice || a == Action::AddBondInvoice || a == Action::PayInvoice
                    || a == Action::PayBondInvoice {
                    ResultPlacement::Defer
                } else {
                    ResultPlacement::ShowNow
                }
            },
            ModeKind::ConfirmSavedLnAddressForInvoice => ResultPlacement::Defer,
            _ => ResultPlacement::ShowNow,
        },
    }
}

/// Whether a result clears the "sending attachment" marker: any error does, as does a
/// finished send either way.
pub fn clears_attachment_sending(kind: ResultKind) -> (r: bool)
    ensures
        r == (kind == ResultKind::Error || kind == ResultKind::AttachmentSent || kind
            == ResultKind::AttachmentSendFailed),
{
    match kind {
        ResultKind::Error | ResultKind::AttachmentSent | ResultKind::AttachmentSendFailed => true,
        _ => false,
    }
}

/// Preview line of the pay-invoice popup: the bond or the trade escrow.
pub fn payment_request_preview(action: Action) -> (r: &'static str)
    ensures
        r@ == if action == Action::PayBondInvoice {
            "Bond Invoice"@
        } else {
            "Payment Request"@
        },
{
    if action == Action::PayBondInvoice {
        "Bond Invoice"
    } else {
        "Payment Request"
    }
}

/// The error shown when an uploaded attachment could not be sent in the chat.
pub fn attachment_send_failed_message(filename: &str, url: &str, error: &str) -> (r: String)
    ensures
        r@ == "Uploaded "@ + filename@ + " to Blossom ("@ + url@ + ") but chat send failed: "@ + error@
            + ". Press Ctrl+Shift+O to retry send without re-uploading."@,
{
    let mut v = chars_of("Uploaded ");
    append_str(&mut v, filename);
    append_str(&mut v, " to Blossom (");
    append_str(&mut v, url);
    append_str(&mut v, ") but chat send failed: ");
    append_str(&mut v, error);
    append_str(&mut v, ". Press Ctrl+Shift+O to retry send without re-uploading.");
    string_of(&v)
}

/// A list selection kept in range after rows were removed: zero for an empty list,
/// otherwise at most the last row.
pub fn clamp_selected_index(selected: usize, n: usize) -> (r: usize)
    ensures
        r == if n == 0 {
            0
        } else if selected >= n {
            (n - 1) as usize
        } else {
            selected
        },
        n > 0 ==> r < n,
{
    if n == 0 {
        0
    } else if selected >= n {
        n - 1
    } else {
        selected
    }
}

/// What the Messages tab's rules read of a row: the order it belongs to and whether its
/// popup was already opened automatically.
#[derive(Debug, Clone, Copy, PartialEq, Eq, Structural)]
pub struct MessageRow {
    pub order_id: Option<u128>,
    pub auto_popup_shown: bool,
}

/// Index of the first row of `order_id`.
pub open spec fn first_row_of(rows: Seq<MessageRow>, order_id: u128) -> int
    decreases rows.len(),
{
    if rows.len() == 0 {
        -1
    } else {
        let k = first_row_of(rows.drop_last(), order_id);
        if k >= 0 {
            k
        } else if rows.last().order_id == Some(order_id) {
            rows.len() - 1
        } else {
            -1
        }
    }
}

proof fn lemma_first_row(rows: Seq<MessageRow>, order_id: u128)
    ensures
        -1 <= first_row_of(rows, order_id) < rows.len(),
        first_row_of(rows, order_id) >= 0 ==> rows[first_row_of(rows, order_id)].order_id == Some(order_id),
        forall|j: int| 0 <= j < rows.len() && (first_row_of(rows, order_id) < 0 || j < first_row_of(rows, order_id))
            ==> #[trigger] rows[j].order_id != Some(order_id),
    decreases rows.len(),
{
    if rows.len() > 0 {
        let p = rows.drop_last();
        lemma_first_row(p, order_id);
        assert forall|j: int| 0 <= j < p.len() implies #[trigger] rows[j] == p[j] by {}
    }
}

/// A notification at `timestamp` is historical for an order whose startup popup floor
/// is at or after it.
pub open spec fn before_startup_floor(timestamp: i64, startup_floor_ts: Option<i64>) -> bool {
    match startup_floor_ts {
        Some(f) => timestamp <= f,
        None => false,
    }
}

/// Whether a notification opens its popup automatically. One without an order always
/// does. For an order it does not, and no row changes, when the notification is no
/// later than the order's startup popup floor (a replayed, historical one), when the
/// invoice-popup rules do not allow the popup for the order's status, or when the local
/// user is not the party who must act; otherwise it does only the first time, which
/// marks the order's (first) row as shown. `allowed_for_status` and `local_user_must_act`
/// are what those rules say of the order's row. The listener adds the row before it
/// notifies, so the row exists.
pub fn claim_auto_popup(
    rows: &mut Vec<MessageRow>,
    order_id: Option<u128>,
    timestamp: i64,
    startup_floor_ts: Option<i64>,
    allowed_for_status: bool,
    local_user_must_act: bool,
) -> (r: bool)
    requires
        order_id is Some && !before_startup_floor(timestamp, startup_floor_ts) ==> first_row_of(
            old(rows)@,
            order_id->0,
        ) >= 0,
    ensures
        match order_id {
            None => r && final(rows)@ == old(rows)@,
            Some(id) => if before_startup_floor(timestamp, startup_floor_ts) || !allowed_for_status
                || !local_user_must_act {
                !r && final(rows)@ == old(rows)@
            } else {
                let k = first_row_of(old(rows)@, id);
                &&& r == !old(rows)@[k].auto_popup_shown
                &&& final(rows)@ == old(rows)@.update(k, MessageRow { auto_popup_shown: true, ..old(rows)@[k] })
            },
        },
{
    let id = match order_id {
        Some(id) => id,
        None => return true,
    };
    match startup_floor_ts {
        Some(f) => if timestamp <= f {
            return false;
        },
        None => {},
    }
    if !allowed_for_status || !local_user_must_act {
        return false;
    }
    proof {
        lemma_first_row(rows@, id);
    }
    let ghost k = first_row_of(rows@, id);
    let mut i: usize = 0;
    while i < rows.len() && rows[i].order_id != Some(id)
        invariant
            0 <= k < rows.len(),
            i <= k,
            rows[k].order_id == Some(id),
            forall|j: int| 0 <= j < k ==> #[trigger] rows@[j].order_id != Some(id),
        decreases rows.len() - i,
    {
        i = i + 1;
    }
    assert(i == k);
    let shown = rows[i].auto_popup_shown;
    if shown {
        assert(rows@.update(i as int, MessageRow { auto_popup_shown: true, ..rows@[i as int] }) =~= rows@);
        false
    } else {
        let flag = MessageRow { order_id: rows[i].order_id, auto_popup_shown: true };
        rows.set(i, flag);
        true
    }
}

/// `rows` without the rows of `order_id`, in order.
pub open spec fn rows_without(rows: Seq<MessageRow>, order_id: u128) -> Seq<MessageRow>
    decreases rows.len(),
{
    if rows.len() == 0 {
        Seq::empty()
    } else if rows.last().order_id == Some(order_id) {
        rows_without(rows.drop_last(), order_id)
    } else {
        rows_without(rows.drop_last(), order_id).push(rows.last())
    }
}

/// `ids` without `order_id`, in order.
pub open spec fn ids_without(ids: Seq<u128>, order_id: u128) -> Seq<u128>
    decreases ids.len(),
{
    if ids.len() == 0 {
        Seq::empty()
    } else if ids.last() == order_id {
        ids_without(ids.drop_last(), order_id)
    } else {
        ids_without(ids.drop_last(), order_id).push(ids.last())
    }
}

fn drop_rows(rows: &mut Vec<MessageRow>, order_id: u128)
    ensures
        final(rows)@ == rows_without(old(rows)@, order_id),
{
    let mut kept: Vec<MessageRow> = Vec::new();
    let mut i: usize = 0;
    while i < rows.len()
        invariant
            i <= rows.len(),
            kept@ == rows_without(rows@.subrange(0, i as int), order_id),
        decreases rows.len() - i,
    {
        proof {
            assert(rows@.subrange(0, i + 1).drop_last() =~= rows@.subrange(0, i as int));
        }
        if rows[i].order_id != Some(order_id) {
            kept.push(rows[i]);
        }
        i = i + 1;
    }
    proof {
        assert(rows@.subrange(0, rows.len() as int) =~= rows@);
    }
    *rows = kept;
}

fn drop_id(ids: &mut Vec<u128>, order_id: u128)
    ensures
        final(ids)@ == ids_without(old(ids)@, order_id),
{
    let mut kept: Vec<u128> = Vec::new();
    let mut i: usize = 0;
    while i < ids.len()
        invariant
            i <= ids.len(),
            kept@ == ids_without(ids@.subrange(0, i as int), order_id),
        decreases ids.len() - i,
    {
        proof {
            assert(ids@.subrange(0, i + 1).drop_last() =~= ids@.subrange(0, i as int));
        }
        if ids[i] != order_id {
            kept.push(ids[i]);
        }
        i = i + 1;
    }
    proof {
        assert(ids@.subrange(0, ids.len() as int) =~= ids@);
    }
    *ids = kept;
}

/// Forget a closed trade: its Messages rows, its live DM route, its pinned chat header and
/// its remembered invoice choice (given as the orders that have one).
pub fn close_trade(
    rows: &mut Vec<MessageRow>,
    routes: &mut ActiveOrders,
    chat_headers: &mut Vec<u128>,
    invoice_choices: &mut Vec<u128>,
    order_id: u128,
)
    ensures
        final(rows)@ == rows_without(old(rows)@, order_id),
        final(routes)@ == old(routes)@.remove(order_id),
        final(chat_headers)@ == ids_without(old(chat_headers)@, order_id),
        final(invoice_choices)@ == ids_without(old(invoice_choices)@, order_id),
{
    drop_rows(rows, order_id);
    routes.remove(order_id);
    drop_id(chat_headers, order_id);
    drop_id(invoice_choices, order_id);
}

/// Nothing of a closed trade is left: no row, route, chat header or invoice choice names
/// it, and what belonged to other orders is kept.
pub proof fn close_trade_law(rows: Seq<MessageRow>, ids: Seq<u128>, order_id: u128)
    ensures
        forall|i: int| 0 <= i < rows_without(rows, order_id).len() ==> (#[trigger] rows_without(rows, order_id)[i]).order_id
            != Some(order_id),
        forall|i: int| 0 <= i < ids_without(ids, order_id).len() ==> #[trigger] ids_without(ids, order_id)[i] != order_id,
        forall|r: MessageRow| rows.contains(r) && r.order_id != Some(order_id) ==> #[trigger] rows_without(rows, order_id).contains(r),
        forall|k: u128| ids.contains(k) && k != order_id ==> #[trigger] ids_without(ids, order_id).contains(k),
    decreases rows.len() + ids.len(),
{
    if rows.len() > 0 {
        close_trade_law(rows.drop_last(), ids, order_id);
        let p = rows.drop_last();
        let w = rows_without(p, order_id);
        assert forall|r: MessageRow| rows.contains(r) && r.order_id != Some(order_id) implies #[trigger] rows_without(rows, order_id).contains(r) by {
            let j = choose|j: int| 0 <= j < rows.len() && rows[j] == r;
            if j < rows.len() - 1 {
                assert(p[j] == r);
                assert(p.contains(r));
            } else {
                assert(rows_without(rows, order_id) == w.push(r));
                assert(w.push(r)[w.len() as int] == r);
            }
            if rows.last().order_id != Some(order_id) {
                let q = w.push(rows.last());
                assert(rows_without(rows, order_id) == q);
                if w.contains(r) {
                    let m = choose|m: int| 0 <= m < w.len() && w[m] == r;
                    assert(q[m] == r);
                }
            }
        }
    }
    if ids.len() > 0 {
        close_trade_law(rows, ids.drop_last(), order_id);
        let p = ids.drop_last();
        let w = ids_without(p, order_id);
        assert forall|k: u128| ids.contains(k) && k != order_id implies #[trigger] ids_without(ids, order_id).contains(k) by {
            let j = choose|j: int| 0 <= j < ids.len() && ids[j] == k;
            if j < ids.len() - 1 {
                assert(p[j] == k);
                assert(p.contains(k));
            } else {
                assert(ids_without(ids, order_id) == w.push(k));
                assert(w.push(k)[w.len() as int] == k);
            }
            if ids.last() != order_id {
                let q = w.push(ids.last());
                if w.contains(k) {
                    let m = choose|m: int| 0 <= m < w.len() && w[m] == k;
                    assert(q[m] == k);
                }
            }
        }
    }
}

} // verus!
