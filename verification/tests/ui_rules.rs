use mostrix::active_orders::ActiveOrders;
use mostrix::order::Action;
use mostrix::ui_rules::{
    attachment_send_failed_message, claim_auto_popup, close_trade, MessageRow, clamp_selected_index, clears_attachment_sending, payment_request_preview,
    result_placement, ModeKind, ResultKind, ResultPlacement,
};

#[test]
fn late_results_wait_behind_invoice_popups() {
    for a in [Action::AddInvoice, Action::AddBondInvoice, Action::PayInvoice, Action::PayBondInvoice] {
        assert_eq!(result_placement(ResultKind::Success, ModeKind::NewMessageNotification(a)), ResultPlacement::Defer);
    }
    assert_eq!(
        result_placement(ResultKind::Info, ModeKind::NewMessageNotification(Action::FiatSentOk)),
        ResultPlacement::ShowNow
    );
    assert_eq!(result_placement(ResultKind::Error, ModeKind::ConfirmSavedLnAddressForInvoice), ResultPlacement::Defer);
    assert_eq!(result_placement(ResultKind::Success, ModeKind::WaitingTakeOrder), ResultPlacement::ShowNow);
}

#[test]
fn popups_and_observer_results_are_routed_first() {
    assert_eq!(
        result_placement(ResultKind::PaymentRequestRequired(Action::PayBondInvoice), ModeKind::Other),
        ResultPlacement::PaymentRequestPopup(Action::PayBondInvoice)
    );
    assert_eq!(
        result_placement(ResultKind::OpenInvoicePopup, ModeKind::ConfirmSavedLnAddressForInvoice),
        ResultPlacement::OpenInvoicePopup
    );
    assert_eq!(result_placement(ResultKind::ObserverChatLoaded, ModeKind::Other), ResultPlacement::ObserverView);
    assert_eq!(result_placement(ResultKind::ObserverChatError, ModeKind::Other), ResultPlacement::ObserverErrorPopup);
}

#[test]
fn invoice_popup_preview_names_bond_or_payment() {
    assert_eq!(payment_request_preview(Action::PayBondInvoice), "Bond Invoice");
    assert_eq!(payment_request_preview(Action::PayInvoice), "Payment Request");
}

#[test]
fn attachment_results_clear_the_sending_marker() {
    assert!(clears_attachment_sending(ResultKind::Error));
    assert!(clears_attachment_sending(ResultKind::AttachmentSent));
    assert!(!clears_attachment_sending(ResultKind::Info));
    assert_eq!(
        attachment_send_failed_message("a.png", "https://b/x", "timeout"),
        "Uploaded a.png to Blossom (https://b/x) but chat send failed: timeout. Press Ctrl+Shift+O to retry send without re-uploading."
    );
}

#[test]
fn selection_is_clamped_to_remaining_rows() {
    assert_eq!(clamp_selected_index(5, 0), 0);
    assert_eq!(clamp_selected_index(5, 3), 2);
    assert_eq!(clamp_selected_index(1, 3), 1);
}

#[test]
fn auto_popup_opens_once_per_order() {
    let mut rows = vec![
        MessageRow { order_id: Some(1), auto_popup_shown: false },
        MessageRow { order_id: Some(2), auto_popup_shown: true },
        MessageRow { order_id: Some(1), auto_popup_shown: false },
    ];
    assert!(claim_auto_popup(&mut rows, Some(1), 50, None, true, true));
    assert!(rows[0].auto_popup_shown);
    assert!(!rows[2].auto_popup_shown);
    assert!(!claim_auto_popup(&mut rows, Some(1), 60, None, true, true));
    assert!(!claim_auto_popup(&mut rows, Some(2), 60, None, true, true));
    assert!(claim_auto_popup(&mut rows, None, 60, Some(100), false, false));
}

#[test]
fn auto_popup_is_suppressed_before_any_row_change() {
    let fresh = || vec![MessageRow { order_id: Some(7), auto_popup_shown: false }];
    let mut rows = fresh();
    assert!(!claim_auto_popup(&mut rows, Some(7), 100, Some(100), true, true));
    assert_eq!(rows, fresh());
    assert!(!claim_auto_popup(&mut rows, Some(7), 101, Some(100), false, true));
    assert_eq!(rows, fresh());
    assert!(!claim_auto_popup(&mut rows, Some(7), 101, Some(100), true, false));
    assert_eq!(rows, fresh());
    assert!(claim_auto_popup(&mut rows, Some(7), 101, Some(100), true, true));
    assert!(rows[0].auto_popup_shown);
    let mut none: Vec<MessageRow> = vec![];
    assert!(!claim_auto_popup(&mut none, Some(9), 5, Some(10), true, true));
}

#[test]
fn closing_a_trade_forgets_everything_of_that_order() {
    let mut rows = vec![
        MessageRow { order_id: Some(1), auto_popup_shown: false },
        MessageRow { order_id: Some(2), auto_popup_shown: true },
        MessageRow { order_id: None, auto_popup_shown: false },
        MessageRow { order_id: Some(1), auto_popup_shown: true },
    ];
    let mut routes = ActiveOrders::new();
    routes.insert(1, 4);
    routes.insert(2, 5);
    let mut headers = vec![1, 2];
    let mut choices = vec![2, 1, 1];
    close_trade(&mut rows, &mut routes, &mut headers, &mut choices, 1);
    assert_eq!(rows, vec![MessageRow { order_id: Some(2), auto_popup_shown: true }, MessageRow { order_id: None, auto_popup_shown: false }]);
    assert_eq!(routes.get(1), None);
    assert_eq!(routes.get(2), Some(5));
    assert_eq!(headers, vec![2]);
    assert_eq!(choices, vec![2]);
}
