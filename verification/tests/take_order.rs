use nostr_sdk::ToBech32;
use mostrix::admin::{
    build_solver_payload_text, check_add_solver_reply, check_take_dispute_reply, normalize_solver_pubkey, AdminReplyError,
    SolverPermission,
};
use mostrix::order::{Action, OrderKind, OrderStatus, Payload, SmallOrder};
use mostrix::protocol::{
    ensure_fee_for_fixed_take_sell, is_wait_for_dm_timeout, map_take_reply, MappedTakeReply, MessageKind, ResponseError,
    TakeError,
};

fn sample_small_order(id: uuid::Uuid) -> SmallOrder {
    SmallOrder {
        id: Some(id.as_u128()),
        kind: Some(OrderKind::Sell),
        status: Some(OrderStatus::WaitingBuyerInvoice),
        amount: 21_000,
        fiat_code: "USD".to_string(),
        fiat_amount: 100,
        payment_method: "SEPA".to_string(),
        premium: 0,
        ..Default::default()
    }
}

#[test]
fn map_take_reply_add_invoice_order_is_not_success() {
    let order = sample_small_order(uuid::Uuid::new_v4());
    let expected_id = order.id;
    let mapped = match map_take_reply(Action::AddInvoice, &Some(Payload::Order(order))) {
        Ok(m) => m,
        Err(e) => panic!("AddInvoice+Order must map: {}", e.message()),
    };
    match mapped {
        MappedTakeReply::AddInvoice(o) => assert_eq!(o.id, expected_id),
        MappedTakeReply::PaymentRequest { .. } => panic!("must not treat AddInvoice as pay"),
    }
}

#[test]
fn map_take_reply_rejects_new_order_as_take_success() {
    let order = sample_small_order(uuid::Uuid::new_v4());
    let err = match map_take_reply(Action::NewOrder, &Some(Payload::Order(order))) {
        Err(e) => e,
        Ok(_) => panic!("NewOrder must not be a take success"),
    };
    assert!(err.message().contains("Unexpected take-order action"));
}

#[test]
fn map_take_reply_pay_invoice_requires_payment_request() {
    let err = match map_take_reply(Action::PayInvoice, &Some(Payload::Order(sample_small_order(uuid::Uuid::new_v4())))) {
        Err(e) => e,
        Ok(_) => panic!("PayInvoice with Order payload is invalid"),
    };
    assert!(err.message().contains("PaymentRequest"));
}

#[test]
fn map_take_reply_pay_invoice_with_request_maps() {
    let order = sample_small_order(uuid::Uuid::new_v4());
    let payload = Payload::PaymentRequest(Some(order), "lnbc1".to_string(), Some(5));
    match map_take_reply(Action::PayInvoice, &Some(payload)) {
        Ok(MappedTakeReply::PaymentRequest { action, invoice, amount, .. }) => {
            assert_eq!(action, Action::PayInvoice);
            assert_eq!(invoice, "lnbc1");
            assert_eq!(amount, Some(5));
        }
        _ => panic!("payment request must map"),
    }
}

#[test]
fn ensure_fee_for_fixed_take_sell_runs_before_protocol_send() {
    let fixed = sample_small_order(uuid::Uuid::new_v4());
    let err = match ensure_fee_for_fixed_take_sell(Action::TakeSell, &fixed, false) {
        Err(e) => e,
        Ok(()) => panic!("fixed take-sell without fee must abort before reserve/send"),
    };
    assert!(err.message().contains("fee"));
    assert!(matches!(err, TakeError::FeeRequiredForFixedTakeSell));
    assert!(ensure_fee_for_fixed_take_sell(Action::TakeSell, &fixed, true).is_ok());
    let mut range = fixed.duplicate();
    range.amount = 0;
    assert!(ensure_fee_for_fixed_take_sell(Action::TakeSell, &range, false).is_ok());
    assert!(ensure_fee_for_fixed_take_sell(Action::TakeBuy, &fixed, false).is_ok());
}

#[test]
fn wait_for_dm_timeout_is_recognized_for_add_bond_invoice() {
    assert!(is_wait_for_dm_timeout("Timeout waiting for DM or gift wrap event"));
    assert!(!is_wait_for_dm_timeout("DM waiter canceled before receiving an event"));
}

#[test]
fn add_solver_payload_uses_read_suffix_for_read_permission() {
    let npub = "npub1qqq884wtp2jn96lqhqlnarl4kk3rmvrc9z2nmrvqujx3m4l2ea5qd5d0fq";
    let payload = build_solver_payload_text(npub, SolverPermission::Read);
    assert_eq!(payload, format!("{npub}:read"));
}

#[test]
fn add_solver_payload_keeps_default_format_for_read_write_permission() {
    let npub = "npub1qqq884wtp2jn96lqhqlnarl4kk3rmvrc9z2nmrvqujx3m4l2ea5qd5d0fq";
    let payload = build_solver_payload_text(npub, SolverPermission::ReadWrite);
    assert_eq!(payload, npub);
}

#[test]
fn solver_hex_key_becomes_npub_and_junk_is_trimmed() {
    let keys = nostr_sdk::Keys::generate();
    let hex = keys.public_key().to_hex();
    let npub = keys.public_key().to_bech32().unwrap();
    assert_eq!(normalize_solver_pubkey(&format!("  {hex} ")), npub);
    assert_eq!(normalize_solver_pubkey("  not-a-key "), "not-a-key");
}

fn admin_reply(request_id: Option<u64>, action: Action, payload: Option<Payload>) -> MessageKind {
    MessageKind { id: None, request_id, trade_index: None, action, payload }
}

#[test]
fn add_solver_answer_is_checked() {
    let m = "mostro-hex";
    assert_eq!(check_add_solver_reply(None, m, m, 1), Err(AdminReplyError::NoResponse));
    let ok = admin_reply(Some(1), Action::AdminAddSolver, None);
    assert_eq!(check_add_solver_reply(Some(&ok), m, m, 1), Ok(()));
    let err = check_add_solver_reply(Some(&ok), "other", m, 1).unwrap_err();
    assert_eq!(err.message(), "Received response from wrong sender");
    assert_eq!(
        check_add_solver_reply(Some(&ok), m, m, 2),
        Err(AdminReplyError::Response(ResponseError::MismatchedRequestId))
    );
    let other = admin_reply(Some(1), Action::AdminCancel, None);
    let err = check_add_solver_reply(Some(&other), m, m, 1).unwrap_err();
    assert_eq!(err.message(), "Unexpected action in response: AdminCancel");
}

#[test]
fn take_dispute_answer_must_name_the_dispute() {
    let m = "mostro-hex";
    let id = 0x0011_2233_4455_6677_8899_aabb_ccdd_eeffu128;
    let took = admin_reply(None, Action::AdminTookDispute, Some(Payload::Dispute(id, Some(id))));
    assert_eq!(check_take_dispute_reply(Some(&took), m, m, id), Ok(()));
    let other = admin_reply(None, Action::AdminTookDispute, Some(Payload::Dispute(7, Some(8))));
    let err = check_take_dispute_reply(Some(&other), m, m, id).unwrap_err();
    assert_eq!(
        err.message(),
        "Dispute ID mismatch: expected 00112233-4455-6677-8899-aabbccddeeff, got 00000000-0000-0000-0000-000000000008"
    );
    let bare = admin_reply(None, Action::AdminTookDispute, Some(Payload::Dispute(id, None)));
    assert_eq!(check_take_dispute_reply(Some(&bare), m, m, id), Err(AdminReplyError::DisputeInfoMissing));
    let wrong = admin_reply(None, Action::AdminSettled, None);
    let err = check_take_dispute_reply(Some(&wrong), m, m, id).unwrap_err();
    assert_eq!(err.message(), "Received response with mismatched action. Expected: AdminTookDispute, Got: AdminSettled");
    assert_eq!(check_take_dispute_reply(Some(&took), "x", m, id), Err(AdminReplyError::WrongSender));
    assert_eq!(check_take_dispute_reply(None, m, m, id), Err(AdminReplyError::NoResponse));
}
