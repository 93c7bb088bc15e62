use mostrix::order::{
    is_minimal_placeholder, restored_order_role, Action, OrderKind, OrderRow, OrderStatus, Payload,
    RestoreSessionInfo, RestoredDisputeInfo, RestoredOrderInfo, RestoredRole, SmallOrder,
};
use mostrix::protocol::MessageKind;
use mostrix::restore::{
    is_maker_from_mostro_details, keep_local_buyer_invoice, restore_completion_result, restore_data_from_reply,
    restore_max_trade_index, restore_tracks_order, restored_role_of, restored_small_order,
    should_advance_last_trade_index, summarize_orders_info, tally_restore, OrdersInfoSummary, RefreshOutcome,
    RestoreCompletion, RestoreError, RestoreSummary, RestoredAs,
};
use nostr_sdk::Keys;

fn sample_small_order(kind: OrderKind, buyer_hex: &str, seller_hex: &str) -> SmallOrder {
    SmallOrder {
        id: Some(uuid::Uuid::new_v4().as_u128()),
        kind: Some(kind),
        buyer_trade_pubkey: Some(buyer_hex.to_string()),
        seller_trade_pubkey: Some(seller_hex.to_string()),
        fiat_code: "USD".to_string(),
        ..Default::default()
    }
}

fn key_bytes(keys: &Keys) -> Vec<u8> {
    keys.public_key().to_bytes().to_vec()
}

#[test]
fn is_maker_from_mostro_details_matches_buyer_on_buy_order() {
    let trade_keys = Keys::generate();
    let order = sample_small_order(
        OrderKind::Buy,
        &trade_keys.public_key().to_string(),
        &Keys::generate().public_key().to_string(),
    );
    assert_eq!(is_maker_from_mostro_details(&order, &key_bytes(&trade_keys)), Some(true));
}

#[test]
fn is_maker_from_mostro_details_matches_seller_on_sell_order() {
    let trade_keys = Keys::generate();
    let order = sample_small_order(
        OrderKind::Sell,
        &Keys::generate().public_key().to_string(),
        &trade_keys.public_key().to_string(),
    );
    assert_eq!(is_maker_from_mostro_details(&order, &key_bytes(&trade_keys)), Some(true));
}

#[test]
fn is_maker_from_mostro_details_taker_when_buyer_on_sell_order() {
    let trade_keys = Keys::generate();
    let order = sample_small_order(
        OrderKind::Sell,
        &trade_keys.public_key().to_string(),
        &Keys::generate().public_key().to_string(),
    );
    assert_eq!(is_maker_from_mostro_details(&order, &key_bytes(&trade_keys)), Some(false));
}

#[test]
fn is_maker_from_mostro_details_unknown_for_strangers_and_bad_keys() {
    let trade_keys = Keys::generate();
    let order = sample_small_order(
        OrderKind::Buy,
        &Keys::generate().public_key().to_string(),
        &Keys::generate().public_key().to_string(),
    );
    assert_eq!(is_maker_from_mostro_details(&order, &key_bytes(&trade_keys)), None);
    let bad = sample_small_order(OrderKind::Buy, "not-a-key", &trade_keys.public_key().to_hex());
    assert_eq!(is_maker_from_mostro_details(&bad, &key_bytes(&trade_keys)), None);
    let empty = sample_small_order(OrderKind::Buy, "", &trade_keys.public_key().to_hex());
    assert_eq!(is_maker_from_mostro_details(&empty, &key_bytes(&trade_keys)), None);
}

#[test]
fn successful_restore_emits_session_restored_not_info() {
    let summary = RestoreSummary { restored: 2, ..Default::default() };
    let expected = summary.to_user_message();
    match restore_completion_result(&Ok(summary)) {
        RestoreCompletion::SessionRestored { message } => assert_eq!(message, expected),
        RestoreCompletion::Error(m) => panic!("expected SessionRestored, got Error({m})"),
    }
}

#[test]
fn failed_restore_emits_an_error_result() {
    match restore_completion_result(&Err("boom".to_string())) {
        RestoreCompletion::Error(message) => assert!(message.contains("boom")),
        RestoreCompletion::SessionRestored { message } => panic!("expected Error, got {message}"),
    }
}

#[test]
fn summary_message_covers_the_happy_path() {
    let s = RestoreSummary { restored: 3, already_known: 1, disputes: 1, ..Default::default() };
    assert_eq!(
        s.to_user_message(),
        "Session restored: 3 order(s) recovered, 1 already known, 1 dispute(s)."
    );
}

#[test]
fn maker_is_inferred_only_from_maker_exclusive_statuses() {
    assert_eq!(restored_order_role(Some(OrderStatus::Pending)), RestoredRole::Maker);
    assert_eq!(restored_order_role(Some(OrderStatus::WaitingMakerBond)), RestoredRole::Maker);
    assert_eq!(restored_order_role(Some(OrderStatus::Active)), RestoredRole::UnknownAsTaker);
    assert_eq!(restored_order_role(Some(OrderStatus::FiatSent)), RestoredRole::UnknownAsTaker);
    assert_eq!(restored_order_role(None), RestoredRole::UnknownAsTaker);
}

#[test]
fn placeholder_rows_are_detected_by_their_empty_fiat_code() {
    let mut order = OrderRow {
        id: Some("x".into()),
        kind: None,
        status: None,
        amount: 0,
        fiat_code: String::new(),
        min_amount: None,
        max_amount: None,
        fiat_amount: 0,
        payment_method: String::new(),
        premium: 0,
        trade_keys: None,
        counterparty_pubkey: None,
        order_chat_shared_key_hex: None,
        dispute_id: None,
        solver_pubkey: None,
        dispute_chat_shared_key_hex: None,
        is_mine: false,
        buyer_invoice: None,
        request_id: None,
        trade_index: Some(1),
        created_at: None,
        expires_at: None,
        last_seen_dm_ts: None,
    };
    assert!(is_minimal_placeholder(&order));
    order.fiat_code = "EUR".into();
    assert!(!is_minimal_placeholder(&order));
    order.fiat_code = "  ".into();
    assert!(is_minimal_placeholder(&order));
}

#[test]
fn summary_message_reports_dispute_status_failures() {
    let s = RestoreSummary { disputes: 2, dispute_status_failed: 1, ..Default::default() }.to_user_message();
    assert!(s.contains("1 dispute(s) could not be marked locally"));
    assert!(!RestoreSummary::default().to_user_message().contains("could not be marked"));
}

#[test]
fn summary_message_reports_unknown_roles() {
    let s = RestoreSummary { restored: 2, role_unknown: 2, ..Default::default() }.to_user_message();
    assert!(s.contains("2 order(s) restored with unknown maker/taker role"));
    assert!(!RestoreSummary::default().to_user_message().contains("maker/taker"));
}

#[test]
fn summary_message_mentions_missing_details_and_failures_only_when_present() {
    let clean = RestoreSummary::default().to_user_message();
    assert!(!clean.contains("relay details"));
    assert!(!clean.contains("could not be saved"));
    let bumpy = RestoreSummary { restored: 2, missing_details: 1, failed: 1, ..Default::default() }.to_user_message();
    assert!(bumpy.contains("1 order(s) had no relay details"));
    assert!(bumpy.contains("1 order(s) could not be saved"));
}

#[test]
fn summary_message_reports_failures_only_when_present() {
    assert_eq!(
        OrdersInfoSummary { refreshed: 2, ..Default::default() }.to_user_message(),
        "Refreshed 2 order(s) from Mostro."
    );
    let bumpy = OrdersInfoSummary { refreshed: 1, superseded: 1, failed: 2, ..Default::default() }.to_user_message();
    assert!(bumpy.contains("Refreshed 1 order(s)"));
    assert!(bumpy.contains("1 already had a newer update"));
    assert!(bumpy.contains("2 could not be refreshed"));
}

fn restore_msg(action: Action, payload: Option<Payload>) -> MessageKind {
    MessageKind { id: None, request_id: None, trade_index: None, action, payload }
}

fn restore_info(order_indices: &[i64], dispute_indices: &[i64]) -> RestoreSessionInfo {
    RestoreSessionInfo {
        restore_orders: order_indices
            .iter()
            .map(|i| RestoredOrderInfo { order_id: *i as u128, trade_index: *i, status: "active".to_string() })
            .collect(),
        restore_disputes: dispute_indices
            .iter()
            .map(|i| RestoredDisputeInfo {
                dispute_id: 1,
                order_id: 2,
                trade_index: *i,
                status: "initiated".to_string(),
                solver_pubkey: None,
            })
            .collect(),
    }
}

#[test]
fn restored_role_guesses_from_status_without_details() {
    let me = key_bytes(&Keys::generate());
    let pending = SmallOrder { status: Some(OrderStatus::Pending), ..Default::default() };
    assert_eq!(restored_role_of(&pending, &me), (true, false));
    let active = SmallOrder { status: Some(OrderStatus::Active), ..Default::default() };
    assert_eq!(restored_role_of(&active, &me), (false, true));
    let keys = Keys::generate();
    let order = sample_small_order(OrderKind::Buy, &keys.public_key().to_hex(), &Keys::generate().public_key().to_hex());
    assert_eq!(restored_role_of(&order, &key_bytes(&keys)), (true, false));
}

#[test]
fn restored_order_prefers_mostro_details_and_its_status() {
    let detail = SmallOrder { amount: 10, status: Some(OrderStatus::Pending), ..Default::default() };
    let relay = SmallOrder { amount: 20, ..Default::default() };
    let (o, found) = restored_small_order(Some(detail), Some(relay.duplicate()), 42, "active");
    assert!(found);
    assert_eq!((o.id, o.amount, o.status), (Some(42), 10, Some(OrderStatus::Active)));
    let (o, found) = restored_small_order(None, Some(relay), 43, "nonsense");
    assert!(found);
    assert_eq!((o.id, o.amount, o.status), (Some(43), 20, None));
    let (o, found) = restored_small_order(None, None, 44, "success");
    assert!(!found);
    assert_eq!((o.id, o.amount, o.status), (Some(44), 0, Some(OrderStatus::Success)));
}

#[test]
fn restore_tally_counts_every_outcome() {
    let outcomes = vec![
        RestoredAs::Inserted { with_details: true, role_unknown: false },
        RestoredAs::Inserted { with_details: false, role_unknown: true },
        RestoredAs::AlreadyKnown,
        RestoredAs::Failed,
    ];
    let s = tally_restore(&outcomes, 2, &vec![true, false]);
    assert_eq!(
        (s.restored, s.already_known, s.missing_details, s.role_unknown, s.failed, s.disputes, s.dispute_status_failed),
        (2, 1, 1, 1, 1, 2, 1)
    );
}

#[test]
fn restore_answer_is_checked_before_use() {
    let mostro = "mostro-key";
    assert!(matches!(restore_data_from_reply(None, mostro, mostro), Err(RestoreError::NoResponse)));
    let good = restore_msg(Action::RestoreSession, Some(Payload::RestoreData(restore_info(&[3], &[]))));
    match restore_data_from_reply(Some(&good), "someone-else", mostro) {
        Err(e @ RestoreError::WrongSender(_)) => {
            assert_eq!(e.message(), "Restore response signed by someone-else, expected the configured Mostro instance")
        }
        _ => panic!("wrong sender"),
    }
    assert_eq!(restore_data_from_reply(Some(&good), mostro, mostro).ok().unwrap().restore_orders.len(), 1);
    let refused = restore_msg(Action::CantDo, Some(Payload::CantDo(None)));
    assert!(matches!(restore_data_from_reply(Some(&refused), mostro, mostro), Err(RestoreError::CantDo(None))));
    let other = restore_msg(Action::Orders, None);
    assert!(matches!(restore_data_from_reply(Some(&other), mostro, mostro), Err(RestoreError::UnexpectedAction(Action::Orders))));
    let empty = restore_msg(Action::RestoreSession, None);
    let err = restore_data_from_reply(Some(&empty), mostro, mostro).err().unwrap();
    assert_eq!(err.message(), "No restore data payload in response");
}

#[test]
fn restore_max_index_spans_orders_and_disputes() {
    assert_eq!(restore_max_trade_index(&restore_info(&[], &[])), 0);
    assert_eq!(restore_max_trade_index(&restore_info(&[4, 9, 2], &[7])), 9);
    assert_eq!(restore_max_trade_index(&restore_info(&[4], &[11, 3])), 11);
    assert!(should_advance_last_trade_index(5, None));
    assert!(should_advance_last_trade_index(5, Some(4)));
    assert!(!should_advance_last_trade_index(5, Some(5)));
    assert!(!should_advance_last_trade_index(0, None));
}

#[test]
fn restore_tracks_only_non_terminal_orders() {
    assert!(restore_tracks_order("active"));
    assert!(restore_tracks_order("unknown-status"));
    assert!(!restore_tracks_order("success"));
    assert!(!restore_tracks_order("canceled"));
}

#[test]
fn orders_info_summary_counts_and_fails_when_nothing_refreshed() {
    let outcomes = vec![(1u128, RefreshOutcome::Applied), (2, RefreshOutcome::Superseded), (3, RefreshOutcome::Failed), (4, RefreshOutcome::Applied)];
    let s = summarize_orders_info(1, &outcomes).ok().unwrap();
    assert_eq!((s.refreshed, s.superseded, s.failed), (2, 1, 2));
    assert_eq!(s.refreshed_ids, vec![1, 4]);
    assert_eq!(
        s.to_user_message(),
        "Refreshed 2 order(s) from Mostro. 1 already had a newer update and were kept as is. 2 could not be refreshed — see log."
    );
    assert!(summarize_orders_info(0, &vec![(5, RefreshOutcome::Failed)]).is_err());
}

#[test]
fn local_buyer_invoice_survives_a_refresh() {
    let o = keep_local_buyer_invoice(SmallOrder::default(), Some("lnbc-local".to_string()));
    assert_eq!(o.buyer_invoice.as_deref(), Some("lnbc-local"));
    let theirs = SmallOrder { buyer_invoice: Some("lnbc-new".to_string()), ..Default::default() };
    assert_eq!(keep_local_buyer_invoice(theirs, Some("lnbc-local".to_string())).buyer_invoice.as_deref(), Some("lnbc-new"));
}
