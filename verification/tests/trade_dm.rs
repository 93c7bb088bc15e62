use mostrix::order::{
    effective_is_mine_for_trade_dm_message, is_pre_active_maker_listing, is_pre_active_taker_take,
    is_take_sell_buyer_waiting_invoice, new_order_would_regress_messages_row,
    small_order_pending_from_new_order_payload, trade_message_is_terminal,
    trade_message_should_untrack_order_chat, Action, OrderKind, OrderRow, OrderStatus, Payload, SmallOrder,
};
use mostrix::chat::derive_shared_key_hex;
use mostrix::trade_dm::{
    default_dm_expiration, dispute_dm_effect, status_to_persist, DisputeDmEffect, default_dm_expiration_at, effective_order_kind, is_new_trade_message,
    new_order_trade_dm_step, pay_dm_lacks_invoice, plan_giftwrap_batch, plan_trade_dm, replay_since,
    select_freshest_rumor, should_drop_pre_active_taker_on_cancel, should_replace_messages_row,
    status_candidate_for_action, trade_dm_replay_dispatch_mode, trade_dm_sat_amount_and_invoice, BatchDm,
    BatchStep, NewOrderDmStep, PriorMessage, ReplayTradeDmOutcome, RumorCandidate, TradeDmInput,
    TradeDmReplayDispatchMode, TradeDmReplaySummary, STARTUP_GIFTWRAP_ENVELOPE_SKEW_SECS,
};
use nostr_sdk::{Keys, Timestamp};

fn order_with_status(status: OrderStatus) -> SmallOrder {
    SmallOrder { status: Some(status), ..Default::default() }
}

fn sample_order_row(is_mine: bool, status: &str) -> OrderRow {
    OrderRow {
        id: Some("00000000-0000-0000-0000-000000000001".to_string()),
        kind: Some("buy".to_string()),
        status: Some(status.to_string()),
        amount: 1000,
        fiat_code: "USD".to_string(),
        min_amount: None,
        max_amount: None,
        fiat_amount: 100,
        payment_method: "bank".to_string(),
        premium: 0,
        trade_keys: None,
        counterparty_pubkey: None,
        order_chat_shared_key_hex: None,
        dispute_id: None,
        solver_pubkey: None,
        dispute_chat_shared_key_hex: None,
        is_mine,
        buyer_invoice: None,
        request_id: Some(1),
        trade_index: Some(1),
        created_at: None,
        expires_at: None,
        last_seen_dm_ts: None,
    }
}

#[test]
fn stored_row_reads_back_as_an_order_snapshot() {
    let row = sample_order_row(true, "waiting-buyer-invoice");
    let o = mostrix::db_rows::small_order_from_db_order(&row);
    assert_eq!(o.id, Some(1));
    assert_eq!(o.kind, Some(OrderKind::Buy));
    assert_eq!(o.status, Some(OrderStatus::WaitingBuyerInvoice));
    assert_eq!(o.amount, 1000);
    assert_eq!(o.fiat_code, "USD");
    assert!(o.buyer_trade_pubkey.is_none());
    let mut odd = sample_order_row(false, "not-a-status");
    odd.kind = Some("SELL".to_string());
    odd.id = Some("junk".to_string());
    let o = mostrix::db_rows::small_order_from_db_order(&odd);
    assert_eq!(o.status, None);
    assert_eq!(o.kind, Some(OrderKind::Sell));
    assert_eq!(o.id, None);
    assert_eq!(mostrix::db_rows::status_from_db(&sample_order_row(false, "IN-PROGRESS")), Some(OrderStatus::InProgress));
}

#[test]
fn action_only_canceled_is_terminal() {
    assert!(trade_message_is_terminal(Action::Canceled, None));
    assert!(trade_message_should_untrack_order_chat(Action::Canceled, None));
}

#[test]
fn success_order_payload_is_terminal_for_dm_but_keeps_chat_tracked() {
    let payload = Payload::Order(order_with_status(OrderStatus::Success));
    assert!(trade_message_is_terminal(Action::Released, Some(&payload)));
    assert!(!trade_message_should_untrack_order_chat(Action::Released, Some(&payload)));
}

#[test]
fn canceled_order_payload_untracks_chat() {
    let payload = Payload::Order(order_with_status(OrderStatus::Canceled));
    assert!(trade_message_should_untrack_order_chat(Action::Canceled, Some(&payload)));
}

#[test]
fn active_order_payload_is_not_terminal() {
    let payload = Payload::Order(order_with_status(OrderStatus::Active));
    assert!(!trade_message_is_terminal(Action::BuyerTookOrder, Some(&payload)));
    assert!(!trade_message_should_untrack_order_chat(Action::BuyerTookOrder, Some(&payload)));
}

#[test]
fn effective_is_mine_uses_post_upsert_db_when_row_existed() {
    assert_eq!(effective_is_mine_for_trade_dm_message(true, Some(true), None), Some(true));
    assert_eq!(effective_is_mine_for_trade_dm_message(true, Some(false), None), Some(false));
}

#[test]
fn effective_is_mine_ignores_dm_upsert_default_without_prior_save_order_row() {
    assert_eq!(effective_is_mine_for_trade_dm_message(false, Some(true), None), None);
}

#[test]
fn effective_is_mine_keeps_prior_message_role_before_db_row() {
    assert_eq!(effective_is_mine_for_trade_dm_message(false, Some(true), Some(false)), Some(false));
}

#[test]
fn small_order_pending_from_new_order_requires_pending_status() {
    let pending = Payload::Order(order_with_status(OrderStatus::Pending));
    let active = Payload::Order(order_with_status(OrderStatus::Active));
    assert!(small_order_pending_from_new_order_payload(Some(&pending)).is_some());
    assert!(small_order_pending_from_new_order_payload(Some(&active)).is_none());
    assert!(small_order_pending_from_new_order_payload(None).is_none());
}

#[test]
fn pre_active_taker_take_predicate() {
    let row = sample_order_row(false, "waiting-payment");
    assert!(is_pre_active_taker_take(&row));
    assert!(!is_pre_active_maker_listing(&row));
}

#[test]
fn pre_active_maker_listing_predicate() {
    let row = sample_order_row(true, "waiting-taker-bond");
    assert!(is_pre_active_maker_listing(&row));
    assert!(!is_pre_active_taker_take(&row));
}

#[test]
fn pre_active_maker_waiting_maker_bond_predicate() {
    let row = sample_order_row(true, "waiting-maker-bond");
    assert!(is_pre_active_maker_listing(&row));
    assert!(!is_pre_active_taker_take(&row));
}

#[test]
fn active_trade_is_not_pre_active_special_case() {
    let maker = sample_order_row(true, "active");
    let taker = sample_order_row(false, "active");
    assert!(!is_pre_active_maker_listing(&maker));
    assert!(!is_pre_active_taker_take(&taker));
}

#[test]
fn new_order_does_not_regress_non_new_order_messages_row() {
    assert!(new_order_would_regress_messages_row(Action::NewOrder, Action::PayBondInvoice));
    assert!(!new_order_would_regress_messages_row(Action::NewOrder, Action::NewOrder));
    assert!(!new_order_would_regress_messages_row(Action::PayInvoice, Action::NewOrder));
}

#[test]
fn take_sell_buyer_waiting_invoice_gate_covers_taker_race() {
    assert!(is_take_sell_buyer_waiting_invoice(
        Action::AddInvoice,
        None,
        Some(OrderKind::Sell),
        Some(OrderStatus::WaitingBuyerInvoice),
    ));
    assert!(is_take_sell_buyer_waiting_invoice(Action::AddInvoice, Some(false), Some(OrderKind::Sell), None));
    assert!(!is_take_sell_buyer_waiting_invoice(
        Action::AddInvoice,
        Some(true),
        Some(OrderKind::Buy),
        Some(OrderStatus::WaitingBuyerInvoice),
    ));
    assert!(!is_take_sell_buyer_waiting_invoice(
        Action::AddInvoice,
        Some(false),
        Some(OrderKind::Sell),
        Some(OrderStatus::SettledHoldInvoice),
    ));
}

#[test]
fn default_dm_expiration_is_thirty_days_ahead() {
    let now = Timestamp::now().as_secs();
    let exp = default_dm_expiration();
    let thirty_days: u64 = 30 * 24 * 60 * 60;
    assert!(exp >= now + thirty_days.saturating_sub(2));
    assert!(exp <= now + thirty_days + 2);
    assert_eq!(default_dm_expiration_at(1_000), 1_000 + thirty_days);
    assert_eq!(default_dm_expiration_at(u64::MAX - 1), u64::MAX);
}

#[test]
fn trade_dm_replay_uses_untracked_fallback_without_subscription_mapping() {
    let pubkey = Keys::generate().public_key().to_bytes().to_vec();
    assert_eq!(
        trade_dm_replay_dispatch_mode(&pubkey, &Vec::new(), &Vec::new()),
        TradeDmReplayDispatchMode::UntrackedFallback
    );
}

#[test]
fn trade_dm_replay_uses_untracked_fallback_when_subscription_not_tracked() {
    let pubkey = Keys::generate().public_key().to_bytes().to_vec();
    let pubkey_to_sub = vec![(pubkey.clone(), "sub-1".to_string())];
    assert_eq!(
        trade_dm_replay_dispatch_mode(&pubkey, &pubkey_to_sub, &Vec::new()),
        TradeDmReplayDispatchMode::UntrackedFallback
    );
}

#[test]
fn trade_dm_replay_uses_tracked_subscription_when_mapping_complete() {
    let pubkey = Keys::generate().public_key().to_bytes().to_vec();
    let pubkey_to_sub = vec![(pubkey.clone(), "sub-1".to_string())];
    let with_order = vec!["sub-1".to_string()];
    assert_eq!(
        trade_dm_replay_dispatch_mode(&pubkey, &pubkey_to_sub, &with_order),
        TradeDmReplayDispatchMode::TrackedSubscription
    );
}

#[test]
fn replay_cursor_is_widened_by_the_envelope_skew() {
    assert_eq!(replay_since(None, 5_000), None);
    assert_eq!(replay_since(Some(-1), 5_000), None);
    let last_seen: i64 = 1_700_000_000;
    assert_eq!(
        replay_since(Some(last_seen), last_seen as u64 + 3600),
        Some(last_seen as u64 - STARTUP_GIFTWRAP_ENVELOPE_SKEW_SECS)
    );
    assert_eq!(replay_since(Some(last_seen), 1_000), Some(0));
}

fn prior(ts: i64, action: Action) -> PriorMessage {
    PriorMessage {
        timestamp: ts,
        action,
        sat_amount: Some(5_000),
        buyer_invoice: Some("lnbc-prior".to_string()),
        auto_popup_shown: true,
        order_kind: Some(OrderKind::Sell),
        is_mine: Some(false),
        order_status: None,
    }
}

fn dm_input(action: Action, ts: i64) -> TradeDmInput {
    TradeDmInput {
        action,
        timestamp: ts,
        sat_amount: Some(1_234),
        invoice: None,
        order_kind: Some(OrderKind::Buy),
        is_mine: Some(true),
        status_candidate: Some(OrderStatus::Active),
        baseline_status: Some(OrderStatus::WaitingPayment),
        accept_candidate: true,
        notify: true,
    }
}

#[test]
fn trade_dm_sats_come_from_the_payload() {
    let order = SmallOrder { amount: 800, ..Default::default() };
    let pr = Some(Payload::PaymentRequest(Some(order.duplicate()), "lnbc7".to_string(), None));
    assert_eq!(trade_dm_sat_amount_and_invoice(Action::PayInvoice, &pr), (Some(800), Some("lnbc7".to_string())));
    let bond = Some(Payload::BondPayoutRequest(order.duplicate(), 3));
    assert_eq!(trade_dm_sat_amount_and_invoice(Action::AddBondInvoice, &bond), (Some(800), None));
    assert_eq!(trade_dm_sat_amount_and_invoice(Action::Released, &pr), (None, None));
    assert!(pay_dm_lacks_invoice(Action::PayInvoice, &None));
    assert!(pay_dm_lacks_invoice(Action::PayBondInvoice, &Some(String::new())));
    assert!(!pay_dm_lacks_invoice(Action::PayInvoice, &Some("lnbc".to_string())));
    assert!(!pay_dm_lacks_invoice(Action::AddInvoice, &None));
}

#[test]
fn trade_dm_is_new_unless_same_action_and_not_newer() {
    assert!(is_new_trade_message(Action::Released, 10, None));
    let p = prior(10, Action::Released);
    assert!(!is_new_trade_message(Action::Released, 10, Some(&p)));
    assert!(!is_new_trade_message(Action::Released, 9, Some(&p)));
    assert!(is_new_trade_message(Action::Released, 11, Some(&p)));
    assert!(is_new_trade_message(Action::FiatSent, 9, Some(&p)));
}

#[test]
fn order_kind_falls_back_from_payload_to_prior_to_take_action() {
    let with_kind = Some(Payload::Order(SmallOrder { kind: Some(OrderKind::Buy), ..Default::default() }));
    assert_eq!(effective_order_kind(&with_kind, Some(OrderKind::Sell), Action::TakeSell, None), Some(OrderKind::Buy));
    assert_eq!(effective_order_kind(&None, Some(OrderKind::Sell), Action::TakeBuy, None), Some(OrderKind::Sell));
    assert_eq!(effective_order_kind(&None, None, Action::TakeBuy, Some(OrderKind::Sell)), Some(OrderKind::Buy));
    assert_eq!(effective_order_kind(&None, None, Action::Released, Some(OrderKind::Sell)), Some(OrderKind::Sell));
    assert_eq!(status_candidate_for_action(Action::CantDo, Some(OrderStatus::Active)), None);
    assert_eq!(status_candidate_for_action(Action::Released, Some(OrderStatus::Success)), Some(OrderStatus::Success));
}

#[test]
fn payload_less_cancel_drops_a_pre_active_take() {
    let take = sample_order_row(false, "waiting-payment");
    assert!(should_drop_pre_active_taker_on_cancel(Action::Canceled, true, Some(&take)));
    assert!(!should_drop_pre_active_taker_on_cancel(Action::Canceled, false, Some(&take)));
    let mine = sample_order_row(true, "waiting-payment");
    assert!(!should_drop_pre_active_taker_on_cancel(Action::Canceled, true, Some(&mine)));
    let active = sample_order_row(false, "active");
    assert!(!should_drop_pre_active_taker_on_cancel(Action::Canceled, true, Some(&active)));
    assert!(!should_drop_pre_active_taker_on_cancel(Action::Canceled, true, None));
}

#[test]
fn plan_takes_accepted_status_and_notifies_new_actionable_dms() {
    let plan = plan_trade_dm(&dm_input(Action::Released, 20), None);
    assert_eq!(plan.order_status, Some(OrderStatus::Active));
    assert_eq!(plan.sat_amount, Some(1_234));
    assert!(plan.is_new && plan.actionable && plan.notify_user);
    assert!(!plan.auto_popup_shown);

    let refused = TradeDmInput { accept_candidate: false, ..dm_input(Action::Released, 20) };
    assert_eq!(plan_trade_dm(&refused, None).order_status, Some(OrderStatus::WaitingPayment));

    let p = prior(20, Action::Released);
    let same = plan_trade_dm(&dm_input(Action::Released, 20), Some(&p));
    assert!(!same.is_new && !same.notify_user);
    assert!(same.auto_popup_shown);
    assert_eq!(same.invoice.as_deref(), Some("lnbc-prior"));
}

#[test]
fn plan_keeps_row_sats_for_a_take_sell_buyer_owing_an_invoice() {
    let waiting = TradeDmInput {
        is_mine: Some(false),
        order_kind: Some(OrderKind::Sell),
        status_candidate: Some(OrderStatus::WaitingBuyerInvoice),
        ..dm_input(Action::AddInvoice, 30)
    };
    let p = prior(10, Action::PayInvoice);
    let plan = plan_trade_dm(&waiting, Some(&p));
    assert!(plan.take_sell_waiting);
    assert_eq!(plan.sat_amount, Some(5_000));
    let fresh = plan_trade_dm(&waiting, None);
    assert_eq!(fresh.sat_amount, None);
    assert!(!fresh.actionable && !fresh.notify_user);
    let pay = TradeDmInput { invoice: None, ..dm_input(Action::PayInvoice, 30) };
    assert!(!plan_trade_dm(&pay, None).actionable);
}

#[test]
fn messages_row_replacement_rules() {
    assert!(should_replace_messages_row(Action::Released, 1, None, false, false));
    let p = prior(10, Action::PayInvoice);
    assert!(!should_replace_messages_row(Action::NewOrder, 99, Some(&p), true, true));
    assert!(should_replace_messages_row(Action::AddInvoice, 1, Some(&p), true, false));
    assert!(should_replace_messages_row(Action::Released, 11, Some(&p), false, false));
    assert!(should_replace_messages_row(Action::Released, 10, Some(&p), false, false));
    assert!(!should_replace_messages_row(Action::PayInvoice, 10, Some(&p), false, true));
    assert!(!should_replace_messages_row(Action::Released, 9, Some(&p), false, false));
    assert!(should_replace_messages_row(Action::Released, 9, Some(&p), false, true));
}

#[test]
fn batch_stops_after_the_terminal_dm_on_the_own_subscription() {
    let batch = vec![
        BatchDm { action: Action::FiatSentOk, payload: None },
        BatchDm { action: Action::Canceled, payload: None },
        BatchDm { action: Action::Released, payload: None },
    ];
    let steps = plan_giftwrap_batch(&batch, true);
    assert_eq!(steps.len(), 2);
    assert_eq!(steps[0], BatchStep { untrack_chat: false, terminal: false });
    assert_eq!(steps[1], BatchStep { untrack_chat: true, terminal: true });
    assert_eq!(plan_giftwrap_batch(&batch, false).len(), 3);
    let success = vec![BatchDm { action: Action::Released, payload: Some(Payload::Order(order_with_status(OrderStatus::Success))) }];
    assert_eq!(plan_giftwrap_batch(&success, true), vec![BatchStep { untrack_chat: false, terminal: true }]);
}

#[test]
fn replay_summary_counts_each_outcome() {
    let mut s = TradeDmReplaySummary::new();
    s.record(ReplayTradeDmOutcome::Hydrated);
    s.record(ReplayTradeDmOutcome::EmptyFetch);
    s.record(ReplayTradeDmOutcome::Hydrated);
    s.record(ReplayTradeDmOutcome::ParseFailed);
    assert_eq!((s.attempted, s.hydrated, s.empty, s.parse_failed, s.fetch_failed, s.skipped_no_keys), (4, 2, 1, 1, 0, 0));
}

#[test]
fn freshest_rumor_breaks_ties_by_event_id() {
    assert_eq!(select_freshest_rumor(&vec![]), None);
    let c = vec![
        RumorCandidate { rumor_ts: 5, event_id: vec![9, 9] },
        RumorCandidate { rumor_ts: 7, event_id: vec![1, 0] },
        RumorCandidate { rumor_ts: 7, event_id: vec![1, 2] },
        RumorCandidate { rumor_ts: 6, event_id: vec![255] },
    ];
    assert_eq!(select_freshest_rumor(&c), Some(2));
}

#[test]
fn pending_new_order_dm_steps_by_local_row() {
    let pending = Payload::Order(order_with_status(OrderStatus::Pending));
    let take = sample_order_row(false, "waiting-buyer-invoice");
    assert!(matches!(new_order_trade_dm_step(Some(&pending), Some(&take)), NewOrderDmStep::DropPreActiveTake));
    let listing = sample_order_row(true, "waiting-payment");
    assert!(matches!(new_order_trade_dm_step(Some(&pending), Some(&listing)), NewOrderDmStep::RevertMakerToPending));
    let active = sample_order_row(true, "active");
    assert!(matches!(new_order_trade_dm_step(Some(&pending), Some(&active)), NewOrderDmStep::NotHandled));
    assert!(matches!(new_order_trade_dm_step(Some(&pending), None), NewOrderDmStep::PersistRangeChild(_)));
    let active_payload = Payload::Order(order_with_status(OrderStatus::Active));
    assert!(matches!(new_order_trade_dm_step(Some(&active_payload), None), NewOrderDmStep::NotHandled));
    assert!(matches!(new_order_trade_dm_step(None, None), NewOrderDmStep::NotHandled));
}

#[test]
fn dispute_dms_record_the_dispute_and_the_solver_chat() {
    let opened = Some(Payload::Dispute(77, None));
    assert!(matches!(dispute_dm_effect(Action::DisputeInitiatedByPeer, &opened, ""), DisputeDmEffect::StoreDisputeId(77)));
    assert!(matches!(dispute_dm_effect(Action::Released, &opened, ""), DisputeDmEffect::NoEffect));

    let trade = Keys::generate();
    let solver = Keys::generate();
    let took = Some(Payload::Peer(solver.public_key().to_hex()));
    match dispute_dm_effect(Action::AdminTookDispute, &took, &trade.secret_key().to_secret_hex()) {
        DisputeDmEffect::SolverChat { solver_pubkey, shared_key_hex } => {
            assert_eq!(solver_pubkey, solver.public_key().to_hex());
            let other_side = derive_shared_key_hex(
                Some(&solver.secret_key().to_secret_hex()),
                Some(&trade.public_key().to_hex()),
            );
            assert_eq!(Some(shared_key_hex), other_side);
        }
        _ => panic!("a solver chat"),
    }
    let bad = Some(Payload::Peer("not-a-key".to_string()));
    assert!(matches!(dispute_dm_effect(Action::AdminTookDispute, &bad, &trade.secret_key().to_secret_hex()), DisputeDmEffect::NoEffect));
}

#[test]
fn status_written_after_a_trade_dm() {
    assert_eq!(status_to_persist(Some(OrderStatus::Active), true, Some(OrderStatus::WaitingPayment), Some(OrderStatus::WaitingPayment)), Some(OrderStatus::Active));
    assert_eq!(status_to_persist(Some(OrderStatus::Active), true, Some(OrderStatus::Active), Some(OrderStatus::Active)), None);
    assert_eq!(status_to_persist(Some(OrderStatus::Pending), false, Some(OrderStatus::Active), Some(OrderStatus::Active)), Some(OrderStatus::Active));
    assert_eq!(status_to_persist(Some(OrderStatus::Pending), false, Some(OrderStatus::Active), None), None);
    assert_eq!(status_to_persist(None, true, Some(OrderStatus::Active), Some(OrderStatus::Active)), None);
}
