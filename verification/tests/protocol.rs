use mostrix::new_order::{new_order_reply_outcome, next_trade_index, parse_new_order_form, NewOrderError, NewOrderForm};
use mostrix::order::{Action, CantDoReason, OrderKind, OrderStatus, Payload, SmallOrder};
use mostrix::order_book::{order_from_tags, parse_orders_events, BookEvent};
use mostrix::protocol::{
    bond_invoice_reply_step, create_take_order_payload, fill_take_buyer_invoice, handle_mostro_response,
    normalize_taken_order, order_from_payment_reply, order_to_upsert_from_trade_dm, orders_from_answer, orders_from_reply,
    payment_reply_outcome, reply_sat_amount_and_invoice, returned_order_for, take_action_for_kind,
    take_add_invoice_framing, take_reply_correlated, take_trade_amount_to_persist, unexpected_action_message, BondInvoiceStep, MessageKind,
    OrdersReplyError, ResponseError, TakeError, TradeDmUpsert,
};

fn kind(request_id: Option<u64>, action: Action, payload: Option<Payload>) -> MessageKind {
    MessageKind { id: None, request_id, trade_index: None, action, payload }
}

fn tags(list: &[&[&str]]) -> Vec<Vec<String>> {
    list.iter().map(|t| t.iter().map(|s| s.to_string()).collect()).collect()
}

const ID1: &str = "308e1272-d5f4-47e6-bd97-3504baea9c23";
const ID2: &str = "11111111-2222-3333-4444-555555555555";

#[test]
fn mostro_response_check_covers_every_refusal() {
    let ok = kind(Some(5), Action::FiatSentOk, None);
    assert!(handle_mostro_response(&ok, 5).is_ok());
    assert_eq!(handle_mostro_response(&ok, 6).err(), Some(ResponseError::MismatchedRequestId));
    let silent = kind(None, Action::FiatSentOk, None);
    assert_eq!(handle_mostro_response(&silent, 6).err(), Some(ResponseError::NullRequestId));
    assert!(handle_mostro_response(&kind(None, Action::NewOrder, None), 6).is_ok());
    let refused = kind(Some(5), Action::CantDo, Some(Payload::CantDo(Some(CantDoReason::InvalidSignature))));
    let err = handle_mostro_response(&refused, 5).err().unwrap();
    assert_eq!(err, ResponseError::CantDo(Some(CantDoReason::InvalidSignature)));
    assert_eq!(ResponseError::CantDo(None).message(), "Unknown error - Mostro couldn't process your request");
}

#[test]
fn take_action_follows_the_order_kind() {
    assert_eq!(take_action_for_kind(Some(OrderKind::Buy)).ok(), Some(Action::TakeBuy));
    assert_eq!(take_action_for_kind(Some(OrderKind::Sell)).ok(), Some(Action::TakeSell));
    let err = take_action_for_kind(None).err().unwrap();
    assert!(matches!(err, TakeError::OrderKindMissing));
    assert_eq!(err.message(), "Order kind is not specified");
    let _ = create_take_order_payload(Action::TakeSell, &Some("lnbc1".to_string()), Some(3));
}

#[test]
fn taken_order_gets_the_fallback_id() {
    let o = normalize_taken_order(SmallOrder::default(), 77);
    assert_eq!(o.id, Some(77));
}

#[test]
fn bond_invoice_reply_needs_an_order() {
    let missing = bond_invoice_reply_step(Action::PayBondInvoice, &Some(Payload::PaymentRequest(None, "lnbc".to_string(), None)), 1);
    assert!(missing.is_err());
    let order = SmallOrder { amount: 500, ..Default::default() };
    match bond_invoice_reply_step(Action::PayBondInvoice, &Some(Payload::PaymentRequest(Some(order), "lnbc".to_string(), None)), 4) {
        Ok(BondInvoiceStep::PaymentRequest { order, invoice, sat_amount, action }) => {
            assert_eq!(order.id, Some(4));
            assert_eq!(invoice, "lnbc");
            assert_eq!(sat_amount, Some(500));
            assert_eq!(action, Action::PayBondInvoice);
        }
        _ => panic!("a bond payment request"),
    }
    assert!(matches!(bond_invoice_reply_step(Action::AddInvoice, &None, 1), Ok(BondInvoiceStep::OpenInvoicePopup)));
    assert!(matches!(bond_invoice_reply_step(Action::Released, &None, 1), Ok(BondInvoiceStep::Acknowledged)));
}

#[test]
fn new_order_form_reads_defaults_and_ranges() {
    let form = NewOrderForm {
        kind: " Sell ".to_string(),
        fiat_code: "eur".to_string(),
        amount: "".to_string(),
        fiat_amount: "10".to_string(),
        fiat_amount_max: "50".to_string(),
        use_range: true,
        payment_method: " SEPA ".to_string(),
        premium: "2".to_string(),
        invoice: "  ".to_string(),
        expiration_days: "x".to_string(),
    };
    let d = parse_new_order_form(&form).ok().expect("valid form");
    assert_eq!(d.kind, OrderKind::Sell);
    assert_eq!(d.fiat_code, "EUR");
    assert_eq!(d.amount, 0);
    assert_eq!((d.fiat_amount, d.min_amount, d.max_amount), (0, Some(10), Some(50)));
    assert_eq!(d.payment_method, "SEPA");
    assert_eq!(d.premium, 2);
    assert!(d.invoice.is_none());
    assert_eq!(d.expiration_days, 0);
    let bad = NewOrderForm { kind: "hold".to_string(), ..form };
    let err = parse_new_order_form(&bad).err().unwrap();
    assert!(!err.message().is_empty());
}

#[test]
fn next_trade_index_follows_the_last_one() {
    assert_eq!(next_trade_index(None), 2);
    assert_eq!(next_trade_index(Some(7)), 8);
}

#[test]
fn new_order_reply_confirms_or_refuses() {
    let sent = SmallOrder { id: Some(9), amount: 100, fiat_code: "USD".to_string(), ..Default::default() };
    let confirmed = new_order_reply_outcome(&kind(Some(1), Action::NewOrder, None), &sent).ok().unwrap();
    assert_eq!(confirmed.id, None);
    assert_eq!(confirmed.status, Some(OrderStatus::Pending));
    assert_eq!(confirmed.amount, 100);
    let refused = new_order_reply_outcome(
        &kind(Some(1), Action::CantDo, Some(Payload::CantDo(Some(CantDoReason::InvalidAmount)))),
        &sent,
    );
    assert!(matches!(refused, Err(NewOrderError::CantDo(Some(CantDoReason::InvalidAmount)))));
    let other = new_order_reply_outcome(&kind(Some(1), Action::TakeBuy, None), &sent);
    assert!(matches!(other, Err(NewOrderError::UnexpectedAction(Action::TakeBuy))));
}

#[test]
fn order_from_tags_reads_the_order_event() {
    let t = tags(&[
        &["d", ID1],
        &["k", "sell"],
        &["f", "USD"],
        &["s", "pending"],
        &["amt", "1000"],
        &["fa", "10", "20"],
        &["pm", "SEPA", "Revolut"],
        &["premium", "3"],
    ]);
    let o = order_from_tags(&t);
    assert_eq!(o.id, Some(uuid::Uuid::parse_str(ID1).unwrap().as_u128()));
    assert_eq!(o.kind, Some(OrderKind::Sell));
    assert_eq!(o.fiat_code, "USD");
    assert_eq!(o.status, Some(OrderStatus::Pending));
    assert_eq!(o.amount, 1000);
    assert_eq!((o.min_amount, o.max_amount), (Some(10), Some(20)));
    assert_eq!(o.payment_method, "SEPA,Revolut");
    assert_eq!(o.premium, 3);
    let single = order_from_tags(&tags(&[&["fa", "42"], &["s", "weird"]]));
    assert_eq!(single.fiat_amount, 42);
    assert_eq!(single.status, Some(OrderStatus::Pending));
}

#[test]
fn book_keeps_newest_revision_per_id_newest_first() {
    let ev = |id: &str, status: &str, fiat: &str, at: u64| BookEvent {
        tags: tags(&[&["d", id], &["k", "buy"], &["s", status], &["f", fiat]]),
        created_at: at,
    };
    let events = vec![
        ev(ID1, "pending", "USD", 10),
        ev(ID1, "canceled", "USD", 30),
        ev(ID2, "pending", "EUR", 20),
        BookEvent { tags: tags(&[&["d", ID2]]), created_at: 99 },
    ];
    let all = parse_orders_events(&events, None, None, None);
    assert_eq!(all.len(), 2);
    assert_eq!(all[0].status, Some(OrderStatus::Canceled));
    assert_eq!(all[0].created_at, Some(30));
    assert_eq!(all[1].fiat_code, "EUR");
    let pending = parse_orders_events(&events, None, Some(OrderStatus::Pending), None);
    assert_eq!(pending.len(), 1);
    assert_eq!(pending[0].fiat_code, "EUR");
    let usd = parse_orders_events(&events, Some("USD".to_string()), None, Some(OrderKind::Buy));
    assert_eq!(usd.len(), 1);
}

#[test]
fn take_reply_must_echo_the_request_id() {
    assert!(take_reply_correlated(&kind(Some(3), Action::PayInvoice, None), 3).is_ok());
    assert_eq!(take_reply_correlated(&kind(Some(4), Action::PayInvoice, None), 3), Err(ResponseError::MismatchedRequestId));
    // a reply without a request id passes the generic check for NewOrder, but not a take
    assert_eq!(take_reply_correlated(&kind(None, Action::NewOrder, None), 3), Err(ResponseError::NullRequestId));
}

#[test]
fn bond_take_amount_subtracts_the_fee_for_take_sell() {
    assert_eq!(take_trade_amount_to_persist(Action::TakeSell, Action::PayBondInvoice, 10_000, Some(150)).ok(), Some(Some(9_850)));
    assert!(matches!(
        take_trade_amount_to_persist(Action::TakeSell, Action::PayBondInvoice, 10_000, None),
        Err(TakeError::BondFeeRequired)
    ));
    assert_eq!(take_trade_amount_to_persist(Action::TakeSell, Action::PayBondInvoice, 0, None).ok(), Some(Some(0)));
    assert_eq!(take_trade_amount_to_persist(Action::TakeBuy, Action::PayBondInvoice, 700, None).ok(), Some(Some(700)));
    assert_eq!(take_trade_amount_to_persist(Action::TakeBuy, Action::PayBondInvoice, -5, None).ok(), Some(Some(0)));
    assert_eq!(take_trade_amount_to_persist(Action::TakeSell, Action::PayInvoice, 700, Some(1)).ok(), Some(None));
}

#[test]
fn buyer_invoice_fills_only_an_empty_slot() {
    let empty = SmallOrder { id: Some(1), ..Default::default() };
    let filled = fill_take_buyer_invoice(Some(empty), Some("lnbc1".to_string())).unwrap();
    assert_eq!(filled.buyer_invoice.as_deref(), Some("lnbc1"));
    let blank = SmallOrder { buyer_invoice: Some(String::new()), ..Default::default() };
    assert_eq!(fill_take_buyer_invoice(Some(blank), Some("lnbc2".to_string())).unwrap().buyer_invoice.as_deref(), Some("lnbc2"));
    let has = SmallOrder { buyer_invoice: Some("old".to_string()), ..Default::default() };
    assert_eq!(fill_take_buyer_invoice(Some(has), Some("new".to_string())).unwrap().buyer_invoice.as_deref(), Some("old"));
    let keep = SmallOrder::default();
    assert!(fill_take_buyer_invoice(Some(keep), Some(String::new())).unwrap().buyer_invoice.is_none());
    assert!(fill_take_buyer_invoice(None, Some("x".to_string())).is_none());
}

#[test]
fn payment_reply_order_and_amounts() {
    let order = SmallOrder { id: Some(2), amount: 4_000, ..Default::default() };
    let payload = Some(Payload::PaymentRequest(Some(order.duplicate()), "lnbc9".to_string(), Some(3_900)));
    assert_eq!(order_from_payment_reply(Action::PayInvoice, &payload).unwrap().id, Some(2));
    assert!(order_from_payment_reply(Action::Released, &payload).is_none());
    assert_eq!(reply_sat_amount_and_invoice(Action::PayInvoice, &payload), (Some(3_900), Some("lnbc9".to_string())));
    let no_amount = Some(Payload::PaymentRequest(Some(order.duplicate()), "lnbc9".to_string(), None));
    assert_eq!(reply_sat_amount_and_invoice(Action::PayBondInvoice, &no_amount), (Some(4_000), Some("lnbc9".to_string())));
    let add = Some(Payload::Order(order.duplicate()));
    assert_eq!(reply_sat_amount_and_invoice(Action::AddInvoice, &add), (Some(4_000), None));
    assert_eq!(reply_sat_amount_and_invoice(Action::Released, &add), (None, None));
    assert_eq!(order_from_payment_reply(Action::WaitingBuyerInvoice, &add).unwrap().amount, 4_000);
}

#[test]
fn payment_reply_outcome_accepts_two_actions() {
    assert_eq!(payment_reply_outcome(Action::WaitingSellerToPay), Ok(()));
    assert_eq!(payment_reply_outcome(Action::HoldInvoicePaymentAccepted), Ok(()));
    assert_eq!(payment_reply_outcome(Action::Canceled), Err(Action::Canceled));
    assert_eq!(unexpected_action_message(Action::Canceled), "Unexpected action: Canceled");
}

#[test]
fn trade_dm_upsert_keeps_the_local_amount_for_add_invoice() {
    let o = SmallOrder { id: Some(5), amount: 99, ..Default::default() };
    match order_to_upsert_from_trade_dm(Action::AddInvoice, &Some(Payload::Order(o.duplicate())), Some(1_000)) {
        TradeDmUpsert::Upsert(s) => assert_eq!(s.amount, 1_000),
        _ => panic!("an upsert"),
    }
    assert!(matches!(order_to_upsert_from_trade_dm(Action::AddInvoice, &Some(Payload::Order(o.duplicate())), None), TradeDmUpsert::Defer));
    assert!(matches!(order_to_upsert_from_trade_dm(Action::AddInvoice, &Some(Payload::Order(o.duplicate())), Some(0)), TradeDmUpsert::Defer));
    match order_to_upsert_from_trade_dm(Action::BuyerTookOrder, &Some(Payload::Order(o.duplicate())), None) {
        TradeDmUpsert::Upsert(s) => assert_eq!(s.amount, 99),
        _ => panic!("an upsert"),
    }
    assert!(matches!(order_to_upsert_from_trade_dm(Action::Released, &Some(Payload::Order(o)), None), TradeDmUpsert::Skip));
    assert!(matches!(order_to_upsert_from_trade_dm(Action::PayInvoice, &None, None), TradeDmUpsert::Skip));
}

#[test]
fn orders_reply_lists_orders_and_finds_the_last_match() {
    let a = SmallOrder { id: Some(1), amount: 10, ..Default::default() };
    let b = SmallOrder { id: Some(1), amount: 20, ..Default::default() };
    let c = SmallOrder { id: Some(2), amount: 30, ..Default::default() };
    let msg = kind(Some(8), Action::Orders, Some(Payload::Orders(vec![a, b, c])));
    let orders = orders_from_reply(&msg, 8).ok().unwrap();
    assert_eq!(orders.len(), 3);
    assert_eq!(returned_order_for(&orders, 1).unwrap().amount, 20);
    assert!(returned_order_for(&orders, 3).is_none());
    assert!(matches!(orders_from_reply(&kind(Some(8), Action::Released, None), 8), Err(OrdersReplyError::UnexpectedAction(Action::Released))));
    assert!(matches!(orders_from_reply(&kind(Some(8), Action::Orders, None), 8), Err(OrdersReplyError::MissingOrders)));
    assert!(matches!(orders_from_reply(&msg, 9), Err(OrdersReplyError::Response(ResponseError::MismatchedRequestId))));
}

#[test]
fn orders_answer_checks_presence_and_sender_first() {
    let m = "mostro-hex";
    let msg = kind(Some(8), Action::Orders, Some(Payload::Orders(vec![SmallOrder { id: Some(1), ..Default::default() }])));
    assert_eq!(orders_from_answer(Some(&msg), m, m, 8).ok().unwrap().len(), 1);
    let none = orders_from_answer(None, m, m, 8).err().unwrap();
    assert_eq!(none.message(), "No response received for Action::Orders");
    let stranger = orders_from_answer(Some(&msg), "abc", m, 8).err().unwrap();
    assert_eq!(stranger.message(), "Orders response signed by abc, expected the configured Mostro instance");
    let missing = orders_from_answer(Some(&kind(Some(8), Action::Orders, None)), m, m, 8).err().unwrap();
    assert_eq!(missing.message(), "Orders response missing Payload::Orders");
}

#[test]
fn add_invoice_popup_is_framed_with_trusted_sats() {
    let order = SmallOrder { id: Some(4), amount: 99_999, ..Default::default() };
    let f = take_add_invoice_framing(&order, 5_000);
    assert_eq!(f.snapshot.amount, 5_000);
    assert_eq!(f.snapshot.id, Some(4));
    assert_eq!(f.sat_amount, 5_000);
    assert_eq!(f.status, OrderStatus::WaitingBuyerInvoice);
    let active = SmallOrder { status: Some(OrderStatus::Active), ..Default::default() };
    assert_eq!(take_add_invoice_framing(&active, 1).status, OrderStatus::Active);
}
