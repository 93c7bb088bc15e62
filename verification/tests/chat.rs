use mostro_core::chat::SharedKey;
use mostrix::chat::{
    derive_shared_key_hex, emit_route, filter_unpersisted_chat_history, live_chat_disposition,
    observer_roles, order_chat_counterparty_and_shared_hex, same_chat_key, ChatEmit, ChatKeyId,
    ChatParty, ChatSender, ChatTargets, DecodedChatMessage, LiveChatDisposition,
};
use mostrix::order::SmallOrder;
use nostr_sdk::{Keys, Timestamp};

fn bytes(k: &nostr_sdk::PublicKey) -> Vec<u8> {
    k.to_bytes().to_vec()
}

fn sample_shared_hex() -> String {
    let a = Keys::generate();
    let b = Keys::generate();
    SharedKey::derive(a.secret_key(), &b.public_key()).expect("derive shared key").to_hex()
}

fn sample_allowed_signers() -> Vec<Vec<u8>> {
    vec![bytes(&Keys::generate().public_key()), bytes(&Keys::generate().public_key())]
}

fn now() -> i64 {
    Timestamp::now().as_secs() as i64
}

fn track_order(targets: &mut ChatTargets, shared_hex: &str, since: Option<i64>) -> mostrix::chat::CmdOutcome {
    targets.track_chat_key(
        ChatKeyId::Order("order-1".to_string()),
        shared_hex,
        None,
        sample_allowed_signers(),
        since,
        now(),
    )
}

#[test]
fn chat_key_id_equality_distinguishes_targets() {
    assert!(same_chat_key(&ChatKeyId::Order("a".to_string()), &ChatKeyId::Order("a".to_string())));
    assert!(!same_chat_key(&ChatKeyId::Order("a".to_string()), &ChatKeyId::Order("b".to_string())));
    assert!(same_chat_key(
        &ChatKeyId::Dispute("d".to_string(), ChatParty::Buyer),
        &ChatKeyId::Dispute("d".to_string(), ChatParty::Buyer)
    ));
    assert!(!same_chat_key(
        &ChatKeyId::Dispute("d".to_string(), ChatParty::Buyer),
        &ChatKeyId::Dispute("d".to_string(), ChatParty::Seller)
    ));
    assert!(!same_chat_key(
        &ChatKeyId::Order("d".to_string()),
        &ChatKeyId::Dispute("d".to_string(), ChatParty::Buyer)
    ));
}

#[test]
fn track_new_key_defers_hydration_and_requests_resubscribe() {
    let mut targets = ChatTargets::new();
    let shared_hex = sample_shared_hex();
    let expected_pubkey = bytes(&SharedKey::from_hex(&shared_hex).unwrap().public_key());
    let outcome = track_order(&mut targets, &shared_hex, Some(42));
    assert!(outcome.needs_resubscribe);
    assert!(outcome.hydrate);
    assert_eq!(outcome.hydrate_since, Some(42));
    assert_eq!(targets.len(), 1);
    assert_eq!(targets.get(0).shared_pubkey, expected_pubkey);
}

#[test]
fn retrack_existing_key_is_noop() {
    let mut targets = ChatTargets::new();
    let shared_hex = sample_shared_hex();
    let _ = track_order(&mut targets, &shared_hex, None);
    let outcome = track_order(&mut targets, &shared_hex, None);
    assert!(!outcome.needs_resubscribe);
    assert!(!outcome.hydrate);
    assert_eq!(targets.len(), 1);
}

#[test]
fn untrack_removes_key_without_hydration() {
    let mut targets = ChatTargets::new();
    let _ = track_order(&mut targets, &sample_shared_hex(), None);
    let outcome = targets.untrack(&ChatKeyId::Order("order-1".to_string()));
    assert!(outcome.needs_resubscribe);
    assert!(!outcome.hydrate);
    assert_eq!(targets.len(), 0);
}

#[test]
fn untrack_absent_key_is_noop() {
    let mut targets = ChatTargets::new();
    let outcome = targets.untrack(&ChatKeyId::Order("missing".to_string()));
    assert!(!outcome.needs_resubscribe);
    assert!(!outcome.hydrate);
}

#[test]
fn resolve_chat_target_routes_kind14_by_sign_author() {
    let mut targets = ChatTargets::new();
    let shared_hex = sample_shared_hex();
    let _ = track_order(&mut targets, &shared_hex, None);
    let (_conv, sign) = SharedKey::from_hex(&shared_hex).unwrap().chat_keys().expect("chat keys");
    let i = targets.resolve_chat_target(14, &bytes(&sign.public_key())).expect("route kind14");
    assert!(same_chat_key(&targets.get(i).key_id, &ChatKeyId::Order("order-1".to_string())));
    assert_eq!(targets.get(i).sign_pubkey, bytes(&sign.public_key()));
}

#[test]
fn resolve_chat_target_ignores_giftwrap() {
    let mut targets = ChatTargets::new();
    let _ = track_order(&mut targets, &sample_shared_hex(), None);
    let ephemeral = Keys::generate();
    assert!(targets.resolve_chat_target(1059, &bytes(&ephemeral.public_key())).is_none());
    let shared = targets.get(0).shared_pubkey.clone();
    assert!(targets.resolve_chat_target(1059, &shared).is_none());
}

#[test]
fn resolve_chat_target_ignores_kind14_from_unknown_author() {
    let mut targets = ChatTargets::new();
    let _ = track_order(&mut targets, &sample_shared_hex(), None);
    let junk = Keys::generate();
    assert!(targets.resolve_chat_target(14, &bytes(&junk.public_key())).is_none());
}

#[test]
fn track_clamps_future_since_cursor() {
    let mut targets = ChatTargets::new();
    let future = now() + 86_400;
    let outcome = track_order(&mut targets, &sample_shared_hex(), Some(future));
    let since = outcome.hydrate_since.expect("since");
    assert!(since <= now());
    assert!(since < future);
}

#[test]
fn track_rejects_empty_allow_list() {
    let mut targets = ChatTargets::new();
    let outcome = targets.track_chat_key(
        ChatKeyId::Order("order-1".to_string()),
        &sample_shared_hex(),
        None,
        Vec::new(),
        None,
        now(),
    );
    assert!(!outcome.needs_resubscribe);
    assert!(!outcome.hydrate);
    assert_eq!(targets.len(), 0);
}

#[test]
fn track_rejects_unreadable_shared_key() {
    let mut targets = ChatTargets::new();
    let outcome = track_order(&mut targets, "zz-not-hex", None);
    assert!(!outcome.added);
    assert_eq!(targets.len(), 0);
}

#[test]
fn retrack_of_a_key_for_another_chat_replaces_it() {
    let mut targets = ChatTargets::new();
    let shared_hex = sample_shared_hex();
    let _ = track_order(&mut targets, &shared_hex, None);
    let outcome = targets.track_chat_key(
        ChatKeyId::UserDispute("order-1".to_string()),
        &shared_hex,
        Some(bytes(&Keys::generate().public_key())),
        sample_allowed_signers(),
        None,
        now(),
    );
    assert!(outcome.added);
    assert_eq!(targets.len(), 1);
    assert!(same_chat_key(&targets.get(0).key_id, &ChatKeyId::UserDispute("order-1".to_string())));
}

fn fake_inner_id(byte: u8) -> Vec<u8> {
    let mut id = vec![0u8; 32];
    id[31] = byte;
    id
}

fn fake_decoded(ts: i64, id_byte: u8) -> DecodedChatMessage {
    DecodedChatMessage {
        content: format!("msg-{id_byte}"),
        timestamp: ts,
        sender: bytes(&Keys::generate().public_key()),
        inner_event_id: fake_inner_id(id_byte),
    }
}

#[test]
fn hydrate_filter_skips_accepted_ids_without_consuming_new_ones() {
    let accepted = vec![fake_inner_id(1)];
    let messages = vec![fake_decoded(10, 1), fake_decoded(11, 2), fake_decoded(11, 2), fake_decoded(5, 3)];
    let out = filter_unpersisted_chat_history(messages, 10, &accepted);
    assert_eq!(out.len(), 1);
    assert_eq!(out[0].inner_event_id, fake_inner_id(2));
    assert!(!accepted.contains(&fake_inner_id(2)));
}

#[test]
fn hydrate_filter_emits_again_when_inner_id_was_never_accepted() {
    let first = filter_unpersisted_chat_history(vec![fake_decoded(10, 7), fake_decoded(10, 7)], 0, &Vec::new());
    assert_eq!(first.len(), 1);
    let second = filter_unpersisted_chat_history(vec![fake_decoded(10, 7), fake_decoded(10, 7)], 0, &Vec::new());
    assert_eq!(second.len(), 1);
    assert_eq!(second[0].inner_event_id, fake_inner_id(7));
}

#[test]
fn live_event_disposition_follows_the_check_order() {
    let d = live_chat_disposition(true, false, false, false);
    assert_eq!(d.disposition, LiveChatDisposition::DuplicateOuter);
    let d = live_chat_disposition(false, false, true, true);
    assert_eq!(d.disposition, LiveChatDisposition::RateLimited);
    assert!(!d.retain_outer);
    let d = live_chat_disposition(false, true, false, false);
    assert_eq!(d.disposition, LiveChatDisposition::UnwrapFailed);
    assert!(d.retain_outer);
    let d = live_chat_disposition(false, true, true, true);
    assert_eq!(d.disposition, LiveChatDisposition::AlreadyPersisted);
    assert!(d.retain_outer && !d.emit);
    let d = live_chat_disposition(false, true, true, false);
    assert_eq!(d.disposition, LiveChatDisposition::Emitted);
    assert!(!d.retain_outer && d.emit);
}

#[test]
fn emitted_messages_are_routed_by_chat_kind() {
    let mut targets = ChatTargets::new();
    let _ = track_order(&mut targets, &sample_shared_hex(), None);
    assert_eq!(emit_route(targets.get(0), 0), ChatEmit::Skip);
    assert_eq!(emit_route(targets.get(0), 1), ChatEmit::Skip);
    let _ = targets.track_chat_key(
        ChatKeyId::Dispute("d".to_string(), ChatParty::Seller),
        &sample_shared_hex(),
        None,
        sample_allowed_signers(),
        None,
        now(),
    );
    assert_eq!(emit_route(targets.get(1), 2), ChatEmit::Admin);
}

#[test]
fn observer_roles_follow_first_appearance() {
    let admin = bytes(&Keys::generate().public_key());
    let a = bytes(&Keys::generate().public_key());
    let b = bytes(&Keys::generate().public_key());
    let c = bytes(&Keys::generate().public_key());
    let senders = vec![admin.clone(), a.clone(), b.clone(), a.clone(), c.clone()];
    let roles = observer_roles(&senders, &Some(admin.clone()));
    assert_eq!(
        roles,
        vec![ChatSender::Admin, ChatSender::Buyer, ChatSender::Seller, ChatSender::Buyer, ChatSender::Admin]
    );
    let roles = observer_roles(&senders, &None);
    assert_eq!(
        roles,
        vec![ChatSender::Buyer, ChatSender::Seller, ChatSender::Admin, ChatSender::Seller, ChatSender::Admin]
    );
}

#[test]
fn derive_shared_key_hex_different_users_different_keys() {
    let admin = Keys::generate();
    let buyer = Keys::generate();
    let seller = Keys::generate();
    assert_ne!(buyer.public_key().to_string(), seller.public_key().to_string());
    let admin_secret = admin.secret_key().to_secret_hex();
    let buyer_hex = derive_shared_key_hex(Some(admin_secret.as_str()), Some(buyer.public_key().to_string().as_str()));
    let seller_hex = derive_shared_key_hex(Some(admin_secret.as_str()), Some(seller.public_key().to_string().as_str()));
    assert!(buyer_hex.is_some(), "buyer shared key should derive");
    assert!(seller_hex.is_some(), "seller shared key should derive");
    assert_ne!(buyer_hex.as_deref(), seller_hex.as_deref());
    assert!(derive_shared_key_hex(None, Some(buyer.public_key().to_string().as_str())).is_none());
    assert!(derive_shared_key_hex(Some(admin_secret.as_str()), Some("not-a-key")).is_none());
}

#[test]
fn order_chat_counterparty_is_other_trade_side() {
    let buyer = Keys::generate();
    let seller = Keys::generate();
    let buyer_hex = buyer.public_key().to_string();
    let seller_hex = seller.public_key().to_string();
    let small_order = SmallOrder {
        buyer_trade_pubkey: Some(buyer_hex.clone()),
        seller_trade_pubkey: Some(seller_hex.clone()),
        ..Default::default()
    };
    let (cp_from_buyer, sk_buyer) =
        order_chat_counterparty_and_shared_hex(&buyer.secret_key().to_secret_hex(), &small_order).expect("buyer side");
    assert_eq!(cp_from_buyer, seller_hex);
    let (cp_from_seller, sk_seller) =
        order_chat_counterparty_and_shared_hex(&seller.secret_key().to_secret_hex(), &small_order).expect("seller side");
    assert_eq!(cp_from_seller, buyer_hex);
    assert_eq!(sk_buyer, sk_seller, "ECDH shared secret matches for both peers");
}

#[test]
fn order_chat_counterparty_none_when_trade_key_unknown() {
    let buyer = Keys::generate();
    let seller = Keys::generate();
    let other = Keys::generate();
    let small_order = SmallOrder {
        buyer_trade_pubkey: Some(buyer.public_key().to_string()),
        seller_trade_pubkey: Some(seller.public_key().to_string()),
        ..Default::default()
    };
    assert!(order_chat_counterparty_and_shared_hex(&other.secret_key().to_secret_hex(), &small_order).is_none());
}
