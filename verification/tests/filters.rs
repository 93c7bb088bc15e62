use mostrix::filters::{
    create_filter, create_mostro_list_fetch_filter, filter_protocol_dm_from_mostro, live_chat_filters,
    note_waiter_subscribe_failure, protocol_dm_filter_for_mode, trade_dm_replay_fetch_filter,
    waiter_catch_up_filter, waiter_targets_needing_subscription, DmSubscriptionMode, FilterSpec,
    PRIVATE_DIRECT_MESSAGE_KIND, STARTUP_TRADE_DM_FETCH_LIMIT, WAIT_FOR_DM_CATCHUP_LIMIT,
};
use mostrix::order::Transport;
use mostrix::order_book::{ListKind, MOSTRO_LIST_FETCH_EVENT_LIMIT, NOSTR_ORDER_EVENT_KIND};
use mostrix::trade_dm::STARTUP_GIFTWRAP_ENVELOPE_SKEW_SECS;
use nostr_sdk::{Filter, JsonUtil, Keys, Kind, PublicKey, Timestamp};

fn key(k: &PublicKey) -> Vec<u8> {
    k.to_bytes().to_vec()
}

/// The nostr filter a relay receives for a library filter.
fn to_nostr(f: &FilterSpec) -> Filter {
    let mut out = Filter::new();
    for k in &f.kinds {
        out = out.kind(Kind::from(*k));
    }
    if !f.authors.is_empty() {
        out = out.authors(f.authors.iter().map(|a| PublicKey::from_slice(a).unwrap()));
    }
    if !f.p_tags.is_empty() {
        out = out.pubkeys(f.p_tags.iter().map(|a| PublicKey::from_slice(a).unwrap()));
    }
    if let Some(s) = f.since {
        out = out.since(Timestamp::from(s));
    }
    if let Some(l) = f.limit {
        out = out.limit(l);
    }
    out
}

#[test]
fn filter_protocol_dm_v2_uses_mostro_author_trade_p_tag_and_kind_14() {
    let trade = Keys::generate().public_key();
    let mostro = Keys::generate().public_key();
    let filter = filter_protocol_dm_from_mostro(Transport::Nip44Direct, &key(&mostro), &key(&trade));
    let json = to_nostr(&filter).as_json();
    assert!(json.contains(&format!(r#""authors":["{}"]"#, mostro)));
    assert!(json.contains(&format!("\"#p\":[\"{}\"]", trade)));
    assert!(json.contains(r#""kinds":[14]"#));
}

#[test]
fn filter_protocol_dm_v2_self_admin_omits_p_tag() {
    let mostro = Keys::generate().public_key();
    let filter = filter_protocol_dm_from_mostro(Transport::Nip44Direct, &key(&mostro), &key(&mostro));
    let json = to_nostr(&filter).as_json();
    assert!(json.contains(&format!(r#""authors":["{}"]"#, mostro)));
    assert!(json.contains(r#""kinds":[14]"#));
    assert!(!json.contains("\"#p\""));
}

#[test]
fn waiter_catch_up_filter_includes_since() {
    let trade = Keys::generate().public_key();
    let mostro = Keys::generate().public_key();
    let base = filter_protocol_dm_from_mostro(Transport::Nip44Direct, &key(&mostro), &key(&trade));
    let filter = protocol_dm_filter_for_mode(base, DmSubscriptionMode::WaiterCatchUp(1_700_000_000), 0);
    let json = to_nostr(&filter).as_json();
    assert!(json.contains("\"since\":1700000000"));
    assert!(json.contains(&format!("\"#p\":[\"{trade}\"]")));
}

#[test]
fn live_only_waiter_filter_uses_limit_zero() {
    let trade = Keys::generate().public_key();
    let mostro = Keys::generate().public_key();
    let base = filter_protocol_dm_from_mostro(Transport::Nip44Direct, &key(&mostro), &key(&trade));
    let filter = protocol_dm_filter_for_mode(base, DmSubscriptionMode::LiveOnly, 0);
    assert!(to_nostr(&filter).as_json().contains("\"limit\":0"));
}

#[test]
fn startup_modes_set_limit_or_cursor() {
    let trade = Keys::generate().public_key();
    let mostro = Keys::generate().public_key();
    let base = filter_protocol_dm_from_mostro(Transport::Nip44Direct, &key(&mostro), &key(&trade));
    let f = protocol_dm_filter_for_mode(base, DmSubscriptionMode::StartupCatchUp, 0);
    assert_eq!(f.limit, Some(1));
    let base = filter_protocol_dm_from_mostro(Transport::Nip44Direct, &key(&mostro), &key(&trade));
    let f = protocol_dm_filter_for_mode(base, DmSubscriptionMode::StartupSince(-5), 77);
    assert_eq!(f.since, Some(77));
    let base = filter_protocol_dm_from_mostro(Transport::Nip44Direct, &key(&mostro), &key(&trade));
    let f = protocol_dm_filter_for_mode(base, DmSubscriptionMode::StartupSince(42), 77);
    assert_eq!(f.since, Some(42));
}

#[test]
fn failed_live_subscribe_is_retried_then_recovers_on_success() {
    let pk = key(&Keys::generate().public_key());
    let since = 1_700_000_000u64;
    let mut subscribed: Vec<Vec<u8>> = Vec::new();
    let mut with_subscription: Vec<Vec<u8>> = Vec::new();
    let targets = vec![(pk.clone(), since)];

    subscribed.push(pk.clone());
    note_waiter_subscribe_failure(&mut subscribed, &mut with_subscription, &pk);
    assert!(!subscribed.contains(&pk));
    assert_eq!(
        waiter_targets_needing_subscription(&targets, &subscribed, &with_subscription),
        vec![(pk.clone(), since)]
    );

    subscribed.push(pk.clone());
    with_subscription.push(pk.clone());
    assert!(waiter_targets_needing_subscription(&targets, &subscribed, &with_subscription).is_empty());
}

#[test]
fn missing_subscription_id_still_needs_retry() {
    let pk = key(&Keys::generate().public_key());
    let subscribed = vec![pk.clone()];
    assert_eq!(
        waiter_targets_needing_subscription(&vec![(pk.clone(), 1)], &subscribed, &Vec::new()),
        vec![(pk, 1)]
    );
}

#[test]
fn waiter_catch_up_filter_uses_since_and_bounded_limit() {
    let mostro = Keys::generate().public_key();
    let waiter = Keys::generate().public_key();
    let since = 1_700_000_000u64;
    let filter = waiter_catch_up_filter(Transport::Nip44Direct, &key(&mostro), &key(&waiter), since);
    let json = to_nostr(&filter).as_json();
    assert!(json.contains(&format!("\"since\":{}", since)));
    assert!(json.contains(&format!("\"limit\":{WAIT_FOR_DM_CATCHUP_LIMIT}")));
}

#[test]
fn trade_dm_replay_no_cursor_uses_catch_up_fetch_without_since() {
    let trade = Keys::generate().public_key();
    let mostro = Keys::generate().public_key();
    let lookback_start = Timestamp::now().as_secs();
    let filter = trade_dm_replay_fetch_filter(Transport::Nip44Direct, &key(&mostro), &key(&trade), None, lookback_start);
    let json = to_nostr(&filter).as_json();
    assert!(json.contains(&format!("\"limit\":{}", STARTUP_TRADE_DM_FETCH_LIMIT)));
    assert!(!json.contains("\"since\""));
}

#[test]
fn trade_dm_replay_no_cursor_omits_since_even_when_lookback_is_recent() {
    let trade = Keys::generate().public_key();
    let mostro = Keys::generate().public_key();
    let recent_lookback = Timestamp::now().as_secs();
    let filter = trade_dm_replay_fetch_filter(Transport::Nip44Direct, &key(&mostro), &key(&trade), None, recent_lookback);
    assert!(!to_nostr(&filter).as_json().contains("\"since\""));
}

#[test]
fn trade_dm_replay_with_cursor_applies_since_and_skew() {
    let trade = Keys::generate().public_key();
    let mostro = Keys::generate().public_key();
    let last_seen: i64 = 1_700_000_000;
    let lookback_start = last_seen as u64 + 3600;
    let filter = trade_dm_replay_fetch_filter(
        Transport::Nip44Direct,
        &key(&mostro),
        &key(&trade),
        Some(last_seen),
        lookback_start,
    );
    let json = to_nostr(&filter).as_json();
    let expected_since = (last_seen as u64).saturating_sub(STARTUP_GIFTWRAP_ENVELOPE_SKEW_SECS);
    assert!(json.contains(&format!("\"since\":{expected_since}")));
    assert!(json.contains(&format!("\"limit\":{}", STARTUP_TRADE_DM_FETCH_LIMIT)));
}

#[test]
fn live_chat_filters_kind14_uses_authors_not_p_tags() {
    let sign = vec![Keys::generate().public_key()];
    let filter = live_chat_filters(&sign.iter().map(key).collect());
    let json: serde_json::Value = serde_json::from_str(&to_nostr(&filter).as_json()).unwrap();
    let authors = json.get("authors").expect("authors");
    assert!(authors.as_array().unwrap().iter().any(|v| v.as_str() == Some(&sign[0].to_hex())));
    assert!(json.get("#p").is_none());
    assert_eq!(
        json.get("kinds").and_then(|k| k.as_array()).and_then(|a| a.first()).and_then(|v| v.as_u64()),
        Some(u64::from(PRIVATE_DIRECT_MESSAGE_KIND))
    );
}

#[test]
fn list_fetch_filter_is_bounded_and_kind_specific() {
    let mostro = Keys::generate().public_key();
    let f = create_mostro_list_fetch_filter(NOSTR_ORDER_EVENT_KIND, &key(&mostro));
    assert_eq!(f.kinds, vec![NOSTR_ORDER_EVENT_KIND]);
    assert_eq!(f.limit, Some(MOSTRO_LIST_FETCH_EVENT_LIMIT));
    assert!(f.since.is_none());
    assert!(create_filter(ListKind::Orders, &key(&mostro)).is_ok());
    let refused = create_filter(ListKind::DirectMessagesUser, &key(&mostro)).err().unwrap();
    assert_eq!(refused.message(), "Unsupported ListKind for mostrix");
}
