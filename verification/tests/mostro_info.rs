use mostrix::mostro_info::{
    effective_pow_first_contact_from_instance, format_instance_info_age_at,
    instance_bonds_enabled, instance_info_event_is_authentic, is_v2_first_contact_protocol_action,
    mostro_info_from_authenticated_event, mostro_info_from_tags, nostr_pow_for_protocol_dm,
    nostr_pow_from_instance, parse_bond_enabled, select_authentic_instance_info_event,
    transport_from_instance, InfoCandidate, MostroInstanceInfo, MostroInstanceInfoFetch,
    INSTANCE_INFO_STALE_SECS, MOSTRO_INSTANCE_INFO_KIND,
};
use mostrix::order::{Action, Transport};
use mostrix::text::is_float_text;
use nostr_sdk::{Event, EventBuilder, Keys, Kind, PublicKey, Tag, Timestamp};

fn tags(list: &[&[&str]]) -> Vec<Vec<String>> {
    list.iter()
        .map(|t| t.iter().map(|s| s.to_string()).collect())
        .collect()
}

fn event_tags(event: &Event) -> Vec<Vec<String>> {
    event.tags.iter().map(|t| t.as_slice().to_vec()).collect()
}

fn candidate(event: &Event, mostro: &PublicKey) -> InfoCandidate {
    let mostro_hex = mostro.to_hex();
    InfoCandidate {
        kind: event.kind.as_u16(),
        author_is_mostro: event.pubkey == *mostro,
        identifier_is_mostro: event.tags.identifier() == Some(mostro_hex.as_str()),
        signature_valid: event.verify().is_ok(),
        created_at: event.created_at.as_secs(),
    }
}

fn instance_info_event(keys: &Keys, protocol_version: &str, d_tag: Option<String>, created_at: u64) -> Event {
    let mut list = vec![
        Tag::parse(["protocol_version", protocol_version]).unwrap(),
        Tag::parse(["fee", "0.0"]).unwrap(),
        Tag::parse(["pow", "0"]).unwrap(),
    ];
    if let Some(d) = d_tag {
        list.push(Tag::identifier(d));
    }
    EventBuilder::new(Kind::Custom(MOSTRO_INSTANCE_INFO_KIND), "")
        .tags(list)
        .custom_created_at(Timestamp::from(created_at))
        .sign_with_keys(keys)
        .expect("instance info event")
}

#[test]
fn split_csv_trims_and_ignores_empty_values() {
    let result = MostroInstanceInfo::split_csv("USD, EUR, ,ARS ,  ");
    assert_eq!(result, vec!["USD".to_string(), "EUR".to_string(), "ARS".to_string()]);
}

#[test]
fn parse_helpers_handle_invalid_input() {
    assert_eq!(MostroInstanceInfo::parse_i64("123"), Some(123));
    assert_eq!(MostroInstanceInfo::parse_i64("not-a-number"), None);
    assert_eq!(MostroInstanceInfo::parse_u64("42"), Some(42));
    assert_eq!(MostroInstanceInfo::parse_u64("oops"), None);
    assert_eq!(MostroInstanceInfo::parse_u32("7"), Some(7));
    assert_eq!(MostroInstanceInfo::parse_u32("bad"), None);
    // The fee is kept as its text when it reads as a float.
    assert!(is_float_text(&"0.006".chars().collect::<Vec<char>>()));
    assert!(!is_float_text(&"NaN?".chars().collect::<Vec<char>>()));
    assert_eq!(fee_rate_of_text("0.006"), Some(0.006));
    assert_eq!(fee_rate_of_text("NaN?"), None);
}

fn fee_rate_of_text(text: &str) -> Option<f64> {
    if is_float_text(&text.chars().collect::<Vec<char>>()) {
        text.parse::<f64>().ok()
    } else {
        None
    }
}

#[test]
fn parse_helpers_follow_from_str_edges() {
    assert_eq!(MostroInstanceInfo::parse_i64("-5"), Some(-5));
    assert_eq!(MostroInstanceInfo::parse_i64("+5"), Some(5));
    assert_eq!(MostroInstanceInfo::parse_i64("9223372036854775808"), None);
    assert_eq!(MostroInstanceInfo::parse_u32("4294967296"), None);
    assert_eq!(MostroInstanceInfo::parse_u8("255"), Some(255));
    assert_eq!(MostroInstanceInfo::parse_u8("256"), None);
    assert_eq!(MostroInstanceInfo::parse_u64(" 1"), None);
    assert_eq!(MostroInstanceInfo::parse_u64(""), None);
}

#[test]
fn parse_handles_empty_tags() {
    let result = mostro_info_from_tags(&Vec::new());
    assert_eq!(result.fiat_currencies_accepted, Vec::<String>::new());
    assert!(result.mostro_version.is_none());
    assert!(result.max_order_amount.is_none());
}

#[test]
fn parse_handles_malformed_tags() {
    let t = tags(&[
        &["max_order_amount", "not-a-number"],
        &["min_order_amount", "nope"],
        &["fee", "invalid"],
        &["expiration_hours"],
        &["unknown_tag", "ignored"],
    ]);
    let result = mostro_info_from_tags(&t);
    assert!(result.max_order_amount.is_none());
    assert!(result.min_order_amount.is_none());
    assert!(result.fee.is_none());
    assert!(result.expiration_hours.is_none());
    assert_eq!(result.fiat_currencies_accepted, Vec::<String>::new());
}

#[test]
fn parse_empty_fiat_currencies_returns_empty_list() {
    let result = mostro_info_from_tags(&tags(&[&["fiat_currencies_accepted", ""]]));
    assert_eq!(result.fiat_currencies_accepted, Vec::<String>::new());
}

#[test]
fn parse_valid_tags_roundtrip() {
    let t = tags(&[
        &["mostro_version", "0.1.0"],
        &["max_order_amount", "1000000"],
        &["fiat_currencies_accepted", "USD,EUR"],
    ]);
    let result = mostro_info_from_tags(&t);
    assert_eq!(result.mostro_version.as_deref(), Some("0.1.0"));
    assert_eq!(result.max_order_amount, Some(1_000_000));
    assert_eq!(result.fiat_currencies_accepted, vec!["USD", "EUR"]);
}

#[test]
fn later_tag_overrides_earlier_one() {
    let t = tags(&[&["pow", "4"], &["pow", "9"]]);
    assert_eq!(mostro_info_from_tags(&t).pow, Some(9));
}

#[test]
fn nostr_pow_from_instance_none_or_missing_tag_is_zero() {
    assert_eq!(nostr_pow_from_instance(None), 0);
    assert_eq!(nostr_pow_from_instance(Some(&MostroInstanceInfo::empty())), 0);
}

#[test]
fn parse_bond_enabled_tag_values() {
    assert_eq!(parse_bond_enabled("true"), Some(true));
    assert_eq!(parse_bond_enabled("TRUE"), Some(true));
    assert_eq!(parse_bond_enabled("false"), Some(false));
    assert_eq!(parse_bond_enabled("invalid"), None);
}

#[test]
fn parse_bond_enabled_accepts_numeric_and_word_forms() {
    assert_eq!(parse_bond_enabled(" yes "), Some(true));
    assert_eq!(parse_bond_enabled("1"), Some(true));
    assert_eq!(parse_bond_enabled("No"), Some(false));
    assert_eq!(parse_bond_enabled("0"), Some(false));
}

#[test]
fn instance_bonds_enabled_requires_explicit_true() {
    assert!(!instance_bonds_enabled(None));
    assert!(!instance_bonds_enabled(Some(&MostroInstanceInfo::empty())));
    assert!(!instance_bonds_enabled(Some(&MostroInstanceInfo {
        bond_enabled: Some(false),
        ..MostroInstanceInfo::empty()
    })));
    assert!(instance_bonds_enabled(Some(&MostroInstanceInfo {
        bond_enabled: Some(true),
        ..MostroInstanceInfo::empty()
    })));
}

#[test]
fn parse_bond_enabled_from_tags() {
    let result = mostro_info_from_tags(&tags(&[&["bond_enabled", "true"]]));
    assert_eq!(result.bond_enabled, Some(true));
    let result = mostro_info_from_tags(&tags(&[&["bond_enabled", "false"]]));
    assert_eq!(result.bond_enabled, Some(false));
}

#[test]
fn nostr_pow_from_instance_uses_tag_and_clamps() {
    let with_pow = |pow| MostroInstanceInfo { pow: Some(pow), ..MostroInstanceInfo::empty() };
    assert_eq!(nostr_pow_from_instance(Some(&with_pow(0))), 0);
    assert_eq!(nostr_pow_from_instance(Some(&with_pow(8))), 8);
    assert_eq!(nostr_pow_from_instance(Some(&with_pow(u32::MAX))), u8::MAX);
}

#[test]
fn parse_protocol_version_from_tags() {
    let result = mostro_info_from_tags(&tags(&[&["protocol_version", "2"]]));
    assert_eq!(result.protocol_version, Some(2));
    let result = mostro_info_from_tags(&tags(&[&["protocol_version", "1"]]));
    assert_eq!(result.protocol_version, Some(1));
    let result = mostro_info_from_tags(&tags(&[&["protocol_version", "bad"]]));
    assert!(result.protocol_version.is_none());
}

#[test]
fn transport_from_instance_resolves_protocol_version() {
    let with_version = |v| MostroInstanceInfo { protocol_version: Some(v), ..MostroInstanceInfo::empty() };
    assert_eq!(transport_from_instance(None), Transport::GiftWrap);
    assert_eq!(transport_from_instance(Some(&MostroInstanceInfo::empty())), Transport::GiftWrap);
    assert_eq!(transport_from_instance(Some(&with_version(1))), Transport::GiftWrap);
    assert_eq!(transport_from_instance(Some(&with_version(2))), Transport::Nip44Direct);
    assert_eq!(transport_from_instance(Some(&with_version(99))), Transport::GiftWrap);
}

#[test]
fn is_v2_first_contact_protocol_action_matches_new_order_and_takes() {
    assert!(is_v2_first_contact_protocol_action(&Action::NewOrder));
    assert!(is_v2_first_contact_protocol_action(&Action::TakeBuy));
    assert!(is_v2_first_contact_protocol_action(&Action::TakeSell));
    assert!(!is_v2_first_contact_protocol_action(&Action::AddInvoice));
    assert!(!is_v2_first_contact_protocol_action(&Action::PayInvoice));
}

#[test]
fn parse_pow_first_contact_from_tags() {
    let result = mostro_info_from_tags(&tags(&[&["pow", "8"], &["pow_first_contact", "16"]]));
    assert_eq!(result.pow, Some(8));
    assert_eq!(result.pow_first_contact, Some(16));
}

#[test]
fn effective_pow_first_contact_falls_back_to_base_pow() {
    assert_eq!(effective_pow_first_contact_from_instance(None), 0);
    assert_eq!(
        effective_pow_first_contact_from_instance(Some(&MostroInstanceInfo {
            pow: Some(8),
            ..MostroInstanceInfo::empty()
        })),
        8
    );
    assert_eq!(
        effective_pow_first_contact_from_instance(Some(&MostroInstanceInfo {
            pow: Some(8),
            pow_first_contact: Some(16),
            ..MostroInstanceInfo::empty()
        })),
        16
    );
}

#[test]
fn nostr_pow_for_protocol_dm_v2_first_contact_uses_max_toll() {
    let info = MostroInstanceInfo {
        pow: Some(8),
        pow_first_contact: Some(16),
        protocol_version: Some(2),
        ..MostroInstanceInfo::empty()
    };
    assert_eq!(nostr_pow_for_protocol_dm(Some(&info), &Action::NewOrder), 16);
    assert_eq!(nostr_pow_for_protocol_dm(Some(&info), &Action::TakeBuy), 16);
    assert_eq!(nostr_pow_for_protocol_dm(Some(&info), &Action::AddInvoice), 8);
}

#[test]
fn nostr_pow_for_protocol_dm_v1_ignores_first_contact_toll() {
    let info = MostroInstanceInfo {
        pow: Some(8),
        pow_first_contact: Some(16),
        protocol_version: Some(1),
        ..MostroInstanceInfo::empty()
    };
    assert_eq!(nostr_pow_for_protocol_dm(Some(&info), &Action::NewOrder), 8);
}

#[test]
fn forged_author_instance_info_is_rejected() {
    let mostro = Keys::generate();
    let attacker = Keys::generate();
    let forged = instance_info_event(&attacker, "2", Some(mostro.public_key().to_hex()), 2_000);
    let c = candidate(&forged, &mostro.public_key());
    assert!(!instance_info_event_is_authentic(&c));
    assert!(select_authentic_instance_info_event(&vec![c]).is_none());
}

#[test]
fn wrong_d_tag_instance_info_is_rejected() {
    let mostro = Keys::generate();
    let bad_d = instance_info_event(&mostro, "2", Some("not-the-mostro-pubkey".into()), 1_000);
    assert!(!instance_info_event_is_authentic(&candidate(&bad_d, &mostro.public_key())));
}

#[test]
fn missing_d_tag_instance_info_is_rejected() {
    let mostro = Keys::generate();
    let no_d = instance_info_event(&mostro, "2", None, 1_000);
    assert!(!instance_info_event_is_authentic(&candidate(&no_d, &mostro.public_key())));
}

#[test]
fn authentic_instance_info_wins_over_forged_newer() {
    let mostro = Keys::generate();
    let attacker = Keys::generate();
    let authentic = instance_info_event(&mostro, "1", Some(mostro.public_key().to_hex()), 1_000);
    let forged_newer = instance_info_event(&attacker, "2", Some(mostro.public_key().to_hex()), 9_999);
    let events = vec![forged_newer, authentic.clone()];
    let candidates: Vec<InfoCandidate> = events.iter().map(|e| candidate(e, &mostro.public_key())).collect();
    let selected = select_authentic_instance_info_event(&candidates).expect("authentic event must be selected");
    assert_eq!(events[selected].id, authentic.id);
    let info = mostro_info_from_authenticated_event(&event_tags(&events[selected]), events[selected].created_at.as_secs());
    assert_eq!(info.protocol_version, Some(1));
    assert_eq!(info.last_updated, Some(1_000));
    assert_eq!(transport_from_instance(Some(&info)), Transport::GiftWrap);
}

#[test]
fn newest_authentic_instance_info_is_selected() {
    let mostro = Keys::generate();
    let older = instance_info_event(&mostro, "1", Some(mostro.public_key().to_hex()), 1_000);
    let newer = instance_info_event(&mostro, "2", Some(mostro.public_key().to_hex()), 2_000);
    let events = vec![older, newer.clone()];
    let candidates: Vec<InfoCandidate> = events.iter().map(|e| candidate(e, &mostro.public_key())).collect();
    let selected = select_authentic_instance_info_event(&candidates).expect("newest authentic");
    assert_eq!(events[selected].id, newer.id);
    let info = mostro_info_from_authenticated_event(&event_tags(&events[selected]), events[selected].created_at.as_secs());
    assert_eq!(info.protocol_version, Some(2));
    assert_eq!(transport_from_instance(Some(&info)), Transport::Nip44Direct);
}

#[test]
fn instance_info_fetch_to_apply_only_on_found() {
    assert!(MostroInstanceInfoFetch::Found(Box::new(MostroInstanceInfo {
        protocol_version: Some(2),
        ..MostroInstanceInfo::empty()
    }))
    .to_apply()
    .is_some());
    assert!(MostroInstanceInfoFetch::NotFound.to_apply().is_none());
    assert!(MostroInstanceInfoFetch::Rejected { fetched: 3 }.to_apply().is_none());
}

#[test]
fn instance_info_age_text() {
    assert_eq!(format_instance_info_age_at(1_000, 1_030), "just now");
    assert_eq!(format_instance_info_age_at(1_000, 1_060), "1 minute ago");
    assert_eq!(format_instance_info_age_at(0, 7_200), "2 hours ago");
    assert_eq!(format_instance_info_age_at(0, 86_400), "1 day ago");
    assert_eq!(format_instance_info_age_at(5_000, 1_000), "just now");
}

#[test]
fn instance_info_staleness() {
    let mut info = MostroInstanceInfo::empty();
    assert!(info.is_stale_at(10));
    info.last_updated = Some(100);
    assert!(!info.is_stale_at(100 + INSTANCE_INFO_STALE_SECS));
    assert!(info.is_stale_at(101 + INSTANCE_INFO_STALE_SECS));
}

#[test]
fn fee_tag_kept_only_when_it_reads_as_a_float() {
    for ok in ["0.006", "0.0", "1", ".5", "5.", "1e-3", "2E+4", "-0.5", "inf", "NaN"] {
        let result = mostro_info_from_tags(&tags(&[&["fee", ok]]));
        assert_eq!(result.fee.as_deref(), Some(ok), "{ok}");
    }
    for bad in ["NaN?", ".", "", "1e", "e5", " 1", "1.2.3", "0x10"] {
        let result = mostro_info_from_tags(&tags(&[&["fee", bad]]));
        assert!(result.fee.is_none(), "{bad}");
    }
}
