use mostro_core::message::{Action as WireAction, BondResolution as WireBond, Message, Payload as WirePayload};
use mostrix::bond::BondSlashChoice;
use mostrix::order::Payload;

fn wire_payload(p: Option<Payload>) -> Option<WirePayload> {
    match p {
        None => None,
        Some(Payload::BondResolution(b)) => Some(WirePayload::BondResolution(WireBond {
            slash_seller: b.slash_seller,
            slash_buyer: b.slash_buyer,
        })),
        Some(_) => panic!("bond choices only produce bond resolutions"),
    }
}

fn dispute_message(action: WireAction, bond: BondSlashChoice) -> Message {
    Message::new_dispute(
        Some(uuid::Uuid::parse_str("308e1272-d5f4-47e6-bd97-3504baea9c23").unwrap()),
        None,
        None,
        action,
        wire_payload(bond.to_optional_payload()),
    )
}

fn bond_resolution_from_message(msg: &Message) -> WireBond {
    match msg {
        Message::Dispute(kind) => match &kind.payload {
            Some(WirePayload::BondResolution(b)) => b.clone(),
            other => panic!("expected BondResolution payload, got {other:?}"),
        },
        other => panic!("expected Dispute message, got {other:?}"),
    }
}

#[test]
fn choice_index_roundtrip() {
    for (i, choice) in BondSlashChoice::ALL.iter().enumerate() {
        assert_eq!(choice.choice_index(), i);
        assert_eq!(BondSlashChoice::from_choice_index(i), *choice);
    }
}

#[test]
fn out_of_range_index_is_no_slash() {
    assert_eq!(BondSlashChoice::from_choice_index(4), BondSlashChoice::NoSlash);
    assert_eq!(BondSlashChoice::from_choice_index(usize::MAX), BondSlashChoice::NoSlash);
}

#[test]
fn slash_flags_match_choice() {
    assert!(!BondSlashChoice::NoSlash.slash_seller());
    assert!(!BondSlashChoice::NoSlash.slash_buyer());
    assert!(!BondSlashChoice::SlashBuyer.slash_seller());
    assert!(BondSlashChoice::SlashBuyer.slash_buyer());
    assert!(BondSlashChoice::SlashSeller.slash_seller());
    assert!(!BondSlashChoice::SlashSeller.slash_buyer());
    assert!(BondSlashChoice::SlashBoth.slash_seller());
    assert!(BondSlashChoice::SlashBoth.slash_buyer());
}

#[test]
fn labels_and_log_context() {
    assert_eq!(BondSlashChoice::NoSlash.log_context(), "no bond slash");
    assert_eq!(BondSlashChoice::SlashBoth.log_context(), "slash both bonds");
    assert_ne!(BondSlashChoice::SlashBuyer.label(), BondSlashChoice::SlashSeller.label());
}

#[test]
fn admin_settle_and_cancel_verify_with_bond_resolution() {
    for action in [WireAction::AdminSettle, WireAction::AdminCancel] {
        for bond in BondSlashChoice::ALL {
            let msg = dispute_message(action.clone(), bond);
            assert!(msg.verify(), "{action:?} + {bond:?} should verify");
        }
    }
}

#[test]
fn bond_resolution_wire_format_admin_settle() {
    let msg = dispute_message(WireAction::AdminSettle, BondSlashChoice::SlashBuyer);
    let json = msg.as_json().expect("serialize");
    assert!(json.contains("\"bond_resolution\""), "expected snake_case discriminator, got: {json}");
    assert!(json.contains("\"slash_seller\":false"));
    assert!(json.contains("\"slash_buyer\":true"));
    assert!(json.contains("\"action\":\"admin-settle\""));
    let decoded = Message::from_json(&json).expect("deserialize");
    assert!(decoded.verify());
    let b = bond_resolution_from_message(&decoded);
    assert!(!b.slash_seller);
    assert!(b.slash_buyer);
}

#[test]
fn bond_resolution_wire_format_admin_cancel_slash_seller() {
    let msg = dispute_message(WireAction::AdminCancel, BondSlashChoice::SlashSeller);
    let json = msg.as_json().expect("serialize");
    assert!(json.contains("\"action\":\"admin-cancel\""));
    assert!(json.contains("\"slash_seller\":true"));
    assert!(json.contains("\"slash_buyer\":false"));
    let decoded = Message::from_json(&json).expect("deserialize");
    assert!(decoded.verify());
}

#[test]
fn bond_resolution_none_omits_payload() {
    let msg = dispute_message(WireAction::AdminSettle, BondSlashChoice::NoSlash);
    assert!(msg.verify());
    let json = msg.as_json().expect("serialize");
    assert!(json.contains("\"payload\":null"), "got: {json}");
    assert!(!json.contains("bond_resolution"), "got: {json}");
}

#[test]
fn to_payload_none_is_explicit_false_false() {
    match BondSlashChoice::NoSlash.to_payload() {
        Payload::BondResolution(b) => {
            assert!(!b.slash_seller);
            assert!(!b.slash_buyer);
        }
        _ => panic!("expected BondResolution"),
    }
}

#[test]
fn bond_resolution_wire_format_slash_both() {
    let msg = dispute_message(WireAction::AdminSettle, BondSlashChoice::SlashBoth);
    let json = msg.as_json().expect("serialize");
    assert!(json.contains("\"bond_resolution\""), "got: {json}");
    assert!(json.contains("\"slash_seller\":true"));
    assert!(json.contains("\"slash_buyer\":true"));
    assert!(json.contains("\"action\":\"admin-settle\""));
    let decoded = Message::from_json(&json).expect("deserialize");
    assert!(decoded.verify());
    let b = bond_resolution_from_message(&decoded);
    assert!(b.slash_seller);
    assert!(b.slash_buyer);
}
