use mostrix::ln_address::{
    check_lnurl_metadata, is_valid_invoice, payout_target, resolve_lnurlp_metadata_url, InvoiceError,
    LnAddressError, PayoutTarget,
};

#[test]
fn resolves_well_known_lnurlp_from_lightning_address() {
    let url = resolve_lnurlp_metadata_url("user@example.com").unwrap();
    assert_eq!(url, "https://example.com/.well-known/lnurlp/user");
}

#[test]
fn resolves_raw_lnurl_and_trims_input() {
    let lnurl = lnurl::lnurl::LnUrl::from_url("https://service.example/lnurlp/abc".to_string()).encode();
    assert_eq!(
        resolve_lnurlp_metadata_url(&format!("  {} ", lnurl.to_uppercase())).unwrap(),
        "https://service.example/lnurlp/abc"
    );
    assert_eq!(resolve_lnurlp_metadata_url("lnurl1notvalid"), Err(LnAddressError::InvalidLnurl));
    assert_eq!(resolve_lnurlp_metadata_url("not an address"), Err(LnAddressError::InvalidAddressFormat));
}

#[test]
fn lnurl_metadata_must_declare_pay_request() {
    assert!(check_lnurl_metadata(r#"{"tag":"payRequest","callback":"x"}"#).is_ok());
    assert_eq!(check_lnurl_metadata("not json"), Err(LnAddressError::NotJson));
    assert_eq!(check_lnurl_metadata(r#"{"callback":"x"}"#), Err(LnAddressError::MissingTag));
    let err = check_lnurl_metadata(r#"{"tag":"withdrawRequest"}"#).unwrap_err();
    assert_eq!(err, LnAddressError::UnexpectedTag("withdrawRequest".to_string()));
    assert_eq!(err.message(), "unexpected LNURL tag withdrawRequest (expected payRequest)");
}

#[test]
fn garbage_is_not_a_bolt11_invoice() {
    assert_eq!(is_valid_invoice("lnbc1garbage"), Err(InvoiceError::Invalid));
    match payout_target("nope", 0) {
        PayoutTarget::Invalid(InvoiceError::Invalid) => {}
        _ => panic!("garbage must be refused"),
    }
    match payout_target(" alice@example.com ", 0) {
        PayoutTarget::LightningAddress(a) => assert_eq!(a, "alice@example.com"),
        _ => panic!("an address is a Lightning address"),
    }
}
