use mostrix::file_validation::{check_attachment_name, validate_attachment_data, AttachmentError};
use mostrix::settings::clear_ln_address_in_settings;
use mostrix::blossom::blossom_url_to_https;
use mostrix::fatal::{next_backoff_secs, BACKOFF_RESET_AFTER_SECS, INITIAL_BACKOFF_SECS, MAX_BACKOFF_SECS};
use mostrix::push::{notify_allowed, wake_target, NOTIFY_DEBOUNCE_MS};
use mostrix::settings::{clear_ln_address, Settings};
use mostrix::waiters::waiter_correlates_request_id;

#[test]
fn blossom_url_to_https_ok() {
    assert_eq!(
        blossom_url_to_https("blossom://blossom.primal.net/abc").unwrap(),
        "https://blossom.primal.net/abc"
    );
    assert_eq!(
        blossom_url_to_https("https://blossom.primal.net/abc").unwrap(),
        "https://blossom.primal.net/abc"
    );
}

#[test]
fn blossom_url_to_https_rejects_other() {
    assert!(blossom_url_to_https("http://evil.com/x").is_err());
}

#[test]
fn blossom_url_to_https_error_message_names_the_url() {
    let err = blossom_url_to_https("  ftp://host/x ").unwrap_err();
    assert_eq!(
        err.message(),
        "Blossom URL must start with blossom:// or https://, got: ftp://host/x"
    );
}

#[test]
fn waiter_correlates_request_id_requires_exact_echo_when_expected() {
    assert!(waiter_correlates_request_id(None, None));
    assert!(waiter_correlates_request_id(None, Some(7)));
    assert!(waiter_correlates_request_id(Some(7), Some(7)));
    assert!(!waiter_correlates_request_id(Some(7), Some(8)));
    assert!(!waiter_correlates_request_id(Some(7), None));
}

#[test]
fn next_backoff_doubles_until_cap() {
    assert_eq!(next_backoff_secs(1, 1), 2);
    assert_eq!(next_backoff_secs(32, 1), 60);
    assert_eq!(next_backoff_secs(60, 1), 60);
}

#[test]
fn next_backoff_resets_after_long_healthy_run() {
    assert_eq!(next_backoff_secs(60, BACKOFF_RESET_AFTER_SECS), INITIAL_BACKOFF_SECS);
}

#[test]
fn next_backoff_saturates_on_huge_delay() {
    assert_eq!(next_backoff_secs(u64::MAX, 0), MAX_BACKOFF_SECS);
    assert_eq!(next_backoff_secs(3, BACKOFF_RESET_AFTER_SECS - 1), 6);
}

#[test]
fn notify_allowed_when_never_rung() {
    assert!(notify_allowed(None, 1_000_000));
}

#[test]
fn notify_blocked_within_debounce_window() {
    let now = 1_000_000u64;
    let last = now - NOTIFY_DEBOUNCE_MS / 2;
    assert!(!notify_allowed(Some(last), now));
}

#[test]
fn notify_allowed_once_debounce_elapsed() {
    let now = 1_000_000u64;
    let last = now - NOTIFY_DEBOUNCE_MS;
    assert!(notify_allowed(Some(last), now));
}

#[test]
fn wake_target_none_when_relay_rejected_all() {
    let pubkey = "ab".repeat(32);
    assert_eq!(wake_target(false, Some(pubkey.as_str())), None);
}

#[test]
fn wake_target_none_when_recipient_missing() {
    assert_eq!(wake_target(true, None), None);
}

#[test]
fn wake_target_some_when_accepted_and_recipient_present() {
    let pubkey = "cd".repeat(32);
    assert_eq!(wake_target(true, Some(pubkey.as_str())), Some(pubkey.as_str()));
}

#[test]
fn clear_ln_address_clears_only_ln_address_field() {
    let mut settings = Settings {
        mostro_pubkey: "npub".to_string(),
        nsec_privkey: "nsec".to_string(),
        admin_privkey: "admin".to_string(),
        relays: vec!["wss://relay.example".to_string()],
        log_level: "info".to_string(),
        currencies_filter: vec!["USD".to_string()],
        user_mode: "user".to_string(),
        ln_address: "user@domain.com".to_string(),
        blossom_servers: vec![],
        push_server_url: String::new(),
    };

    clear_ln_address(&mut settings);

    assert!(settings.ln_address.is_empty());
    assert_eq!(settings.mostro_pubkey, "npub");
    assert_eq!(settings.relays, vec!["wss://relay.example"]);
}

#[test]
fn clearing_ln_address_in_settings_writes_only_when_needed() {
    let settings = Settings {
        mostro_pubkey: "npub".to_string(),
        nsec_privkey: "nsec".to_string(),
        admin_privkey: "admin".to_string(),
        relays: vec!["wss://relay.example".to_string()],
        log_level: "info".to_string(),
        currencies_filter: vec![],
        user_mode: "user".to_string(),
        ln_address: "user@domain.com".to_string(),
        blossom_servers: vec![],
        push_server_url: String::new(),
    };
    assert!(clear_ln_address_in_settings(None).is_none());
    let cleared = clear_ln_address_in_settings(Some(settings)).expect("address present");
    assert!(cleared.ln_address.is_empty());
    assert_eq!(cleared.relays, vec!["wss://relay.example"]);
    assert!(clear_ln_address_in_settings(Some(cleared)).is_none());
}

#[test]
fn attachment_errors_read_as_the_ui_shows_them() {
    let err = check_attachment_name(Some("evil.exe"), Some("EXE")).err().unwrap();
    assert_eq!(err.message(), "Unsupported file type (.exe). Allowed: jpg, jpeg, png, pdf, mp4, mov, avi, doc, docx");
    assert_eq!(AttachmentError::TooLarge(30_000_000).message(), "File too large: 30000000 bytes (max 25 MB)");
    let err = validate_attachment_data("a.pdf".to_string(), "pdf", b"hello".to_vec()).err().unwrap();
    assert_eq!(err.message(), "File does not look like a valid PDF");
    let err = validate_attachment_data("a.png".to_string(), "png", vec![]).err().unwrap();
    assert_eq!(err.message(), "File is empty");
}
