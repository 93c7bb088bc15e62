use chacha20poly1305::aead::{Aead, KeyInit};
use mostrix::active_orders::ActiveOrders;
use mostrix::blossom::{attachment_download_name, blossom_url_to_https, decrypt_blob, sanitize_filename, DecryptError};
use mostrix::fatal::{request_fatal_restart, supervisor_after_exit, task_alarm_message, FatalLatch, SupervisorStep};
use mostrix::file_validation::{
    attachment_extension_allowed, classify_extension, mime_type_for_extension, read_image_dimensions,
    validate_pdf_header, AttachmentFileClass,
};
use mostrix::mostro_info::{format_instance_info_age, format_instance_info_age_at, MostroInstanceInfo};
use mostrix::network::{grace_after_fetch, merge_fetch_result, relay_host_port};
use mostrix::order::{
    determine_message_type, get_cant_do_description, is_pre_active_status, is_terminal_order_status, order_status_untracks_chat,
    small_order_ref_from_payload, status_by_name, CantDoReason, MessageType, OrderStatus, Payload, SmallOrder,
};
use mostrix::settings::{blossom_servers_from_settings, ln_address_needs_clearing, Settings};
use mostrix::push::{plan_wake, wake_recipient, wake_recipient_via_settings, WakeLog};
use mostrix::session_wipe::{begin_steps, clear_session_files_steps, commit_steps, rollback_steps, staging_dir_name, StagedSessionWipe, WipeStep};

#[test]
fn relay_host_port_reads_scheme_host_and_port() {
    assert_eq!(relay_host_port("wss://relay.example:7777/path"), Some(("relay.example".to_string(), 7777)));
    assert_eq!(relay_host_port(" wss://relay.example "), Some(("relay.example".to_string(), 443)));
    assert_eq!(relay_host_port("ws://localhost"), Some(("localhost".to_string(), 80)));
    assert_eq!(relay_host_port("https://relay.example"), None);
    assert_eq!(relay_host_port("wss://relay.example:99999"), None);
    assert_eq!(relay_host_port("wss://:443"), None);
}

#[test]
fn filenames_are_sanitized_for_downloads() {
    assert_eq!(sanitize_filename("../../etc/passwd"), ".._.._etc_passwd");
    assert_eq!(sanitize_filename(""), "attachment");
    assert_eq!(attachment_download_name("d1", "a b.png", true), "d1_a_b.png");
    assert_eq!(attachment_download_name("d1", "x.png", false), "d1_x.png.enc");
}

#[test]
fn blob_decrypts_with_the_shared_key() {
    let key = [7u8; 32];
    let nonce = [1u8; 12];
    let cipher = chacha20poly1305::ChaCha20Poly1305::new_from_slice(&key).unwrap();
    #[allow(deprecated)]
    let sealed = cipher.encrypt(chacha20poly1305::Nonce::from_slice(&nonce), b"hello".as_ref()).unwrap();
    let mut blob = nonce.to_vec();
    blob.extend_from_slice(&sealed);
    assert_eq!(decrypt_blob(&key, &blob), Ok(b"hello".to_vec()));
    assert_eq!(blob.len(), b"hello".len() + 28);
    let mut tampered = blob.clone();
    let last = tampered.len() - 1;
    tampered[last] ^= 1;
    assert_eq!(decrypt_blob(&key, &tampered), Err(DecryptError::Failed));
    assert_eq!(decrypt_blob(&key[..31], &blob), Err(DecryptError::KeyLength(31)));
    assert_eq!(decrypt_blob(&key, &blob[..27]), Err(DecryptError::BlobTooShort(27)));
}

#[test]
fn attachment_kinds_and_headers() {
    assert!(attachment_extension_allowed(false, Some("PNG")));
    assert!(attachment_extension_allowed(true, None));
    assert!(!attachment_extension_allowed(false, Some("exe")));
    assert!(!attachment_extension_allowed(false, None));
    assert_eq!(classify_extension("mov"), AttachmentFileClass::Video);
    assert_eq!(classify_extension("docx"), AttachmentFileClass::Document);
    assert_eq!(mime_type_for_extension("jpg"), "image/jpeg");
    assert_eq!(mime_type_for_extension("zzz"), "application/octet-stream");
    assert!(validate_pdf_header(b"%PDF-1.7 ..."));
    assert!(!validate_pdf_header(b"%PDX"));
    let mut png = vec![0x89, b'P', b'N', b'G', 0x0D, 0x0A, 0x1A, 0x0A, 0, 0, 0, 13, b'I', b'H', b'D', b'R'];
    png.extend_from_slice(&640u32.to_be_bytes());
    png.extend_from_slice(&480u32.to_be_bytes());
    assert_eq!(read_image_dimensions(&png), Some((640, 480)));
    let jpeg = vec![0xFF, 0xD8, 0xFF, 0xC0, 0x00, 0x0B, 0x08, 0x01, 0xE0, 0x02, 0x80, 0x03, 0, 0, 0, 0, 0, 0, 0, 0];
    assert_eq!(read_image_dimensions(&jpeg), Some((640, 480)));
    assert_eq!(read_image_dimensions(b"GIF89a"), None);
}

#[test]
fn wake_request_needs_server_and_hex_key() {
    let key = "AB".repeat(32);
    let w = plan_wake("https://push.example//", &key).expect("valid");
    assert_eq!(w.url, "https://push.example/api/notify");
    assert_eq!(w.trade_pubkey, "ab".repeat(32));
    assert!(plan_wake("", &key).is_none());
    assert!(plan_wake("https://push.example", "zz").is_none());
    assert!(plan_wake("https://push.example", &"g".repeat(64)).is_none());
}

#[test]
fn first_fatal_request_wins_and_stops_supervision() {
    let mut latch = FatalLatch::new();
    match supervisor_after_exit(&latch, "dm-listener", 4, 1) {
        SupervisorStep::Restart { alarm, sleep_secs, next_backoff_secs } => {
            assert_eq!(alarm, task_alarm_message("dm-listener", 4));
            assert_eq!(sleep_secs, 4);
            assert_eq!(next_backoff_secs, 8);
        }
        SupervisorStep::Stop => panic!("no fatal yet"),
    }
    assert_eq!(request_fatal_restart(&mut latch, "first".to_string()), Some("first".to_string()));
    assert_eq!(request_fatal_restart(&mut latch, "second".to_string()), None);
    assert_eq!(supervisor_after_exit(&latch, "dm-listener", 4, 1), SupervisorStep::Stop);
    assert_eq!(
        task_alarm_message("x", 2),
        "Background task \"x\" stopped unexpectedly and is restarting (retry in 2s).\nOther protocol channels remain active."
    );
}

#[test]
fn session_wipe_plans_stage_and_restore_present_dirs() {
    let present = vec![true, false, true, false];
    let begin = begin_steps(&present);
    assert_eq!(begin, vec![WipeStep::CreateStagingDir, WipeStep::StageSubdir(0), WipeStep::StageSubdir(2)]);
    let commit = commit_steps(&vec![false, false, false, false], true);
    assert_eq!(commit.last(), Some(&WipeStep::RemoveStagingDir));
    assert!(commit.contains(&WipeStep::CreateSubdir(3)));
    let rollback = rollback_steps(&vec![false; 4], &present, true);
    assert!(rollback.contains(&WipeStep::RestoreSubdir(0)));
    assert!(rollback.contains(&WipeStep::RestoreSubdir(2)));
    assert!(!rollback.contains(&WipeStep::RestoreSubdir(1)));
    let w = StagedSessionWipe::new("/tmp/base".to_string());
    assert!(w.backup_dir.starts_with(".session-wipe-staging-"));
    assert_eq!(staging_dir_name(0), ".session-wipe-staging-00000000-0000-0000-0000-000000000000");
}

#[test]
fn active_orders_rebind_drops_the_optimistic_id() {
    let mut a = ActiveOrders::new();
    a.insert(1, 5);
    a.insert(2, 6);
    assert_eq!(a.get(1), Some(5));
    a.track(9, 5);
    assert_eq!(a.get(1), None);
    assert_eq!(a.get(9), Some(5));
    assert_eq!(a.get(2), Some(6));
    a.remove(2);
    assert_eq!(a.len(), 1);
}

fn sample_settings(blossom: &[&str], ln_address: &str) -> Settings {
    Settings {
        mostro_pubkey: "npub1mostro".to_string(),
        nsec_privkey: "nsec1user".to_string(),
        admin_privkey: String::new(),
        relays: vec!["wss://relay.example".to_string()],
        log_level: "info".to_string(),
        currencies_filter: vec![],
        user_mode: "user".to_string(),
        ln_address: ln_address.to_string(),
        blossom_servers: blossom.iter().map(|s| s.to_string()).collect(),
        push_server_url: String::new(),
    }
}

#[test]
fn blossom_servers_fall_back_to_the_defaults() {
    let own = blossom_servers_from_settings(&sample_settings(&["https://my.blossom"], ""));
    assert_eq!(own, vec!["https://my.blossom".to_string()]);
    let defaults = blossom_servers_from_settings(&sample_settings(&[], ""));
    assert_eq!(defaults, vec![
        "https://blossom.primal.net".to_string(),
        "https://blossom.band".to_string(),
        "https://nostr.media".to_string()
    ]);
    assert!(ln_address_needs_clearing(&sample_settings(&[], "me@wallet.example")));
    assert!(!ln_address_needs_clearing(&sample_settings(&[], "")));
}

#[test]
fn clearing_session_files_recreates_every_subdirectory() {
    let steps = clear_session_files_steps(&vec![true, false]);
    assert_eq!(steps, vec![WipeStep::RemoveSubdir(0), WipeStep::CreateSubdir(0), WipeStep::CreateSubdir(1)]);
}

#[test]
fn instance_info_without_timestamp_is_stale() {
    let info = MostroInstanceInfo::empty();
    assert!(info.is_stale());
    let fresh = MostroInstanceInfo { last_updated: Some(1_000), ..MostroInstanceInfo::empty() };
    assert!(!fresh.is_stale_at(1_100));
    assert_eq!(format_instance_info_age_at(1_000, 1_030), "just now");
    assert_eq!(format_instance_info_age_at(1_000, 1_000 + 120), "2 minutes ago");
    assert!(format_instance_info_age(0).ends_with("ago"));
}

#[test]
fn order_status_predicates_and_lookups() {
    assert!(is_terminal_order_status(OrderStatus::Success));
    assert!(!is_terminal_order_status(OrderStatus::Active));
    assert!(!order_status_untracks_chat(OrderStatus::Success));
    assert!(order_status_untracks_chat(OrderStatus::Expired));
    assert!(is_pre_active_status(OrderStatus::WaitingTakerBond));
    assert!(!is_pre_active_status(OrderStatus::Active));
    assert_eq!(status_by_name("waiting-buyer-invoice"), Some(OrderStatus::WaitingBuyerInvoice));
    assert_eq!(status_by_name("Active"), None);
    let o = SmallOrder { amount: 3, ..Default::default() };
    let p = Payload::PaymentRequest(Some(o), "lnbc".to_string(), None);
    assert_eq!(small_order_ref_from_payload(Some(&p)).map(|o| o.amount), Some(3));
    assert!(small_order_ref_from_payload(None).is_none());
    assert_eq!(get_cant_do_description(&CantDoReason::InvalidSignature), "Invalid signature - authentication failed");
}

#[test]
fn message_type_follows_recipient_and_privacy() {
    assert_eq!(determine_message_type(true, false), MessageType::PrivateDirectMessage);
    assert_eq!(determine_message_type(true, true), MessageType::PrivateDirectMessage);
    assert_eq!(determine_message_type(false, true), MessageType::PrivateGiftWrap);
    assert_eq!(determine_message_type(false, false), MessageType::SignedGiftWrap);
}

#[test]
fn wakes_are_debounced_per_recipient() {
    let key = "AB".repeat(32);
    let mut log = WakeLog::new();
    let first = wake_recipient(&mut log, "https://push.example/", &key, 1_000).expect("first wake");
    assert_eq!(first.url, "https://push.example/api/notify");
    assert_eq!(first.trade_pubkey, "ab".repeat(32));
    assert_eq!(log.last_ring(&"ab".repeat(32)), Some(1_000));
    assert!(wake_recipient(&mut log, "https://push.example/", &key, 5_000).is_none());
    assert_eq!(log.last_ring(&"ab".repeat(32)), Some(1_000));
    let other = "cd".repeat(32);
    assert!(wake_recipient(&mut log, "https://push.example", &other, 5_000).is_some());
    assert!(wake_recipient(&mut log, "https://push.example", &key, 11_000).is_some());
    assert_eq!(log.last_ring(&"ab".repeat(32)), Some(11_000));
    assert!(wake_recipient(&mut log, "", &"ef".repeat(32), 50_000).is_none());
    assert_eq!(log.last_ring(&"ef".repeat(32)), None);
}

#[test]
fn grace_window_is_armed_only_by_data() {
    assert_eq!(grace_after_fetch(None, Some(0), 100, 500), None);
    assert_eq!(grace_after_fetch(None, None, 100, 500), None);
    assert_eq!(grace_after_fetch(None, Some(3), 100, 500), Some(600));
    assert_eq!(grace_after_fetch(Some(600), Some(9), 400, 500), Some(600));
    assert_eq!(grace_after_fetch(None, Some(1), u64::MAX - 1, 500), Some(u64::MAX));
}

#[test]
fn converting_a_blossom_url_twice_changes_nothing() {
    for url in ["  blossom://blossom.primal.net/abc \n", "https://cdn.example/x", "blossom://"] {
        let once = blossom_url_to_https(url).ok().expect("convertible");
        assert!(once.starts_with("https://"));
        assert_eq!(blossom_url_to_https(&once).ok(), Some(once.clone()));
    }
}

#[test]
fn wakes_through_the_configured_push_server() {
    let key = "0f".repeat(32);
    let mut log = WakeLog::new();
    assert!(wake_recipient_via_settings(&mut log, None, &key, 0).is_none());
    let mut settings = sample_settings(&[], "");
    assert!(wake_recipient_via_settings(&mut log, Some(&settings), &key, 0).is_none());
    settings.push_server_url = "https://push.example".to_string();
    let w = wake_recipient_via_settings(&mut log, Some(&settings), &key, 0).expect("wake");
    assert_eq!(w.url, "https://push.example/api/notify");
    assert!(wake_recipient_via_settings(&mut log, Some(&settings), &key, 9_999).is_none());
    assert!(wake_recipient_via_settings(&mut log, Some(&settings), &key, 10_000).is_some());
}

#[test]
fn fetch_results_fold_into_one_collection() {
    let mut collected: Vec<Vec<u8>> = vec![];
    assert!(!merge_fetch_result(&mut collected, &Some(vec![])));
    assert!(collected.is_empty());
    assert!(merge_fetch_result(&mut collected, &Some(vec![vec![1u8], vec![2u8]])));
    assert!(!merge_fetch_result(&mut collected, &None));
    assert!(merge_fetch_result(&mut collected, &Some(vec![vec![2u8], vec![3u8], vec![3u8]])));
    assert_eq!(collected, vec![vec![1u8], vec![2u8], vec![3u8]]);
}
