//! Lightning payout targets: LNURL-pay metadata URLs for Lightning addresses and raw
//! LNURLs, the metadata's `payRequest` tag, and BOLT-11 invoices submitted as payout.
use vstd::prelude::*;
use crate::text::{ascii_lower, ascii_lowercase, chars_eq_str, chars_of, slice_chars, string_of, trim, trim_chars};

verus! {

/// Timeout of the LNURL metadata request, in seconds.
pub const LNURL_HTTP_TIMEOUT_SECS: u64 = 12;

/// `lnurl::lightning_address::LightningAddress::from_str` followed by `lnurlp_url`: the
/// well-known LNURL-pay URL of a Lightning address.
pub uninterp spec fn lnurlp_url_of(address: Seq<char>) -> Option<Seq<char>>;

/// `lnurl::lnurl::LnUrl::decode` and the decoded `url`.
pub uninterp spec fn lnurl_url_of(lnurl: Seq<char>) -> Option<Seq<char>>;

/// `serde_json::from_str::<Value>` then the string at `key`: `None` when the text is no
/// JSON, `Some(None)` when it has no string under that key.
pub uninterp spec fn json_string_field_of(body: Seq<char>, key: Seq<char>) -> Option<Option<Seq<char>>>;

/// `lightning_invoice::Bolt11Invoice::from_str` written back with `to_string`.
pub uninterp spec fn bolt11_text_of(invoice: Seq<char>) -> Option<Seq<char>>;

/// `LightningAddress::from_str(address)` and, on success, `lnurlp_url()`, which lnurl-rs
/// writes as `https://{domain}/.well-known/lnurlp/{local part}`. The contract claims only
/// that the outcome is the named function of the text.
#[verifier::external_body]
fn lightning_address_lnurlp_url(address: &str) -> (r: Option<String>)
    ensures
        match r {
            Some(u) => lnurlp_url_of(address@) == Some(u@),
            None => lnurlp_url_of(address@) is None,
        },
{
    <lnurl::lightning_address::LightningAddress as std::str::FromStr>::from_str(address).ok().map(|a| a.lnurlp_url())
}

/// `LnUrl::decode(lnurl)` and its `url` field; `None` when the bech32 text does not
/// decode. The contract claims only that the outcome is the named function of the text.
#[verifier::external_body]
fn decode_lnurl(lnurl: &str) -> (r: Option<String>)
    ensures
        match r {
            Some(u) => lnurl_url_of(lnurl@) == Some(u@),
            None => lnurl_url_of(lnurl@) is None,
        },
{
    lnurl::lnurl::LnUrl::decode(lnurl.to_string()).ok().map(|l| l.url)
}

/// `serde_json::from_str::<serde_json::Value>(body)` and the string under `key`. The
/// contract claims only that the outcome is the named function of the text and the key.
#[verifier::external_body]
fn json_string_field(body: &str, key: &str) -> (r: Option<Option<String>>)
    ensures
        match r {
            Some(Some(t)) => json_string_field_of(body@, key@) == Some(Some(t@)),
            Some(None) => json_string_field_of(body@, key@) == Some(None::<Seq<char>>),
            None => json_string_field_of(body@, key@) is None,
        },
{
    match serde_json::from_str::<serde_json::Value>(body) {
        Ok(v) => Some(v.get(key).and_then(|t| t.as_str()).map(|t| t.to_string())),
        Err(_) => None,
    }
}

/// `Bolt11Invoice::from_str(invoice)` and its `to_string`; `None` when the text is no
/// valid BOLT-11 invoice. The contract claims only that the outcome is the named function
/// of the text.
#[verifier::external_body]
fn bolt11_text(invoice: &str) -> (r: Option<String>)
    ensures
        match r {
            Some(t) => bolt11_text_of(invoice@) == Some(t@),
            None => bolt11_text_of(invoice@) is None,
        },
{
    <lightning_invoice::Bolt11Invoice as std::str::FromStr>::from_str(invoice).ok().map(|i| i.to_string())
}

/// `Bolt11Invoice::from_str` then `would_expire` at a time given in seconds since the
/// epoch: whether the invoice's creation time plus its expiry lies before that time.
pub uninterp spec fn bolt11_expired_at(invoice: Seq<char>, now_secs: u64) -> bool;

/// `Bolt11Invoice::from_str(invoice)` and `would_expire(now)`; `false` when the text does
/// not parse. The contract claims only that the outcome is the named function of the two
/// arguments.
#[verifier::external_body]
fn bolt11_would_expire(invoice: &str, now_secs: u64) -> (r: bool)
    ensures
        r == bolt11_expired_at(invoice@, now_secs),
{
    <lightning_invoice::Bolt11Invoice as std::str::FromStr>::from_str(invoice)
        .map(|i| i.would_expire(std::time::Duration::from_secs(now_secs)))
        .unwrap_or(false)
}

/// Why a payout target was refused.
#[derive(Debug, Clone, PartialEq, Eq)]
pub enum LnAddressError {
    InvalidLnurl,
    InvalidAddressFormat,
    NotJson,
    MissingTag,
    UnexpectedTag(String),
}

/// Text of a refusal.
pub open spec fn ln_address_error_text(e: LnAddressError) -> Seq<char> {
    match e {
        LnAddressError::InvalidLnurl => "Invalid LNURL"@,
        LnAddressError::InvalidAddressFormat => "Invalid Lightning address format"@,
        LnAddressError::NotJson => "LNURL metadata is not valid JSON"@,
        LnAddressError::MissingTag => "LNURL metadata missing tag"@,
        LnAddressError::UnexpectedTag(t) => "unexpected LNURL tag "@ + t@ + " (expected payRequest)"@,
    }
}

impl LnAddressError {
    /// The error text.
    pub fn message(&self) -> (r: String)
        ensures
            r@ == ln_address_error_text(*self),
    {
        match self {
            LnAddressError::InvalidLnurl => string_of(&chars_of("Invalid LNURL")),
            LnAddressError::InvalidAddressFormat => string_of(&chars_of("Invalid Lightning address format")),
            LnAddressError::NotJson => string_of(&chars_of("LNURL metadata is not valid JSON")),
            LnAddressError::MissingTag => string_of(&chars_of("LNURL metadata missing tag")),
            LnAddressError::UnexpectedTag(t) => {
                let mut v = chars_of("unexpected LNURL tag ");
                crate::text::append_str(&mut v, t.as_str());
                crate::text::append_str(&mut v, " (expected payRequest)");
                string_of(&v)
            },
        }
    }
}

/// Whether a (trimmed) payout target is written as a raw LNURL: its first five
/// characters, case folded, are `lnurl`. Only ASCII letters fold to these five.
pub open spec fn lnurl_prefixed(t: Seq<char>) -> bool {
    t.len() >= 5 && ascii_lower(t.subrange(0, 5)) == "lnurl"@
}

/// The metadata URL of a payout target: a raw LNURL decodes to its URL; anything else is
/// read as a Lightning address.
pub open spec fn lnurlp_metadata_url(address: Seq<char>) -> Result<Seq<char>, LnAddressError> {
    let t = trim(address);
    if lnurl_prefixed(t) {
        match lnurl_url_of(t) {
            Some(u) => Ok(u),
            None => Err(LnAddressError::InvalidLnurl),
        }
    } else {
        match lnurlp_url_of(t) {
            Some(u) => Ok(u),
            None => Err(LnAddressError::InvalidAddressFormat),
        }
    }
}

/// Resolve the URL that serves a payout target's LNURL-pay metadata.
pub fn resolve_lnurlp_metadata_url(address: &str) -> (r: Result<String, LnAddressError>)
    ensures
        match lnurlp_metadata_url(address@) {
            Ok(u) => r matches Ok(x) && x@ == u,
            Err(e) => r == Err::<String, LnAddressError>(e),
        },
{
    let t = trim_chars(&chars_of(address));
    let prefixed = if t.len() >= 5 {
        let head = ascii_lowercase(&slice_chars(&t, 0, 5));
        chars_eq_str(&head, "lnurl")
    } else {
        false
    };
    let ts = string_of(&t);
    if prefixed {
        match decode_lnurl(ts.as_str()) {
            Some(u) => Ok(u),
            None => Err(LnAddressError::InvalidLnurl),
        }
    } else {
        match lightning_address_lnurlp_url(ts.as_str()) {
            Some(u) => Ok(u),
            None => Err(LnAddressError::InvalidAddressFormat),
        }
    }
}

/// The verdict on LNURL-pay metadata: JSON whose `tag` is `payRequest`.
pub open spec fn metadata_verdict(body: Seq<char>) -> Result<(), LnAddressError> {
    match json_string_field_of(body, "tag"@) {
        None => Err(LnAddressError::NotJson),
        Some(None) => Err(LnAddressError::MissingTag),
        Some(Some(t)) => if t == "payRequest"@ {
            Ok(())
        } else {
            Err(LnAddressError::UnexpectedTag(arbitrary_string_with(t)))
        },
    }
}

/// Some string whose text is `t`.
pub open spec fn arbitrary_string_with(t: Seq<char>) -> String {
    choose|s: String| s@ == t
}

/// Check the body of an LNURL-pay metadata response.
pub fn check_lnurl_metadata(body: &str) -> (r: Result<(), LnAddressError>)
    ensures
        match metadata_verdict(body@) {
            Ok(()) => r is Ok,
            Err(LnAddressError::UnexpectedTag(t)) => r matches Err(LnAddressError::UnexpectedTag(x)) && x@ == t@,
            Err(e) => r == Err::<(), LnAddressError>(e),
        },
{
    match json_string_field(body, "tag") {
        None => Err(LnAddressError::NotJson),
        Some(None) => Err(LnAddressError::MissingTag),
        Some(Some(t)) => {
            if chars_eq_str(&chars_of(t.as_str()), "payRequest") {
                Ok(())
            } else {
                proof {
                    let w = arbitrary_string_with(t@);
                    assert(exists|s: String| s@ == t@);
                }
                Err(LnAddressError::UnexpectedTag(t))
            }
        },
    }
}

/// Why a BOLT-11 payout invoice was refused.
#[derive(Debug, Clone, Copy, PartialEq, Eq, Structural)]
pub enum InvoiceError {
    Invalid,
    Expired,
}

/// The verdict on a BOLT-11 invoice at `now_secs`: it must parse and must not have
/// expired; a valid one is returned as `lightning-invoice` writes it.
pub open spec fn invoice_verdict(invoice: Seq<char>, now_secs: u64) -> Result<Seq<char>, InvoiceError> {
    match bolt11_text_of(invoice) {
        None => Err(InvoiceError::Invalid),
        Some(t) => if bolt11_expired_at(invoice, now_secs) {
            Err(InvoiceError::Expired)
        } else {
            Ok(t)
        },
    }
}

/// Check a BOLT-11 invoice at a given time.
pub fn is_valid_invoice_at(payment_request: &str, now_secs: u64) -> (r: Result<String, InvoiceError>)
    ensures
        match invoice_verdict(payment_request@, now_secs) {
            Ok(t) => r matches Ok(x) && x@ == t,
            Err(e) => r == Err::<String, InvoiceError>(e),
        },
{
    match bolt11_text(payment_request) {
        None => Err(InvoiceError::Invalid),
        Some(t) => {
            if bolt11_would_expire(payment_request, now_secs) {
                Err(InvoiceError::Expired)
            } else {
                Ok(t)
            }
        },
    }
}

/// Check a BOLT-11 invoice by the wall clock.
pub fn is_valid_invoice(payment_request: &str) -> (r: Result<String, InvoiceError>)
    ensures
        exists|now: u64|
            match #[trigger] invoice_verdict(payment_request@, now) {
                Ok(t) => r matches Ok(x) && x@ == t,
                Err(e) => r == Err::<String, InvoiceError>(e),
            },
{
    let now = crate::clock::unix_now_secs();
    let r = is_valid_invoice_at(payment_request, now);
    assert(match invoice_verdict(payment_request@, now) {
        Ok(t) => r matches Ok(x) && x@ == t,
        Err(e) => r == Err::<String, InvoiceError>(e),
    });
    r
}

/// What a submitted payout text is.
pub enum PayoutTarget {
    /// A Lightning address (trimmed); its LNURL-pay metadata must be checked before use.
    LightningAddress(String),
    /// A valid BOLT-11 invoice, as written back by `lightning-invoice`.
    Bolt11(String),
    /// Neither.
    Invalid(InvoiceError),
}

/// Classify a submitted payout text at `now_secs`: a trimmed Lightning address first,
/// else a BOLT-11 invoice, checked as [`is_valid_invoice_at`] does.
pub fn payout_target(invoice: &str, now_secs: u64) -> (r: PayoutTarget)
    ensures
        lnurlp_url_of(trim(invoice@)) is Some ==> (r matches PayoutTarget::LightningAddress(a) && a@ == trim(invoice@)),
        lnurlp_url_of(trim(invoice@)) is None ==> match invoice_verdict(invoice@, now_secs) {
            Ok(t) => r matches PayoutTarget::Bolt11(x) && x@ == t,
            Err(e) => r == PayoutTarget::Invalid(e),
        },
{
    let t = string_of(&trim_chars(&chars_of(invoice)));
    if lightning_address_lnurlp_url(t.as_str()).is_some() {
        return PayoutTarget::LightningAddress(t);
    }
    match is_valid_invoice_at(invoice, now_secs) {
        Ok(s) => PayoutTarget::Bolt11(s),
        Err(e) => PayoutTarget::Invalid(e),
    }
}

} // verus!
