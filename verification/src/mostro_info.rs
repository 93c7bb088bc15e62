//! Mostro instance information (the daemon's kind-38385 status event): tag parsing,
//! proof-of-work and transport choices derived from it, and how old it is.
use vstd::prelude::*;
use crate::clock::unix_now_secs;
use crate::order::{Action, Transport};
use crate::text::{
    append_chars, append_str, ascii_lower, ascii_lowercase, chars_eq_str, chars_of, csv_items,
    csv_piece, decimal, float_text, is_float_text, lemma_split_commas_nonempty, parse_i64_chars, parse_signed64,
    parse_unsigned, parse_unsigned_bounded, split_commas, string_of, trim, trim_chars, u64_decimal,
};

verus! {

/// Nostr kind of Mostro instance status events.
pub const MOSTRO_INSTANCE_INFO_KIND: u16 = 38385;

/// Age in seconds after which instance info is stale (seven days).
pub const INSTANCE_INFO_STALE_SECS: u64 = 604_800;

/// Instance information as advertised by a Mostro daemon. Every field is optional
/// because instances may omit tags.
pub struct MostroInstanceInfo {
    /// `created_at` (UNIX seconds) of the event the information came from.
    pub last_updated: Option<u64>,
    pub mostro_version: Option<String>,
    pub mostro_commit_hash: Option<String>,
    pub max_order_amount: Option<i64>,
    pub min_order_amount: Option<i64>,
    pub expiration_hours: Option<u64>,
    pub expiration_seconds: Option<u64>,
    pub fiat_currencies_accepted: Vec<String>,
    pub max_orders_per_response: Option<u32>,
    /// Text of the `fee` tag when it reads as a floating-point number; the rate is a
    /// decimal fraction that callers convert.
    pub fee: Option<String>,
    pub pow: Option<u32>,
    /// First-contact proof-of-work toll on protocol v2; absent means the base `pow`.
    pub pow_first_contact: Option<u32>,
    /// Wire protocol version (`1` or `2`).
    pub protocol_version: Option<u8>,
    /// Anti-abuse bond feature flag.
    pub bond_enabled: Option<bool>,
    pub hold_invoice_expiration_window: Option<u64>,
    pub hold_invoice_cltv_delta: Option<u32>,
    pub invoice_expiration_window: Option<u64>,
    pub lnd_version: Option<String>,
    pub lnd_node_pubkey: Option<String>,
    pub lnd_commit_hash: Option<String>,
    pub lnd_node_alias: Option<String>,
    pub lnd_chains: Vec<String>,
    pub lnd_networks: Vec<String>,
    pub lnd_uris: Vec<String>,
}

/// The tags of an instance-info event that carry a field.
#[derive(Debug, Clone, Copy, PartialEq, Eq, Structural)]
pub enum InfoTag {
    MostroVersion,
    MostroCommitHash,
    MaxOrderAmount,
    MinOrderAmount,
    ExpirationHours,
    ExpirationSeconds,
    FiatCurrenciesAccepted,
    MaxOrdersPerResponse,
    Fee,
    Pow,
    PowFirstContact,
    ProtocolVersion,
    BondEnabled,
    HoldInvoiceExpirationWindow,
    HoldInvoiceCltvDelta,
    InvoiceExpirationWindow,
    LndVersion,
    LndNodePubkey,
    LndCommitHash,
    LndNodeAlias,
    LndChains,
    LndNetworks,
    LndUris
}

/// The field a tag name sets, if any.
pub open spec fn info_tag_of(name: Seq<char>) -> Option<InfoTag> {
    if name == "mostro_version"@ {
        Some(InfoTag::MostroVersion)
    } else if name == "mostro_commit_hash"@ {
        Some(InfoTag::MostroCommitHash)
    } else if name == "max_order_amount"@ {
        Some(InfoTag::MaxOrderAmount)
    } else if name == "min_order_amount"@ {
        Some(InfoTag::MinOrderAmount)
    } else if name == "expiration_hours"@ {
        Some(InfoTag::ExpirationHours)
    } else if name == "expiration_seconds"@ {
        Some(InfoTag::ExpirationSeconds)
    } else if name == "fiat_currencies_accepted"@ {
        Some(InfoTag::FiatCurrenciesAccepted)
    } else if name == "max_orders_per_response"@ {
        Some(InfoTag::MaxOrdersPerResponse)
    } else if name == "fee"@ {
        Some(InfoTag::Fee)
    } else if name == "pow"@ {
        Some(InfoTag::Pow)
    } else if name == "pow_first_contact"@ {
        Some(InfoTag::PowFirstContact)
    } else if name == "protocol_version"@ {
        Some(InfoTag::ProtocolVersion)
    } else if name == "bond_enabled"@ {
        Some(InfoTag::BondEnabled)
    } else if name == "hold_invoice_expiration_window"@ {
        Some(InfoTag::HoldInvoiceExpirationWindow)
    } else if name == "hold_invoice_cltv_delta"@ {
        Some(InfoTag::HoldInvoiceCltvDelta)
    } else if name == "invoice_expiration_window"@ {
        Some(InfoTag::InvoiceExpirationWindow)
    } else if name == "lnd_version"@ {
        Some(InfoTag::LndVersion)
    } else if name == "lnd_node_pubkey"@ {
        Some(InfoTag::LndNodePubkey)
    } else if name == "lnd_commit_hash"@ {
        Some(InfoTag::LndCommitHash)
    } else if name == "lnd_node_alias"@ {
        Some(InfoTag::LndNodeAlias)
    } else if name == "lnd_chains"@ {
        Some(InfoTag::LndChains)
    } else if name == "lnd_networks"@ {
        Some(InfoTag::LndNetworks)
    } else if name == "lnd_uris"@ {
        Some(InfoTag::LndUris)
    } else {
        None
    }
}

/// The field a tag name sets.
pub fn info_tag_of_name(name: &Vec<char>) -> (r: Option<InfoTag>)
    ensures
        r == info_tag_of(name@),
{
    if chars_eq_str(name, "mostro_version") {
        Some(InfoTag::MostroVersion)
    } else if chars_eq_str(name, "mostro_commit_hash") {
        Some(InfoTag::MostroCommitHash)
    } else if chars_eq_str(name, "max_order_amount") {
        Some(InfoTag::MaxOrderAmount)
    } else if chars_eq_str(name, "min_order_amount") {
        Some(InfoTag::MinOrderAmount)
    } else if chars_eq_str(name, "expiration_hours") {
        Some(InfoTag::ExpirationHours)
    } else if chars_eq_str(name, "expiration_seconds") {
        Some(InfoTag::ExpirationSeconds)
    } else if chars_eq_str(name, "fiat_currencies_accepted") {
        Some(InfoTag::FiatCurrenciesAccepted)
    } else if chars_eq_str(name, "max_orders_per_response") {
        Some(InfoTag::MaxOrdersPerResponse)
    } else if chars_eq_str(name, "fee") {
        Some(InfoTag::Fee)
    } else if chars_eq_str(name, "pow") {
        Some(InfoTag::Pow)
    } else if chars_eq_str(name, "pow_first_contact") {
        Some(InfoTag::PowFirstContact)
    } else if chars_eq_str(name, "protocol_version") {
        Some(InfoTag::ProtocolVersion)
    } else if chars_eq_str(name, "bond_enabled") {
        Some(InfoTag::BondEnabled)
    } else if chars_eq_str(name, "hold_invoice_expiration_window") {
        Some(InfoTag::HoldInvoiceExpirationWindow)
    } else if chars_eq_str(name, "hold_invoice_cltv_delta") {
        Some(InfoTag::HoldInvoiceCltvDelta)
    } else if chars_eq_str(name, "invoice_expiration_window") {
        Some(InfoTag::InvoiceExpirationWindow)
    } else if chars_eq_str(name, "lnd_version") {
        Some(InfoTag::LndVersion)
    } else if chars_eq_str(name, "lnd_node_pubkey") {
        Some(InfoTag::LndNodePubkey)
    } else if chars_eq_str(name, "lnd_commit_hash") {
        Some(InfoTag::LndCommitHash)
    } else if chars_eq_str(name, "lnd_node_alias") {
        Some(InfoTag::LndNodeAlias)
    } else if chars_eq_str(name, "lnd_chains") {
        Some(InfoTag::LndChains)
    } else if chars_eq_str(name, "lnd_networks") {
        Some(InfoTag::LndNetworks)
    } else if chars_eq_str(name, "lnd_uris") {
        Some(InfoTag::LndUris)
    } else {
        None
    }
}

/// Value of a tag: its second element, or empty text when it has none.
pub open spec fn tag_value(t: Seq<Seq<char>>) -> Seq<char> {
    if t.len() > 1 {
        t[1]
    } else {
        Seq::<char>::empty()
    }
}

/// Value of the last tag naming field `f`; later tags override earlier ones.
pub open spec fn tag_text(tags: Seq<Seq<Seq<char>>>, f: InfoTag) -> Option<Seq<char>>
    decreases tags.len(),
{
    if tags.len() == 0 {
        None
    } else if tags.last().len() > 0 && info_tag_of(tags.last()[0]) == Some(f) {
        Some(tag_value(tags.last()))
    } else {
        tag_text(tags.drop_last(), f)
    }
}

pub open spec fn opt_view(o: Option<String>) -> Option<Seq<char>> {
    match o {
        Some(s) => Some(s@),
        None => None,
    }
}

/// A tag value read as `i64` (absent or unparsable: `None`).
pub open spec fn opt_i64(o: Option<Seq<char>>) -> Option<i64> {
    match o {
        Some(v) => match parse_signed64(v) {
            Some(n) => Some(n as i64),
            None => None,
        },
        None => None,
    }
}

pub open spec fn opt_unsigned(o: Option<Seq<char>>, max: nat) -> Option<nat> {
    match o {
        Some(v) => parse_unsigned(v, max),
        None => None,
    }
}

/// A tag value kept only when it reads as a floating-point number.
pub open spec fn opt_float(o: Option<Seq<char>>) -> Option<Seq<char>> {
    match o {
        Some(v) => if float_text(v) {
            Some(v)
        } else {
            None
        },
        None => None,
    }
}

pub open spec fn opt_u64(o: Option<Seq<char>>) -> Option<u64> {
    match opt_unsigned(o, u64::MAX as nat) {
        Some(n) => Some(n as u64),
        None => None,
    }
}

pub open spec fn opt_u32(o: Option<Seq<char>>) -> Option<u32> {
    match opt_unsigned(o, u32::MAX as nat) {
        Some(n) => Some(n as u32),
        None => None,
    }
}

pub open spec fn opt_u8(o: Option<Seq<char>>) -> Option<u8> {
    match opt_unsigned(o, u8::MAX as nat) {
        Some(n) => Some(n as u8),
        None => None,
    }
}

/// `bond_enabled` values: `true`/`1`/`yes` and `false`/`0`/`no`, trimmed, any ASCII case.
pub open spec fn bond_flag(v: Seq<char>) -> Option<bool> {
    let w = ascii_lower(trim(v));
    if w == "true"@ || w == "1"@ || w == "yes"@ {
        Some(true)
    } else if w == "false"@ || w == "0"@ || w == "no"@ {
        Some(false)
    } else {
        None
    }
}

pub open spec fn opt_bond(o: Option<Seq<char>>) -> Option<bool> {
    match o {
        Some(v) => bond_flag(v),
        None => None,
    }
}

/// A list tag: its comma-separated values, or nothing when absent.
pub open spec fn opt_csv(o: Option<Seq<char>>) -> Seq<Seq<char>> {
    match o {
        Some(v) => csv_items(v),
        None => Seq::empty(),
    }
}

/// `info` holds exactly what the tags say: each field comes from the last tag naming it,
/// parsed for its type; unknown and empty tags are ignored.
pub open spec fn info_from_tags(info: MostroInstanceInfo, tags: Seq<Seq<Seq<char>>>) -> bool {
    &&& opt_view(info.mostro_version) == tag_text(tags, InfoTag::MostroVersion)
    &&& opt_view(info.mostro_commit_hash) == tag_text(tags, InfoTag::MostroCommitHash)
    &&& info.max_order_amount == opt_i64(tag_text(tags, InfoTag::MaxOrderAmount))
    &&& info.min_order_amount == opt_i64(tag_text(tags, InfoTag::MinOrderAmount))
    &&& info.expiration_hours == opt_u64(tag_text(tags, InfoTag::ExpirationHours))
    &&& info.expiration_seconds == opt_u64(tag_text(tags, InfoTag::ExpirationSeconds))
    &&& info.fiat_currencies_accepted.deep_view() == opt_csv(tag_text(tags, InfoTag::FiatCurrenciesAccepted))
    &&& info.max_orders_per_response == opt_u32(tag_text(tags, InfoTag::MaxOrdersPerResponse))
    &&& opt_view(info.fee) == opt_float(tag_text(tags, InfoTag::Fee))
    &&& info.pow == opt_u32(tag_text(tags, InfoTag::Pow))
    &&& info.pow_first_contact == opt_u32(tag_text(tags, InfoTag::PowFirstContact))
    &&& info.protocol_version == opt_u8(tag_text(tags, InfoTag::ProtocolVersion))
    &&& info.bond_enabled == opt_bond(tag_text(tags, InfoTag::BondEnabled))
    &&& info.hold_invoice_expiration_window == opt_u64(tag_text(tags, InfoTag::HoldInvoiceExpirationWindow))
    &&& info.hold_invoice_cltv_delta == opt_u32(tag_text(tags, InfoTag::HoldInvoiceCltvDelta))
    &&& info.invoice_expiration_window == opt_u64(tag_text(tags, InfoTag::InvoiceExpirationWindow))
    &&& opt_view(info.lnd_version) == tag_text(tags, InfoTag::LndVersion)
    &&& opt_view(info.lnd_node_pubkey) == tag_text(tags, InfoTag::LndNodePubkey)
    &&& opt_view(info.lnd_commit_hash) == tag_text(tags, InfoTag::LndCommitHash)
    &&& opt_view(info.lnd_node_alias) == tag_text(tags, InfoTag::LndNodeAlias)
    &&& info.lnd_chains.deep_view() == opt_csv(tag_text(tags, InfoTag::LndChains))
    &&& info.lnd_networks.deep_view() == opt_csv(tag_text(tags, InfoTag::LndNetworks))
    &&& info.lnd_uris.deep_view() == opt_csv(tag_text(tags, InfoTag::LndUris))
}

/// Parse a `bond_enabled` tag value.
pub(crate) fn bond_flag_chars(value: &Vec<char>) -> (r: Option<bool>)
    ensures
        r == bond_flag(value@),
{
    let w = ascii_lowercase(&trim_chars(value));
    if chars_eq_str(&w, "true") || chars_eq_str(&w, "1") || chars_eq_str(&w, "yes") {
        Some(true)
    } else if chars_eq_str(&w, "false") || chars_eq_str(&w, "0") || chars_eq_str(&w, "no") {
        Some(false)
    } else {
        None
    }
}

/// `u32::from_str` on characters.
pub fn parse_u32_chars(value: &Vec<char>) -> (r: Option<u32>)
    ensures
        r == opt_u32(Some(value@)),
{
    match parse_unsigned_bounded(value, u32::MAX as u64) {
        Some(v) => Some(v as u32),
        None => None,
    }
}

/// `u8::from_str` on characters.
pub fn parse_u8_chars(value: &Vec<char>) -> (r: Option<u8>)
    ensures
        r == opt_u8(Some(value@)),
{
    match parse_unsigned_bounded(value, u8::MAX as u64) {
        Some(v) => Some(v as u8),
        None => None,
    }
}

/// Parse a `bond_enabled` tag value: `true`, `1`, `yes` or `false`, `0`, `no`, in any
/// case and with surrounding whitespace; anything else is `None`.
pub fn parse_bond_enabled(value: &str) -> (r: Option<bool>)
    ensures
        r == bond_flag(value@),
{
    bond_flag_chars(&chars_of(value))
}

/// Information updated at `last_updated` is stale at `now_secs` when it has no update
/// time or is older than seven days.
pub open spec fn stale_at(last_updated: Option<u64>, now_secs: u64) -> bool {
    match last_updated {
        Some(t) => (if now_secs >= t { now_secs - t } else { 0 }) > INSTANCE_INFO_STALE_SECS,
        None => true,
    }
}

impl MostroInstanceInfo {
    /// Split a comma-separated tag value: pieces trimmed, empty pieces dropped.
    pub fn split_csv(value: &str) -> (r: Vec<String>)
        ensures
            r.deep_view() == csv_items(value@),
    {
        MostroInstanceInfo::split_csv_chars(&chars_of(value))
    }

    /// `i64::from_str`.
    pub fn parse_i64(value: &str) -> (r: Option<i64>)
        ensures
            r == opt_i64(Some(value@)),
    {
        parse_i64_chars(&chars_of(value))
    }

    /// `u64::from_str`.
    pub fn parse_u64(value: &str) -> (r: Option<u64>)
        ensures
            r == opt_u64(Some(value@)),
    {
        parse_unsigned_bounded(&chars_of(value), u64::MAX)
    }

    /// `u32::from_str`.
    pub fn parse_u32(value: &str) -> (r: Option<u32>)
        ensures
            r == opt_u32(Some(value@)),
    {
        parse_u32_chars(&chars_of(value))
    }

    /// `u8::from_str`.
    pub fn parse_u8(value: &str) -> (r: Option<u8>)
        ensures
            r == opt_u8(Some(value@)),
    {
        parse_u8_chars(&chars_of(value))
    }
}

impl MostroInstanceInfo {
    /// Information with every field absent or empty.
    pub fn empty() -> (r: MostroInstanceInfo)
        ensures
            info_from_tags(r, Seq::empty()),
            r.last_updated is None,
    {
        let r = MostroInstanceInfo {
            last_updated: None,
            mostro_version: None,
            mostro_commit_hash: None,
            max_order_amount: None,
            min_order_amount: None,
            expiration_hours: None,
            expiration_seconds: None,
            fiat_currencies_accepted: Vec::new(),
            max_orders_per_response: None,
            fee: None,
            pow: None,
            pow_first_contact: None,
            protocol_version: None,
            bond_enabled: None,
            hold_invoice_expiration_window: None,
            hold_invoice_cltv_delta: None,
            invoice_expiration_window: None,
            lnd_version: None,
            lnd_node_pubkey: None,
            lnd_commit_hash: None,
            lnd_node_alias: None,
            lnd_chains: Vec::new(),
            lnd_networks: Vec::new(),
            lnd_uris: Vec::new(),
        };
        assert(r.fiat_currencies_accepted.deep_view() =~= Seq::empty());
        assert(r.lnd_chains.deep_view() =~= Seq::empty());
        assert(r.lnd_networks.deep_view() =~= Seq::empty());
        assert(r.lnd_uris.deep_view() =~= Seq::empty());
        r
    }

    /// Split a comma-separated tag value: pieces trimmed, empty pieces dropped.
    pub(crate) fn split_csv_chars(value: &Vec<char>) -> (r: Vec<String>)
        ensures
            r.deep_view() == csv_items(value@),
    {
        let mut done: Vec<String> = Vec::new();
        let mut cur: Vec<char> = Vec::new();
        let mut i: usize = 0;
        proof {
            assert(value@.subrange(0, 0) =~= Seq::<char>::empty());
        }
        while i < value.len()
            invariant
                i <= value.len(),
                split_commas(value@.subrange(0, i as int)).len() >= 1,
                split_commas(value@.subrange(0, i as int)).last() == cur@,
                done.deep_view() == split_commas(value@.subrange(0, i as int)).drop_last().filter_map(
                    |p: Seq<char>| csv_piece(p),
                ),
            decreases value.len() - i,
        {
            let ghost prefix = value@.subrange(0, i as int);
            let ghost pieces = split_commas(prefix);
            let c = value[i];
            proof {
                assert(value@.subrange(0, i + 1).drop_last() =~= prefix);
                assert(value@.subrange(0, i + 1).last() == c);
                lemma_split_commas_nonempty(prefix);
            }
            if c == ',' {
                let t = trim_chars(&cur);
                proof {
                    assert(pieces =~= pieces.drop_last().push(pieces.last()));
                    assert(pieces.drop_last().push(pieces.last()).drop_last() =~= pieces.drop_last());
                }
                if t.len() > 0 {
                    let ghost before = done.deep_view();
                    done.push(string_of(&t));
                    assert(done.deep_view() =~= before.push(t@));
                    assert(done.deep_view() =~= before + seq![t@]);
                }
                cur = Vec::new();
                proof {
                    let np = split_commas(value@.subrange(0, i + 1));
                    assert(np == pieces.push(Seq::<char>::empty()));
                    assert(np.drop_last() =~= pieces);
                }
            } else {
                cur.push(c);
                proof {
                    let np = split_commas(value@.subrange(0, i + 1));
                    assert(np.drop_last() =~= pieces.drop_last());
                }
            }
            i = i + 1;
        }
        let ghost pieces = split_commas(value@);
        proof {
            assert(value@.subrange(0, value.len() as int) =~= value@);
            lemma_split_commas_nonempty(value@);
            assert(pieces =~= pieces.drop_last().push(pieces.last()));
        }
        let t = trim_chars(&cur);
        if t.len() > 0 {
            let ghost before = done.deep_view();
            done.push(string_of(&t));
            assert(done.deep_view() =~= before.push(t@));
            assert(done.deep_view() =~= before + seq![t@]);
        }
        done
    }

    /// Stale means: no update time, or older than seven days at `now_secs`.
    pub fn is_stale_at(&self, now_secs: u64) -> (r: bool)
        ensures
            r == stale_at(self.last_updated, now_secs),
    {
        match self.last_updated {
            Some(t) => {
                let age: u64 = if now_secs >= t {
                    now_secs - t
                } else {
                    0
                };
                age > INSTANCE_INFO_STALE_SECS
            },
            None => true,
        }
    }

    /// Whether the information is older than seven days, by the wall clock. Information
    /// without an update time is always stale.
    pub fn is_stale(&self) -> (r: bool)
        ensures
            exists|now: u64| r == #[trigger] stale_at(self.last_updated, now),
            self.last_updated is None ==> r,
    {
        let now = unix_now_secs();
        let r = self.is_stale_at(now);
        assert(r == stale_at(self.last_updated, now));
        r
    }
}

/// Instance information from an authenticated event: its tags, stamped with the event's
/// creation time.
pub fn mostro_info_from_authenticated_event(tags: &Vec<Vec<String>>, created_at: u64) -> (r: MostroInstanceInfo)
    ensures
        info_from_tags(r, tags.deep_view()),
        r.last_updated == Some(created_at),
{
    let mut info = mostro_info_from_tags(tags);
    info.last_updated = Some(created_at);
    info
}

/// Build instance information from the tags of a kind-38385 event. Unknown tags are
/// ignored; absent tags leave their field empty. Authorship is not checked here.
#[verifier::rlimit(50)]
pub fn mostro_info_from_tags(tags: &Vec<Vec<String>>) -> (r: MostroInstanceInfo)
    ensures
        info_from_tags(r, tags.deep_view()),
        r.last_updated is None,
{
    let mut info = MostroInstanceInfo::empty();
    let mut i: usize = 0;
    proof {
        assert(tags.deep_view().subrange(0, 0) =~= Seq::<Seq<Seq<char>>>::empty());
    }
    while i < tags.len()
        invariant
            i <= tags.len(),
            info_from_tags(info, tags.deep_view().subrange(0, i as int)),
            info.last_updated is None,
        decreases tags.len() - i,
    {
        let t: &Vec<String> = &tags[i];
        let ghost prefix = tags.deep_view().subrange(0, i as int);
        let ghost next = tags.deep_view().subrange(0, i + 1);
        proof {
            assert(next.drop_last() =~= prefix);
            assert(next.last() == t.deep_view());
        }
        if t.len() > 0 {
            let name = chars_of(t[0].as_str());
            let value: Vec<char> = if t.len() > 1 {
                chars_of(t[1].as_str())
            } else {
                Vec::new()
            };
            proof {
                assert(t.deep_view()[0] == name@);
                assert(tag_value(t.deep_view()) =~= value@);
            }
            match info_tag_of_name(&name) {
                Some(InfoTag::MostroVersion) => {
                    info.mostro_version = Some(string_of(&value));
                },
                Some(InfoTag::MostroCommitHash) => {
                    info.mostro_commit_hash = Some(string_of(&value));
                },
                Some(InfoTag::MaxOrderAmount) => {
                    info.max_order_amount = parse_i64_chars(&value);
                },
                Some(InfoTag::MinOrderAmount) => {
                    info.min_order_amount = parse_i64_chars(&value);
                },
                Some(InfoTag::ExpirationHours) => {
                    info.expiration_hours = parse_unsigned_bounded(&value, u64::MAX);
                },
                Some(InfoTag::ExpirationSeconds) => {
                    info.expiration_seconds = parse_unsigned_bounded(&value, u64::MAX);
                },
                Some(InfoTag::FiatCurrenciesAccepted) => {
                    info.fiat_currencies_accepted = MostroInstanceInfo::split_csv_chars(&value);
                },
                Some(InfoTag::MaxOrdersPerResponse) => {
                    info.max_orders_per_response = parse_u32_chars(&value);
                },
                Some(InfoTag::Fee) => {
                    info.fee = if is_float_text(&value) {
                        Some(string_of(&value))
                    } else {
                        None
                    };
                },
                Some(InfoTag::Pow) => {
                    info.pow = parse_u32_chars(&value);
                },
                Some(InfoTag::PowFirstContact) => {
                    info.pow_first_contact = parse_u32_chars(&value);
                },
                Some(InfoTag::ProtocolVersion) => {
                    info.protocol_version = parse_u8_chars(&value);
                },
                Some(InfoTag::BondEnabled) => {
                    info.bond_enabled = bond_flag_chars(&value);
                },
                Some(InfoTag::HoldInvoiceExpirationWindow) => {
                    info.hold_invoice_expiration_window = parse_unsigned_bounded(&value, u64::MAX);
                },
                Some(InfoTag::HoldInvoiceCltvDelta) => {
                    info.hold_invoice_cltv_delta = parse_u32_chars(&value);
                },
                Some(InfoTag::InvoiceExpirationWindow) => {
                    info.invoice_expiration_window = parse_unsigned_bounded(&value, u64::MAX);
                },
                Some(InfoTag::LndVersion) => {
                    info.lnd_version = Some(string_of(&value));
                },
                Some(InfoTag::LndNodePubkey) => {
                    info.lnd_node_pubkey = Some(string_of(&value));
                },
                Some(InfoTag::LndCommitHash) => {
                    info.lnd_commit_hash = Some(string_of(&value));
                },
                Some(InfoTag::LndNodeAlias) => {
                    info.lnd_node_alias = Some(string_of(&value));
                },
                Some(InfoTag::LndChains) => {
                    info.lnd_chains = MostroInstanceInfo::split_csv_chars(&value);
                },
                Some(InfoTag::LndNetworks) => {
                    info.lnd_networks = MostroInstanceInfo::split_csv_chars(&value);
                },
                Some(InfoTag::LndUris) => {
                    info.lnd_uris = MostroInstanceInfo::split_csv_chars(&value);
                },
                None => {},
            }
        }
        i = i + 1;
    }
    proof {
        assert(tags.deep_view().subrange(0, tags.len() as int) =~= tags.deep_view());
    }
    info
}

/// Proof-of-work bits clamped to `u8` (absent: `0`).
pub open spec fn clamp_bits(bits: Option<u32>) -> u8 {
    match bits {
        Some(n) => if n > 255 {
            255u8
        } else {
            n as u8
        },
        None => 0u8,
    }
}

fn clamp_pow_bits(bits: Option<u32>) -> (r: u8)
    ensures
        r == clamp_bits(bits),
{
    match bits {
        Some(n) => if n > 255 {
            255u8
        } else {
            n as u8
        },
        None => 0,
    }
}

pub open spec fn base_pow(instance: Option<&MostroInstanceInfo>) -> u8 {
    match instance {
        Some(i) => clamp_bits(i.pow),
        None => 0u8,
    }
}

pub open spec fn first_contact_pow(instance: Option<&MostroInstanceInfo>) -> u8 {
    match instance {
        Some(i) => clamp_bits(
            match i.pow_first_contact {
                Some(p) => Some(p),
                None => i.pow,
            },
        ),
        None => 0u8,
    }
}

pub open spec fn instance_transport(info: Option<&MostroInstanceInfo>) -> Transport {
    match info {
        Some(i) => if i.protocol_version == Some(2u8) {
            Transport::Nip44Direct
        } else {
            Transport::GiftWrap
        },
        None => Transport::GiftWrap,
    }
}

pub open spec fn first_contact_action(a: Action) -> bool {
    a == Action::NewOrder || a == Action::TakeBuy || a == Action::TakeSell
}

/// NIP-13 difficulty for outbound events: the instance's `pow`, clamped to 255; `0` when
/// the information or the tag is missing.
pub fn nostr_pow_from_instance(instance: Option<&MostroInstanceInfo>) -> (r: u8)
    ensures
        r == base_pow(instance),
{
    match instance {
        Some(i) => clamp_pow_bits(i.pow),
        None => 0,
    }
}

/// First-contact difficulty: `pow_first_contact` when present, else the base `pow`.
pub fn effective_pow_first_contact_from_instance(instance: Option<&MostroInstanceInfo>) -> (r: u8)
    ensures
        r == first_contact_pow(instance),
{
    match instance {
        Some(i) => {
            let bits = match i.pow_first_contact {
                Some(p) => Some(p),
                None => i.pow,
            };
            clamp_pow_bits(bits)
        },
        None => 0,
    }
}

/// Actions that introduce a new trade key to Mostro.
pub fn is_v2_first_contact_protocol_action(action: &Action) -> (r: bool)
    ensures
        r == first_contact_action(*action),
{
    match action {
        Action::NewOrder | Action::TakeBuy | Action::TakeSell => true,
        _ => false,
    }
}

/// Wire transport: protocol version `2` is NIP-44 direct; anything else, or nothing, is
/// the legacy gift wrap.
pub fn transport_from_instance(info: Option<&MostroInstanceInfo>) -> (r: Transport)
    ensures
        r == instance_transport(info),
{
    match info {
        Some(i) => match i.protocol_version {
            Some(2) => Transport::Nip44Direct,
            _ => Transport::GiftWrap,
        },
        None => Transport::GiftWrap,
    }
}

/// Difficulty for a protocol DM to Mostro: on v2, first-contact actions pay the larger of
/// the base and the first-contact toll; everything else pays the base.
pub fn nostr_pow_for_protocol_dm(instance: Option<&MostroInstanceInfo>, action: &Action) -> (r: u8)
    ensures
        r == if instance_transport(instance) == Transport::Nip44Direct && first_contact_action(
            *action,
        ) {
            if base_pow(instance) >= first_contact_pow(instance) {
                base_pow(instance)
            } else {
                first_contact_pow(instance)
            }
        } else {
            base_pow(instance)
        },
{
    let base = nostr_pow_from_instance(instance);
    if transport_from_instance(instance) == Transport::Nip44Direct
        && is_v2_first_contact_protocol_action(action) {
        let fc = effective_pow_first_contact_from_instance(instance);
        if base >= fc {
            base
        } else {
            fc
        }
    } else {
        base
    }
}

/// The difficulty of a protocol DM is never below the base difficulty, and only a v2
/// first-contact action can raise it.
pub proof fn protocol_dm_pow_law(instance: Option<&MostroInstanceInfo>, action: Action)
    ensures
        ({
            let r = if instance_transport(instance) == Transport::Nip44Direct
                && first_contact_action(action) {
                if base_pow(instance) >= first_contact_pow(instance) {
                    base_pow(instance)
                } else {
                    first_contact_pow(instance)
                }
            } else {
                base_pow(instance)
            };
            &&& r >= base_pow(instance)
            &&& r != base_pow(instance) ==> (instance_transport(instance) == Transport::Nip44Direct
                && first_contact_action(action))
        }),
{
}

/// Bonds are enabled only when the instance explicitly advertises `true`.
pub fn instance_bonds_enabled(instance: Option<&MostroInstanceInfo>) -> (r: bool)
    ensures
        r == match instance {
            Some(i) => i.bond_enabled == Some(true),
            None => false,
        },
{
    match instance {
        Some(i) => match i.bond_enabled {
            Some(b) => b,
            None => false,
        },
        None => false,
    }
}

/// Human-readable age of a timestamp at `now_secs`.
pub open spec fn age_text(ts: u64, now_secs: u64) -> Seq<char> {
    let age: nat = if now_secs >= ts {
        (now_secs - ts) as nat
    } else {
        0
    };
    if age < 60 {
        "just now"@
    } else if age < 3600 {
        decimal(age / 60) + " minute"@ + (if age / 60 == 1 {
            Seq::<char>::empty()
        } else {
            seq!['s']
        }) + " ago"@
    } else if age < 86400 {
        decimal(age / 3600) + " hour"@ + (if age / 3600 == 1 {
            Seq::<char>::empty()
        } else {
            seq!['s']
        }) + " ago"@
    } else {
        decimal(age / 86400) + " day"@ + (if age / 86400 == 1 {
            Seq::<char>::empty()
        } else {
            seq!['s']
        }) + " ago"@
    }
}

/// Age text ("just now", "5 minutes ago", "1 hour ago", "2 days ago") at `now_secs`.
pub fn format_instance_info_age_at(ts: u64, now_secs: u64) -> (r: String)
    ensures
        r@ == age_text(ts, now_secs),
{
    let age: u64 = if now_secs >= ts {
        now_secs - ts
    } else {
        0
    };
    let mut out: Vec<char> = Vec::new();
    if age < 60 {
        append_str(&mut out, "just now");
    } else {
        let (n, unit): (u64, &str) = if age < 3600 {
            (age / 60, " minute")
        } else if age < 86400 {
            (age / 3600, " hour")
        } else {
            (age / 86400, " day")
        };
        append_chars(&mut out, &u64_decimal(n));
        append_str(&mut out, unit);
        if n != 1 {
            out.push('s');
        }
        append_str(&mut out, " ago");
    }
    string_of(&out)
}

/// Age of a timestamp by the wall clock.
pub fn format_instance_info_age(ts: u64) -> (r: String)
    ensures
        exists|now: u64| r@ == age_text(ts, now),
{
    let now = unix_now_secs();
    format_instance_info_age_at(ts, now)
}

/// Outcome of fetching instance information from relays.
pub enum MostroInstanceInfoFetch {
    /// Newest authentic revision.
    Found(Box<MostroInstanceInfo>),
    /// Relays returned no candidate.
    NotFound,
    /// Relays returned candidates, none authentic.
    Rejected { fetched: usize },
}

impl MostroInstanceInfoFetch {
    /// The information to install: only a found revision; otherwise keep the cached one.
    pub fn to_apply(self) -> (r: Option<MostroInstanceInfo>)
        ensures
            r == match self {
                MostroInstanceInfoFetch::Found(info) => Some(*info),
                _ => None,
            },
    {
        match self {
            MostroInstanceInfoFetch::Found(info) => Some(*info),
            MostroInstanceInfoFetch::NotFound => None,
            MostroInstanceInfoFetch::Rejected { .. } => None,
        }
    }
}

/// What the client checks of a relay-returned instance-info event.
#[derive(Debug, Clone, Copy, PartialEq, Eq, Structural)]
pub struct InfoCandidate {
    pub kind: u16,
    /// The event's author is the configured Mostro pubkey.
    pub author_is_mostro: bool,
    /// The `d` tag equals the Mostro pubkey's hex.
    pub identifier_is_mostro: bool,
    /// Event id and signature check out.
    pub signature_valid: bool,
    pub created_at: u64,
}

/// An event is authentic when it has the instance-info kind, the Mostro author, the
/// Mostro `d` tag and a valid signature.
pub open spec fn authentic(c: InfoCandidate) -> bool {
    c.kind == MOSTRO_INSTANCE_INFO_KIND && c.author_is_mostro && c.identifier_is_mostro
        && c.signature_valid
}

/// Whether a candidate may be treated as instance information.
pub fn instance_info_event_is_authentic(c: &InfoCandidate) -> (r: bool)
    ensures
        r == authentic(*c),
{
    c.kind == MOSTRO_INSTANCE_INFO_KIND && c.author_is_mostro && c.identifier_is_mostro
        && c.signature_valid
}

/// Index of the newest authentic candidate (the last one among equally new ones), or
/// `None` when no candidate is authentic.
pub fn select_authentic_instance_info_event(candidates: &Vec<InfoCandidate>) -> (r: Option<usize>)
    ensures
        match r {
            Some(k) => {
                &&& k < candidates.len()
                &&& authentic(candidates@[k as int])
                &&& forall|j: int|
                    0 <= j < candidates.len() && authentic(#[trigger] candidates@[j]) ==> (
                    candidates@[j].created_at <= candidates@[k as int].created_at)
                &&& forall|j: int|
                    k < j < candidates.len() && authentic(#[trigger] candidates@[j]) ==> (
                    candidates@[j].created_at < candidates@[k as int].created_at)
            },
            None => forall|j: int| 0 <= j < candidates.len() ==> !authentic(#[trigger] candidates@[j]),
        },
{
    let mut best: Option<usize> = None;
    let mut i: usize = 0;
    while i < candidates.len()
        invariant
            i <= candidates.len(),
            match best {
                Some(k) => {
                    &&& k < i
                    &&& authentic(candidates@[k as int])
                    &&& forall|j: int|
                        0 <= j < i && authentic(#[trigger] candidates@[j]) ==> (
                        candidates@[j].created_at <= candidates@[k as int].created_at)
                    &&& forall|j: int|
                        k < j < i && authentic(#[trigger] candidates@[j]) ==> (
                        candidates@[j].created_at < candidates@[k as int].created_at)
                },
                None => forall|j: int| 0 <= j < i ==> !authentic(#[trigger] candidates@[j]),
            },
        decreases candidates.len() - i,
    {
        let c = candidates[i];
        if instance_info_event_is_authentic(&c) {
            match best {
                Some(k) => {
                    if c.created_at >= candidates[k].created_at {
                        best = Some(i);
                    }
                },
                None => {
                    best = Some(i);
                },
            }
        }
        i = i + 1;
    }
    best
}

} // verus!
