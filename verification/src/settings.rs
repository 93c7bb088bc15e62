//! User settings as the library sees them, and the edits that session wipes make.
use vstd::prelude::*;
use crate::text::{chars_of, string_of};

verus! {

/// Persisted user settings.
pub struct Settings {
    pub mostro_pubkey: String,
    pub nsec_privkey: String,
    pub admin_privkey: String,
    pub relays: Vec<String>,
    pub log_level: String,
    pub currencies_filter: Vec<String>,
    pub user_mode: String,
    pub ln_address: String,
    pub blossom_servers: Vec<String>,
    /// Base URL of the push server; empty disables wake requests.
    pub push_server_url: String,
}

/// Clear the Lightning address in memory; every other field keeps its value.
pub fn clear_ln_address(settings: &mut Settings)
    ensures
        final(settings).ln_address@ == Seq::<char>::empty(),
        final(settings).mostro_pubkey == old(settings).mostro_pubkey,
        final(settings).nsec_privkey == old(settings).nsec_privkey,
        final(settings).admin_privkey == old(settings).admin_privkey,
        final(settings).relays == old(settings).relays,
        final(settings).log_level == old(settings).log_level,
        final(settings).currencies_filter == old(settings).currencies_filter,
        final(settings).user_mode == old(settings).user_mode,
        final(settings).blossom_servers == old(settings).blossom_servers,
        final(settings).push_server_url == old(settings).push_server_url,
{
    settings.ln_address = String::new();
}

/// Whether persisting a cleared Lightning address would change anything on disk.
pub fn ln_address_needs_clearing(settings: &Settings) -> (r: bool)
    ensures
        r == (settings.ln_address@.len() > 0),
{
    !settings.ln_address.as_str().is_empty()
}

/// Settings to write back when clearing the Lightning address: nothing when the settings
/// could not be loaded or hold no address; otherwise the loaded settings with the address
/// cleared.
pub fn clear_ln_address_in_settings(loaded: Option<Settings>) -> (r: Option<Settings>)
    ensures
        match loaded {
            None => r is None,
            Some(s) => if s.ln_address@.len() == 0 {
                r is None
            } else {
                r matches Some(t) && t.ln_address@ == Seq::<char>::empty() && t.mostro_pubkey == s.mostro_pubkey
                    && t.nsec_privkey == s.nsec_privkey && t.admin_privkey == s.admin_privkey && t.relays
                    == s.relays && t.log_level == s.log_level && t.currencies_filter == s.currencies_filter
                    && t.user_mode == s.user_mode && t.blossom_servers == s.blossom_servers
                    && t.push_server_url == s.push_server_url
            },
        },
{
    match loaded {
        None => None,
        Some(mut s) => {
            if !ln_address_needs_clearing(&s) {
                return None;
            }
            clear_ln_address(&mut s);
            Some(s)
        },
    }
}

/// Blossom servers used when the settings list none.
pub open spec fn default_blossom_servers() -> Seq<Seq<char>> {
    seq!["https://blossom.primal.net"@, "https://blossom.band"@, "https://nostr.media"@]
}

/// A copy of each string, in order.
pub fn clone_strings(v: &Vec<String>) -> (r: Vec<String>)
    ensures
        r@.len() == v@.len(),
        forall|i: int| 0 <= i < v@.len() ==> #[trigger] r@[i]@ == v@[i]@,
{
    let mut r: Vec<String> = Vec::new();
    let mut i: usize = 0;
    while i < v.len()
        invariant
            i <= v.len(),
            r@.len() == i,
            forall|j: int| 0 <= j < i ==> #[trigger] r@[j]@ == v@[j]@,
        decreases v.len() - i,
    {
        r.push(v[i].clone());
        i = i + 1;
    }
    r
}

/// Blossom server list: the configured one, or the defaults when none is configured.
pub fn blossom_servers_from_settings(settings: &Settings) -> (r: Vec<String>)
    ensures
        settings.blossom_servers@.len() == 0 ==> r@.len() == default_blossom_servers().len()
            && forall|i: int| 0 <= i < r@.len() ==> #[trigger] r@[i]@ == default_blossom_servers()[i],
        settings.blossom_servers@.len() > 0 ==> r@.len() == settings.blossom_servers@.len()
            && forall|i: int| 0 <= i < r@.len() ==> #[trigger] r@[i]@ == settings.blossom_servers@[i]@,
{
    if settings.blossom_servers.len() == 0 {
        let mut r: Vec<String> = Vec::new();
        r.push(string_of(&chars_of("https://blossom.primal.net")));
        r.push(string_of(&chars_of("https://blossom.band")));
        r.push(string_of(&chars_of("https://nostr.media")));
        r
    } else {
        clone_strings(&settings.blossom_servers)
    }
}

} // verus!
