//! Blossom URL resolution, download file naming, and ChaCha20-Poly1305 blob decryption.
//! Encrypted blobs are laid out as `[nonce:12][ciphertext][tag:16]`.
use vstd::prelude::*;
use crate::text::{
    append_chars, append_str, chars_of, is_ws, slice_chars, starts_with_str, string_of, trim, trim_chars, trim_end,
    trim_start,
};
use chacha20poly1305::aead::{Aead, KeyInit};
use chacha20poly1305::ChaCha20Poly1305;

verus! {

/// Max size for a single Blossom blob download (25 MB).
pub const BLOSSOM_MAX_BLOB_SIZE: usize = 26214400;

/// Timeout for a Blossom HTTP GET, in seconds.
pub const BLOSSOM_FETCH_TIMEOUT_SECS: u64 = 30;

/// Length of the ChaCha20-Poly1305 nonce that prefixes an encrypted blob.
pub const BLOB_NONCE_LEN: usize = 12;

/// Length of the Poly1305 authentication tag that ends an encrypted blob.
pub const BLOB_TAG_LEN: usize = 16;

/// Whether `p` is a prefix of `s`.
pub open spec fn has_prefix(s: Seq<char>, p: Seq<char>) -> bool {
    p.len() <= s.len() && s.subrange(0, p.len() as int) == p
}

/// `blossom://host/path` becomes `https://host/path`; an `https://` URL stays as it is;
/// anything else is refused. Surrounding whitespace is ignored.
pub open spec fn blossom_https(url: Seq<char>) -> Option<Seq<char>> {
    let t = trim(url);
    if has_prefix(t, "blossom://"@) {
        Some("https://"@ + t.subrange("blossom://"@.len() as int, t.len() as int))
    } else if has_prefix(t, "https://"@) {
        Some(t)
    } else {
        None
    }
}

/// A Blossom URL whose scheme is neither `blossom://` nor `https://`.
#[derive(Debug, Clone)]
pub struct UnsupportedBlossomUrl {
    /// The URL as given, without surrounding whitespace.
    pub url: String,
}

impl UnsupportedBlossomUrl {
    /// User-facing description of the refusal.
    pub fn message(&self) -> (m: String)
        ensures
            m@ == "Blossom URL must start with blossom:// or https://, got: "@ + self.url@,
    {
        let mut v = chars_of("Blossom URL must start with blossom:// or https://, got: ");
        append_str(&mut v, self.url.as_str());
        string_of(&v)
    }
}

/// Converts `blossom://host/path` to `https://host/path`; `https://` URLs are returned as-is.
pub fn blossom_url_to_https(url: &str) -> (r: Result<String, UnsupportedBlossomUrl>)
    ensures
        match blossom_https(url@) {
            Some(out) => r matches Ok(s) && s@ == out,
            None => r matches Err(e) && e.url@ == trim(url@),
        },
{
    let all = chars_of(url);
    let t = trim_chars(&all);
    let prefix = chars_of("blossom://");
    if starts_with_str(&t, "blossom://") {
        let rest = slice_chars(&t, prefix.len(), t.len());
        let mut out = chars_of("https://");
        append_chars(&mut out, &rest);
        return Ok(string_of(&out));
    }
    if starts_with_str(&t, "https://") {
        return Ok(string_of(&t));
    }
    Err(UnsupportedBlossomUrl { url: string_of(&t) })
}

proof fn lemma_trim_start_shape(s: Seq<char>)
    ensures
        trim_start(s).len() == 0 || !is_ws(trim_start(s)[0]),
    decreases s.len(),
{
    if s.len() > 0 && is_ws(s[0]) {
        lemma_trim_start_shape(s.drop_first());
    }
}

proof fn lemma_trim_end_shape(s: Seq<char>)
    ensures
        trim_end(s).len() <= s.len(),
        trim_end(s) == s.subrange(0, trim_end(s).len() as int),
        trim_end(s).len() == 0 || !is_ws(trim_end(s).last()),
    decreases s.len(),
{
    if s.len() > 0 && is_ws(s.last()) {
        let t = s.drop_last();
        lemma_trim_end_shape(t);
        assert(t.subrange(0, trim_end(t).len() as int) =~= s.subrange(0, trim_end(t).len() as int));
    } else {
        assert(s.subrange(0, s.len() as int) =~= s);
    }
}

/// A text with no whitespace at either end is its own trim.
proof fn lemma_trim_fixed(s: Seq<char>)
    requires
        s.len() > 0,
        !is_ws(s[0]),
        !is_ws(s.last()),
    ensures
        trim(s) == s,
{
}

/// `trim` leaves no whitespace at either end.
proof fn lemma_trim_shape(s: Seq<char>)
    ensures
        trim(s).len() == 0 || (!is_ws(trim(s)[0]) && !is_ws(trim(s).last())),
{
    let ts = trim_start(s);
    lemma_trim_start_shape(s);
    lemma_trim_end_shape(ts);
    if trim(s).len() > 0 {
        assert(trim(s)[0] == ts.subrange(0, trim(s).len() as int)[0]);
    }
}

/// A converted URL is an `https://` URL that converts to itself: converting twice gives
/// what converting once gave.
pub proof fn blossom_url_to_https_law(url: Seq<char>)
    ensures
        blossom_https(url) matches Some(out) ==> has_prefix(out, "https://"@) && blossom_https(out) == Some(out),
{
    reveal_strlit("https://");
    reveal_strlit("blossom://");
    let t = trim(url);
    lemma_trim_shape(url);
    if has_prefix(t, "blossom://"@) {
        let rest = t.subrange(10, t.len() as int);
        let out = "https://"@ + rest;
        assert(out[0] == 'h');
        if rest.len() > 0 {
            assert(out.last() == t.last());
        } else {
            assert(out.last() == '/');
        }
        lemma_trim_fixed(out);
        assert(out.subrange(0, 8) =~= "https://"@);
        assert(!has_prefix(out, "blossom://"@)) by {
            if has_prefix(out, "blossom://"@) {
                assert(out.subrange(0, 10)[0] == 'b');
            }
        }
    } else if has_prefix(t, "https://"@) {
        assert(t[0] == t.subrange(0, 8)[0]);
        lemma_trim_fixed(t);
        assert(!has_prefix(t, "blossom://"@)) by {
            if has_prefix(t, "blossom://"@) {
                assert(t.subrange(0, 10)[0] == 'b');
            }
        }
    }
}

/// Characters kept in a downloaded file name: ASCII letters and digits, `.`, `_` and `-`.
pub open spec fn filename_char_kept(c: char) -> bool {
    ||| ('a' <= c && c <= 'z')
    ||| ('A' <= c && c <= 'Z')
    ||| ('0' <= c && c <= '9')
    ||| c == '.'
    ||| c == '_'
    ||| c == '-'
}

/// Every character outside the kept set replaced by `_`; an empty name becomes `attachment`.
pub open spec fn sanitized_filename(name: Seq<char>) -> Seq<char> {
    if name.len() == 0 {
        "attachment"@
    } else {
        name.map_values(|c: char| if filename_char_kept(c) { c } else { '_' })
    }
}

/// Sanitizes a filename against path traversal: only `[a-zA-Z0-9_.-]` survive.
pub fn sanitize_filename(name: &str) -> (r: String)
    ensures
        r@ == sanitized_filename(name@),
{
    let cs = chars_of(name);
    if cs.len() == 0 {
        return string_of(&chars_of("attachment"));
    }
    let mut out: Vec<char> = Vec::new();
    let mut i: usize = 0;
    while i < cs.len()
        invariant
            i <= cs.len(),
            cs@ == name@,
            out@ == cs@.subrange(0, i as int).map_values(
                |c: char| if filename_char_kept(c) { c } else { '_' },
            ),
        decreases cs.len() - i,
    {
        let c = cs[i];
        let keep = ('a' <= c && c <= 'z') || ('A' <= c && c <= 'Z') || ('0' <= c && c <= '9')
            || c == '.' || c == '_' || c == '-';
        if keep {
            out.push(c);
        } else {
            out.push('_');
        }
        i = i + 1;
        assert(out@ =~= cs@.subrange(0, i as int).map_values(
            |c: char| if filename_char_kept(c) { c } else { '_' },
        ));
    }
    assert(cs@.subrange(0, cs.len() as int) =~= cs@);
    string_of(&out)
}

/// Local file name for a downloaded dispute attachment: `<dispute_id>_<sanitized name>`,
/// with `.enc` appended when the bytes are stored still encrypted.
pub open spec fn download_file_name(dispute_id: Seq<char>, filename: Seq<char>, decrypted: bool) -> Seq<
    char,
> {
    let base = sanitized_filename(filename);
    dispute_id + "_"@ + if decrypted {
        base
    } else {
        base + ".enc"@
    }
}

/// File name under `~/.mostrix/downloads/` for a saved attachment.
pub fn attachment_download_name(dispute_id: &str, filename: &str, decrypted: bool) -> (r: String)
    ensures
        r@ == download_file_name(dispute_id@, filename@, decrypted),
{
    let base = sanitize_filename(filename);
    let mut out = chars_of(dispute_id);
    append_str(&mut out, "_");
    append_str(&mut out, base.as_str());
    if !decrypted {
        append_str(&mut out, ".enc");
    }
    proof {
        if decrypted {
            assert(out@ =~= dispute_id@ + "_"@ + base@);
        } else {
            assert(out@ =~= dispute_id@ + "_"@ + (base@ + ".enc"@));
        }
    }
    string_of(&out)
}

/// Plaintext that ChaCha20-Poly1305 yields for a 32-byte key, a 12-byte nonce and a
/// ciphertext followed by its 16-byte tag, or `None` when authentication fails.
pub uninterp spec fn chacha20poly1305_open(key: Seq<u8>, nonce: Seq<u8>, sealed: Seq<u8>) -> Option<
    Seq<u8>,
>;

/// `ChaCha20Poly1305::new_from_slice(key)` followed by `Aead::decrypt(nonce, sealed)`
/// (chacha20poly1305 crate, no associated data). The contract claims only that the
/// outcome is the named function of the three byte strings; the key length is fixed
/// at 32 so key setup cannot fail, and the nonce length at 12 so `Nonce::from_slice`
/// cannot panic. As `decrypt_in_place` of the aead crate does, a plaintext is the sealed
/// bytes without their 16-byte tag, so it is 16 bytes shorter, and sealed bytes shorter
/// than the tag are refused.
#[verifier::external_body]
fn chacha20poly1305_decrypt(key: &[u8], nonce: &[u8], sealed: &[u8]) -> (r: Option<Vec<u8>>)
    requires
        key@.len() == 32,
        nonce@.len() == 12,
    ensures
        match chacha20poly1305_open(key@, nonce@, sealed@) {
            Some(p) => r matches Some(v) && v@ == p,
            None => r is None,
        },
        r matches Some(v) ==> v@.len() + 16 == sealed@.len(),
        sealed@.len() < 16 ==> r is None,
{
    let cipher = ChaCha20Poly1305::new_from_slice(key).ok()?;
    cipher.decrypt(chacha20poly1305::Nonce::from_slice(nonce), sealed).ok()
}

/// Why an encrypted blob could not be decrypted.
#[derive(Debug, Clone, PartialEq, Eq)]
pub enum DecryptError {
    /// The key is not 32 bytes long (its length is given).
    KeyLength(usize),
    /// The blob is shorter than nonce plus tag (its length is given).
    BlobTooShort(usize),
    /// Authentication of the ciphertext failed.
    Failed,
}

/// Decrypts `[nonce:12][ciphertext][tag:16]` with a 32-byte key.
pub fn decrypt_blob(key: &[u8], blob: &[u8]) -> (r: Result<Vec<u8>, DecryptError>)
    ensures
        key@.len() != 32 ==> r == Err::<Vec<u8>, DecryptError>(DecryptError::KeyLength(key@.len() as usize)),
        key@.len() == 32 && blob@.len() < 28 ==> r == Err::<Vec<u8>, DecryptError>(
            DecryptError::BlobTooShort(blob@.len() as usize),
        ),
        key@.len() == 32 && blob@.len() >= 28 ==> match chacha20poly1305_open(
            key@,
            blob@.subrange(0, 12),
            blob@.subrange(12, blob@.len() as int),
        ) {
            Some(p) => r matches Ok(v) && v@ == p,
            None => r == Err::<Vec<u8>, DecryptError>(DecryptError::Failed),
        },
        r matches Ok(v) ==> v@.len() + 28 == blob@.len(),
{
    if key.len() != 32 {
        return Err(DecryptError::KeyLength(key.len()));
    }
    if blob.len() < BLOB_NONCE_LEN + BLOB_TAG_LEN {
        return Err(DecryptError::BlobTooShort(blob.len()));
    }
    let nonce = copy_range(blob, 0, BLOB_NONCE_LEN);
    let sealed = copy_range(blob, BLOB_NONCE_LEN, blob.len());
    match chacha20poly1305_decrypt(key, nonce.as_slice(), sealed.as_slice()) {
        Some(p) => Ok(p),
        None => Err(DecryptError::Failed),
    }
}

/// The bytes `s[from..to]` as a vector.
pub fn copy_range(s: &[u8], from: usize, to: usize) -> (r: Vec<u8>)
    requires
        from <= to <= s@.len(),
    ensures
        r@ == s@.subrange(from as int, to as int),
{
    let mut r: Vec<u8> = Vec::new();
    let mut i = from;
    while i < to
        invariant
            from <= i <= to <= s@.len(),
            r@ == s@.subrange(from as int, i as int),
        decreases to - i,
    {
        r.push(s[i]);
        i = i + 1;
        assert(r@ =~= s@.subrange(from as int, i as int));
    }
    r
}

} // verus!
