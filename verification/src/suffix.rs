//! The cache directory suffix of a source URL.
//!
//! The toolchain disambiguates cache directories by appending sixteen
//! lowercase hex characters derived from the source URL: the URL is stripped
//! of any trailing `.git`, lowercased, and hashed with SipHash-2-4 under the
//! zero key; an optional source-kind tag is fed first, as an 8-byte
//! little-endian integer, and the URL bytes are followed by a single `0xff`
//! terminator.  The little-endian bytes of the 64-bit result are written as
//! lowercase hex.

use vstd::prelude::*;
use vstd::string::*;
use vstd::utf8::*;

use crate::crypto::{hex_encode, hex_of};
use crate::siphash::{le64, siphash24, siphash24_spec};

verus! {

/// The kind of a source, in the toolchain's order; only the tag position of
/// a variant matters for hashing.
#[derive(Clone, Copy, PartialEq, Eq, Structural, Debug)]
pub enum SourceKind {
    /// A git repository.
    _Git,
    /// A local path.
    _Path,
    /// A remote registry.
    _Registry,
    /// A sparse registry.
    SparseRegistry,
    /// A local filesystem-based registry.
    _LocalRegistry,
    /// A directory-based registry.
    _Directory,
}

/// The tag of a source kind: its position in the declaration order.
pub open spec fn source_kind_tag(k: SourceKind) -> u64 {
    match k {
        SourceKind::_Git => 0,
        SourceKind::_Path => 1,
        SourceKind::_Registry => 2,
        SourceKind::SparseRegistry => 3,
        SourceKind::_LocalRegistry => 4,
        SourceKind::_Directory => 5,
    }
}

fn kind_tag(k: SourceKind) -> (r: u64)
    ensures
        r == source_kind_tag(k),
{
    match k {
        SourceKind::_Git => 0,
        SourceKind::_Path => 1,
        SourceKind::_Registry => 2,
        SourceKind::SparseRegistry => 3,
        SourceKind::_LocalRegistry => 4,
        SourceKind::_Directory => 5,
    }
}

/// The eight little-endian bytes of a 64-bit integer.
pub open spec fn le_bytes64(x: u64) -> Seq<u8> {
    seq![
        (x & 0xff) as u8,
        ((x >> 8) & 0xff) as u8,
        ((x >> 16) & 0xff) as u8,
        ((x >> 24) & 0xff) as u8,
        ((x >> 32) & 0xff) as u8,
        ((x >> 40) & 0xff) as u8,
        ((x >> 48) & 0xff) as u8,
        ((x >> 56) & 0xff) as u8,
    ]
}

fn push_le64(v: &mut Vec<u8>, x: u64)
    ensures
        final(v)@ == old(v)@ + le_bytes64(x),
{
    v.push((x & 0xff) as u8);
    v.push(((x >> 8) & 0xff) as u8);
    v.push(((x >> 16) & 0xff) as u8);
    v.push(((x >> 24) & 0xff) as u8);
    v.push(((x >> 32) & 0xff) as u8);
    v.push(((x >> 40) & 0xff) as u8);
    v.push(((x >> 48) & 0xff) as u8);
    v.push(((x >> 56) & 0xff) as u8);
    proof {
        assert(v@ =~= old(v)@ + le_bytes64(x));
    }
}

/// Whether the text ends in `.git`.
pub open spec fn ends_with_git(s: Seq<char>) -> bool {
    s.len() >= 4 && s[s.len() - 4] == '.' && s[s.len() - 3] == 'g' && s[s.len() - 2] == 'i'
        && s[s.len() - 1] == 't'
}

/// The text with every trailing `.git` removed.
pub open spec fn trim_git_spec(s: Seq<char>) -> Seq<char>
    decreases s.len(),
{
    if ends_with_git(s) {
        trim_git_spec(s.take(s.len() - 4))
    } else {
        s
    }
}

fn trim_git<'a>(s: &'a str) -> (r: &'a str)
    ensures
        r@ == trim_git_spec(s@),
    decreases s@.len(),
{
    let len = s.unicode_len();
    if len >= 4 {
        if s.get_char(len - 4) == '.' && s.get_char(len - 3) == 'g' && s.get_char(len - 2) == 'i'
            && s.get_char(len - 1) == 't' {
            let shorter = s.substring_char(0, len - 4);
            return trim_git(shorter);
        }
    }
    s
}

/// What str::to_lowercase returns; pinned exactly only on ASCII text.
pub uninterp spec fn lower_of(s: Seq<char>) -> Seq<char>;

/// The ASCII lowercase of a character: `A`..`Z` map down, all else is kept.
pub open spec fn ascii_lower_char(c: char) -> char {
    if 'A' <= c && c <= 'Z' {
        (((c as u8) + 32) as u8) as char
    } else {
        c
    }
}

/// Relies on str::to_lowercase: the result depends on the characters alone,
/// and on ASCII text it lowercases exactly the letters `A`..`Z`.
#[verifier::external_body]
fn to_lowercase(s: &str) -> (r: String)
    ensures
        r@ == lower_of(s@),
        is_ascii_chars(s@) ==> r@ == s@.map_values(|c: char| ascii_lower_char(c)),
{
    s.to_lowercase()
}

/// The message fed to the hasher for a URL and an optional source kind.
pub open spec fn suffix_message(url: Seq<char>, kind: Option<SourceKind>) -> Seq<u8> {
    (match kind {
        Some(k) => le_bytes64(source_kind_tag(k)),
        None => Seq::empty(),
    }) + encode_utf8(lower_of(trim_git_spec(url))) + seq![0xffu8]
}

/// The sixteen hex characters of the suffix for a URL and an optional
/// source kind.
pub open spec fn suffix_hash_spec(url: Seq<char>, kind: Option<SourceKind>) -> Seq<char> {
    hex_of(le_bytes64(siphash24_spec(suffix_message(url, kind))))
}

/// The suffix of an ASCII URL, with the lowercasing written out: on ASCII
/// text `lower_of` is pinned to the character-wise ASCII lowercase, so this
/// form is closed and can be evaluated.
pub open spec fn suffix_hash_ascii_spec(url: Seq<char>, kind: Option<SourceKind>) -> Seq<char> {
    hex_of(
        le_bytes64(
            siphash24_spec(
                (match kind {
                    Some(k) => le_bytes64(source_kind_tag(k)),
                    None => Seq::empty(),
                }) + encode_utf8(trim_git_spec(url).map_values(|c: char| ascii_lower_char(c)))
                    + seq![0xffu8],
            ),
        ),
    )
}

/// Computes the cache directory suffix of a URL: sixteen lowercase hex
/// characters from the little-endian bytes of the SipHash-2-4 of the
/// trimmed, lowercased URL, preceded by the source-kind tag when one is
/// given.
pub fn get_suffix_hash(url: &str, kind: Option<SourceKind>) -> (r: String)
    ensures
        r@ == suffix_hash_spec(url@, kind),
        is_ascii_chars(trim_git_spec(url@)) ==> r@ == suffix_hash_ascii_spec(url@, kind),
{
    let trimmed = trim_git(url);
    let lowered = to_lowercase(trimmed);
    let mut msg: Vec<u8> = Vec::new();
    match kind {
        Some(k) => {
            let tag = kind_tag(k);
            push_le64(&mut msg, tag);
        },
        None => {},
    }
    let mut url_bytes = lowered.as_str().as_bytes_vec();
    msg.append(&mut url_bytes);
    msg.push(0xff);
    proof {
        assert(msg@ =~= suffix_message(url@, kind));
        if is_ascii_chars(trim_git_spec(url@)) {
            assert(msg@ =~= (match kind {
                Some(k) => le_bytes64(source_kind_tag(k)),
                None => Seq::<u8>::empty(),
            }) + encode_utf8(trim_git_spec(url@).map_values(|c: char| ascii_lower_char(c)))
                + seq![0xffu8]);
        }
    }
    let h = siphash24(&msg);
    let mut out_bytes: Vec<u8> = Vec::new();
    push_le64(&mut out_bytes, h);
    proof {
        assert(out_bytes@ =~= le_bytes64(h));
    }
    hex_encode(out_bytes.as_slice())
}

/// The suffix is insensitive to a trailing `.git`: a URL with and without
/// it names the same cache directory.
pub proof fn lemma_suffix_ignores_trailing_git(url: Seq<char>, kind: Option<SourceKind>)
    ensures
        suffix_hash_spec(url + ".git"@, kind) == suffix_hash_spec(url, kind),
        suffix_hash_ascii_spec(url + ".git"@, kind) == suffix_hash_ascii_spec(url, kind),
{
    reveal_strlit(".git");
    let extended = url + ".git"@;
    assert(extended.len() == url.len() + 4);
    assert(extended[extended.len() - 4] == '.');
    assert(extended[extended.len() - 3] == 'g');
    assert(extended[extended.len() - 2] == 'i');
    assert(extended[extended.len() - 1] == 't');
    assert(ends_with_git(extended));
    assert(extended.take(extended.len() - 4) =~= url);
    assert(trim_git_spec(extended) == trim_git_spec(url));
}

/// The directory name of the sparse registry: the fixed prefix joined with
/// the suffix of the canonical sparse-registry URL.
pub open spec fn registry_dir_name_spec() -> Seq<char> {
    "index.crates.io-"@ + suffix_hash_spec(
        "sparse+https://index.crates.io/"@,
        Some(SourceKind::SparseRegistry),
    )
}

/// The directory name under which the toolchain caches the sparse registry.
pub fn get_registry_path() -> (r: String)
    ensures
        r@ == registry_dir_name_spec(),
{
    let suffix = get_suffix_hash("sparse+https://index.crates.io/", Some(SourceKind::SparseRegistry));
    let mut r = String::from_str("index.crates.io-");
    r.append(suffix.as_str());
    r
}

} // verus!
