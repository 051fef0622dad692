//! Deriving the mirror's place on disk.
//!
//! A registry URL maps to a deterministic cache directory: the URL's domain
//! (or a fallback from its scheme), a dash, and the hex digest prefix of the
//! canonical URL text, joined beneath the platform cache root. A package maps
//! to the file `scope/name` beneath the mirror root.

use vstd::prelude::*;
use crate::package_name::{PackageName, PackageNameView, lemma_combined_injective};
use crate::regurl::{RegistryUrl, RegistryUrlView};

verus! {

/// The hex digit for a nibble.
pub open spec fn hex_digit(n: int) -> char {
    if n == 0 { '0' } else if n == 1 { '1' } else if n == 2 { '2' } else if n == 3 { '3' }
    else if n == 4 { '4' } else if n == 5 { '5' } else if n == 6 { '6' } else if n == 7 { '7' }
    else if n == 8 { '8' } else if n == 9 { '9' } else if n == 10 { 'a' } else if n == 11 { 'b' }
    else if n == 12 { 'c' } else if n == 13 { 'd' } else if n == 14 { 'e' } else { 'f' }
}

/// Lower-case hex, two digits per byte, high nibble first.
pub open spec fn hex_of(b: Seq<u8>) -> Seq<char>
    decreases b.len(),
{
    if b.len() == 0 {
        Seq::empty()
    } else {
        hex_of(b.drop_last()) + seq![
            hex_digit(b.last() as int / 16),
            hex_digit(b.last() as int % 16),
        ]
    }
}

/// Hex is two digits per byte.
pub proof fn lemma_hex_len(b: Seq<u8>)
    ensures
        hex_of(b).len() == 2 * b.len(),
    decreases b.len(),
{
    if b.len() > 0 {
        lemma_hex_len(b.drop_last());
    }
}

/// The one-character string for a nibble.
fn nibble_str(n: u8) -> (r: &'static str)
    requires
        n < 16,
    ensures
        r@ == seq![hex_digit(n as int)],
{
    proof {
        reveal_strlit("0");
        reveal_strlit("1");
        reveal_strlit("2");
        reveal_strlit("3");
        reveal_strlit("4");
        reveal_strlit("5");
        reveal_strlit("6");
        reveal_strlit("7");
        reveal_strlit("8");
        reveal_strlit("9");
        reveal_strlit("a");
        reveal_strlit("b");
        reveal_strlit("c");
        reveal_strlit("d");
        reveal_strlit("e");
        reveal_strlit("f");
    }
    let r = if n == 0 { "0" } else if n == 1 { "1" } else if n == 2 { "2" } else if n == 3 { "3" }
    else if n == 4 { "4" } else if n == 5 { "5" } else if n == 6 { "6" } else if n == 7 { "7" }
    else if n == 8 { "8" } else if n == 9 { "9" } else if n == 10 { "a" } else if n == 11 { "b" }
    else if n == 12 { "c" } else if n == 13 { "d" } else if n == 14 { "e" } else { "f" };
    proof {
        assert(r@ =~= seq![hex_digit(n as int)]);
    }
    r
}

/// Writes bytes as lower-case hex.
pub fn hex_encode(bytes: &Vec<u8>) -> (r: String)
    ensures
        r@ == hex_of(bytes@),
{
    let mut s = String::new();
    let mut i: usize = 0;
    while i < bytes.len()
        invariant
            0 <= i <= bytes@.len(),
            s@ == hex_of(bytes@.take(i as int)),
        decreases bytes@.len() - i,
    {
        let b = bytes[i];
        let hi = b / 16;
        let lo = b % 16;
        s.append(nibble_str(hi));
        s.append(nibble_str(lo));
        proof {
            assert(bytes@.take(i + 1).drop_last() =~= bytes@.take(i as int));
            assert(bytes@.take(i + 1).last() == bytes@[i as int]);
            assert(s@ =~= hex_of(bytes@.take(i + 1)));
        }
        i += 1;
    }
    proof {
        assert(bytes@.take(bytes@.len() as int) =~= bytes@);
    }
    s
}

/// The digest prefix the mirror directory's name is built from: a function of
/// the hashed text alone, stable across calls, processes and machines.
pub uninterp spec fn content_digest8(s: Seq<char>) -> Seq<u8>;

/// Relies on blake3::hash: a 32-byte digest of the UTF-8 bytes of the text,
/// depending on the text alone; the first 8 of its bytes are returned.
#[verifier::external_body]
fn hash_prefix8(s: &str) -> (r: Vec<u8>)
    ensures
        r@ == content_digest8(s@),
        r@.len() == 8,
{
    blake3::hash(s.as_bytes()).as_bytes()[..8].to_vec()
}

/// The identifier a registry is filed under: its domain when it has one, a
/// local-registry fallback for `file` URLs, and an opaque fallback otherwise.
pub open spec fn registry_name_of(u: RegistryUrlView) -> Seq<char> {
    match u.domain {
        Some(d) => d,
        None => if u.scheme == "file"@ {
            "local-registry"@
        } else {
            "unknown"@
        },
    }
}

/// The mirror directory's name: registry name, a dash, and the hex digest
/// prefix of the canonical URL text.
pub open spec fn index_ident_of(u: RegistryUrlView) -> Seq<char> {
    registry_name_of(u) + seq!['-'] + hex_of(content_digest8(u.text))
}

/// The mirror directory's full path beneath a cache root.
pub open spec fn index_path_of(cache_root: Seq<char>, u: RegistryUrlView) -> Seq<char> {
    cache_root + "/wally/index/"@ + index_ident_of(u)
}

/// Derives the mirror directory's name for a registry URL.
pub fn index_ident(u: &RegistryUrl) -> (r: String)
    ensures
        r@ == index_ident_of(u@),
{
    let mut s = match u.domain() {
        Some(d) => d.clone(),
        None => {
            if crate::strutil::str_equal(u.scheme().as_str(), "file") {
                String::from_str("local-registry")
            } else {
                String::from_str("unknown")
            }
        },
    };
    s.append("-");
    let digest = hash_prefix8(u.text().as_str());
    let hex = hex_encode(&digest);
    s.append(hex.as_str());
    proof {
        reveal_strlit("-");
        assert("-"@ =~= seq!['-']);
        assert(s@ =~= index_ident_of(u@));
    }
    s
}

/// Derives the mirror directory's full path for a registry URL beneath a
/// cache root. A pure derivation: equal inputs give equal paths, on every
/// call and in every process.
pub fn index_path_for(cache_root: &str, u: &RegistryUrl) -> (r: String)
    ensures
        r@ == index_path_of(cache_root@, u@),
{
    let mut s = cache_root.to_owned();
    s.append("/wally/index/");
    let ident = index_ident(u);
    s.append(ident.as_str());
    proof {
        assert(s@ =~= index_path_of(cache_root@, u@));
    }
    s
}

/// A name-with-digest identifier is determined by its parts: with digest
/// suffixes of one fixed width, distinct registry names yield distinct
/// identifiers, whatever the digests hold.
pub proof fn lemma_named_ident_distinct(n1: Seq<char>, h1: Seq<char>, n2: Seq<char>, h2: Seq<char>)
    requires
        n1 != n2,
        h1.len() == h2.len(),
    ensures
        n1 + seq!['-'] + h1 != n2 + seq!['-'] + h2,
{
    if n1 + seq!['-'] + h1 == n2 + seq!['-'] + h2 {
        assert((n1 + seq!['-'] + h1).len() == n1.len() + 1 + h1.len());
        assert((n2 + seq!['-'] + h2).len() == n2.len() + 1 + h2.len());
        assert(n1.len() == n2.len());
        assert(n1 =~= n2) by {
            assert(forall|i: int|
                0 <= i < n1.len() ==> n1[i] == (n1 + seq!['-'] + h1)[i] && n2[i] == (n2 + seq!['-']
                    + h2)[i]);
        }
    }
}

/// Registries whose names differ are filed under distinct mirror
/// directories: the digest suffixes share the hashing wrapper's fixed width,
/// so the name prefix alone separates them.
pub proof fn lemma_index_ident_distinct(a: RegistryUrlView, b: RegistryUrlView)
    requires
        registry_name_of(a) != registry_name_of(b),
        content_digest8(a.text).len() == content_digest8(b.text).len(),
    ensures
        index_ident_of(a) != index_ident_of(b),
{
    lemma_hex_len(content_digest8(a.text));
    lemma_hex_len(content_digest8(b.text));
    lemma_named_ident_distinct(
        registry_name_of(a),
        hex_of(content_digest8(a.text)),
        registry_name_of(b),
        hex_of(content_digest8(b.text)),
    );
}

/// The file a package's versions live in, relative to the mirror root:
/// `scope/name`.
pub fn package_rel_path(name: &PackageName) -> (r: String)
    ensures
        r@ == name@.combined(),
{
    let mut s = name.scope().clone();
    s.append("/");
    s.append(name.name().as_str());
    proof {
        reveal_strlit("/");
        assert("/"@ =~= seq!['/']);
        assert(s@ =~= name@.combined());
    }
    s
}

/// Distinct packages live in distinct files beneath the mirror root, so
/// concurrent publishes of two distinct packages write to two distinct
/// append-only files and never interleave within one.
pub proof fn lemma_distinct_packages_distinct_paths(a: PackageNameView, b: PackageNameView)
    requires
        a.wf(),
        b.wf(),
        a != b,
    ensures
        a.combined() != b.combined(),
{
    if a.combined() == b.combined() {
        lemma_combined_injective(a, b);
    }
}

/// Relies on dirs::cache_dir: the platform cache directory, if the
/// environment defines one. The answer depends on the environment, so
/// nothing more is stated of it.
#[verifier::external_body]
pub(crate) fn platform_cache_dir() -> (r: Option<String>) {
    dirs::cache_dir().map(|p| p.to_string_lossy().into_owned())
}

} // verus!
