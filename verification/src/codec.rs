//! The index's on-disk formats.
//!
//! Each package's file is a strict JSON-Lines append-only log: one line per
//! published version, in publish order, each line the canonical JSON object
//! `{"name":"scope/name","version":"version"}` followed by a newline. This
//! crate writes those files itself, so their encoder and decoder are exact
//! inverses, and decoding is all-or-nothing: one bad line fails the whole
//! read. The mirror's root also holds `config.json`, written by the remote,
//! not by this crate: any JSON object whose `api` member is a URL string is
//! accepted there, whatever its layout.

use vstd::prelude::*;
use crate::errors::Error;
use crate::manifest::{Manifest, ManifestView, lemma_version_free_of_delimiters};
use crate::package_name::{PackageName, lemma_ident_free_of_delimiters, lemma_combined_injective};
use crate::regurl::{url_ok, RegistryUrl};
use crate::strutil::{matches_at, str_equal, find_char_from};

verus! {

/// The canonical line for one manifest, without its trailing newline.
pub open spec fn manifest_line(m: ManifestView) -> Seq<char> {
    "{\"name\":\""@ + m.name.combined() + "\",\"version\":\""@ + m.version + "\"}"@
}

/// Shape facts about a canonical line: its length, what stands at each
/// position, and where the quotes fall.
pub proof fn lemma_line_shape(m: ManifestView)
    requires
        m.wf(),
    ensures
        ({
            let line = manifest_line(m);
            let id = m.name.combined();
            let v = m.version;
            &&& line.len() == 24 + id.len() + v.len()
            &&& line.subrange(0, 9) == "{\"name\":\""@
            &&& line.subrange(9, 9 + id.len() as int) == id
            &&& (forall|i: int| 9 <= i < 9 + id.len() ==> #[trigger] line[i] != '"')
            &&& line[9 + id.len() as int] == '"'
            &&& line.subrange(9 + id.len() as int, 22 + id.len() as int) == "\",\"version\":\""@
            &&& line.subrange(22 + id.len() as int, 22 + id.len() + v.len() as int) == v
            &&& (forall|i: int|
                22 + id.len() <= i < 22 + id.len() + v.len() ==> #[trigger] line[i] != '"')
            &&& line[22 + id.len() + v.len() as int] == '"'
            &&& line.subrange(line.len() - 2, line.len() as int) == "\"}"@
            &&& (forall|i: int| 0 <= i < line.len() ==> #[trigger] line[i] != '\n')
        }),
{
    reveal_strlit("{\"name\":\"");
    reveal_strlit("\",\"version\":\"");
    reveal_strlit("\"}");
    let line = manifest_line(m);
    let id = m.name.combined();
    let v = m.version;
    lemma_ident_free_of_delimiters(m.name.scope);
    lemma_ident_free_of_delimiters(m.name.name);
    lemma_version_free_of_delimiters(v);
    assert(line.len() == 24 + id.len() + v.len());
    assert(line.subrange(0, 9) =~= "{\"name\":\""@);
    assert(line.subrange(9, 9 + id.len() as int) =~= id);
    assert(forall|i: int| 0 <= i < id.len() ==> #[trigger] id[i] != '"' && id[i] != '\n');
    assert(line.subrange(9 + id.len() as int, 22 + id.len() as int) =~= "\",\"version\":\""@);
    assert(line.subrange(22 + id.len() as int, 22 + id.len() + v.len() as int) =~= v);
    assert(line.subrange(line.len() - 2, line.len() as int) =~= "\"}"@);
    assert(forall|i: int| 0 <= i < line.len() ==> #[trigger] line[i] != '\n') by {
        assert(forall|i: int| 0 <= i < 9 ==> "{\"name\":\""@[i] != '\n');
        assert(forall|i: int| 0 <= i < 13 ==> "\",\"version\":\""@[i] != '\n');
        assert(forall|i: int| 0 <= i < 2 ==> "\"}"@[i] != '\n');
    }
}

/// Two well-formed manifests with the same canonical line are the same
/// manifest.
pub proof fn lemma_manifest_line_injective(a: ManifestView, b: ManifestView)
    requires
        a.wf(),
        b.wf(),
        manifest_line(a) == manifest_line(b),
    ensures
        a == b,
{
    lemma_line_shape(a);
    lemma_line_shape(b);
    let line = manifest_line(a);
    let ida = a.name.combined();
    let idb = b.name.combined();
    if ida.len() < idb.len() {
        assert(line[9 + ida.len() as int] == '"');
        assert(line[9 + ida.len() as int] != '"');
    }
    if idb.len() < ida.len() {
        assert(line[9 + idb.len() as int] == '"');
        assert(line[9 + idb.len() as int] != '"');
    }
    assert(ida == idb);
    lemma_combined_injective(a.name, b.name);
    assert(a.version.len() == b.version.len());
    assert(a.version == b.version);
}

/// Writes the canonical line for a manifest, without its trailing newline.
pub fn encode_manifest(m: &Manifest) -> (r: String)
    ensures
        r@ == manifest_line(m@),
{
    let mut s = String::from_str("{\"name\":\"");
    s.append(m.name().scope().as_str());
    s.append("/");
    s.append(m.name().name().as_str());
    s.append("\",\"version\":\"");
    s.append(m.version().as_str());
    s.append("\"}");
    proof {
        reveal_strlit("/");
        assert("/"@ =~= seq!['/']);
        assert(s@ =~= manifest_line(m@));
    }
    s
}

/// Reads one canonical line back into a manifest.
///
/// Exactly the canonical lines of well-formed manifests are accepted; by
/// [`lemma_manifest_line_injective`] the accepted manifest is unique.
#[verifier::rlimit(100)]
#[verifier::spinoff_prover]
pub fn parse_manifest_line(line: &str) -> (r: Option<Manifest>)
    ensures
        r matches Some(m) ==> m@.wf() && line@ == manifest_line(m@),
        (exists|mv: ManifestView| mv.wf() && line@ == manifest_line(mv)) ==> r is Some,
{
    let ghost can = exists|mv: ManifestView| mv.wf() && line@ == manifest_line(mv);
    let ghost mv = choose|mv: ManifestView| mv.wf() && line@ == manifest_line(mv);
    proof {
        reveal_strlit("{\"name\":\"");
        reveal_strlit("\",\"version\":\"");
        reveal_strlit("\"}");
        if can {
            lemma_line_shape(mv);
        }
    }
    let n = line.unicode_len();
    if n < 9 {
        return None;
    }
    if !matches_at(line, 0, "{\"name\":\"") {
        return None;
    }
    let j = match find_char_from(line, '"', 9) {
        Some(j) => j,
        None => {
            return None;
        },
    };
    proof {
        if can {
            assert(j == 9 + mv.name.combined().len());
        }
    }
    if n - j < 13 {
        return None;
    }
    if !matches_at(line, j, "\",\"version\":\"") {
        return None;
    }
    let k = match find_char_from(line, '"', j + 13) {
        Some(k) => k,
        None => {
            return None;
        },
    };
    proof {
        if can {
            assert(k == 22 + mv.name.combined().len() + mv.version.len());
        }
    }
    if n - k != 2 {
        return None;
    }
    if !matches_at(line, k, "\"}") {
        return None;
    }
    let ident = line.substring_char(9, j);
    let ver = line.substring_char(j + 13, k);
    let sl = match find_char_from(ident, '/', 0) {
        Some(sl) => sl,
        None => {
            proof {
                if can {
                    assert(ident@[mv.name.scope.len() as int] == '/');
                }
            }
            return None;
        },
    };
    proof {
        if can {
            lemma_ident_free_of_delimiters(mv.name.scope);
            assert(sl == mv.name.scope.len());
        }
    }
    let scope = ident.substring_char(0, sl);
    let name = ident.substring_char(sl + 1, ident.unicode_len());
    let pn = match PackageName::new(scope, name) {
        Some(pn) => pn,
        None => {
            proof {
                if can {
                    assert(scope@ =~= mv.name.scope);
                    assert(name@ =~= mv.name.name);
                }
            }
            return None;
        },
    };
    let m = match Manifest::new(pn, ver) {
        Ok(m) => m,
        Err(_) => {
            proof {
                if can {
                    assert(ver@ =~= mv.version);
                }
            }
            return None;
        },
    };
    let enc = encode_manifest(&m);
    if str_equal(enc.as_str(), line) {
        Some(m)
    } else {
        proof {
            if can {
                assert(scope@ =~= mv.name.scope);
                assert(name@ =~= mv.name.name);
                assert(ver@ =~= mv.version);
                assert(m@ == mv);
            }
        }
        None
    }
}

/// The views of a sequence of manifests.
pub open spec fn views_of(v: Seq<Manifest>) -> Seq<ManifestView> {
    v.map_values(|m: Manifest| m@)
}

/// Every manifest of the sequence is well-formed.
pub open spec fn wf_all(ms: Seq<ManifestView>) -> bool {
    forall|i: int| 0 <= i < ms.len() ==> (#[trigger] ms[i]).wf()
}

/// The whole package file for a history of published manifests: one canonical
/// line per manifest, each followed by a newline, in publish order.
pub open spec fn lines_of(ms: Seq<ManifestView>) -> Seq<char>
    decreases ms.len(),
{
    if ms.len() == 0 {
        Seq::empty()
    } else {
        lines_of(ms.drop_last()) + manifest_line(ms.last()) + seq!['\n']
    }
}

/// Publishing appends exactly one line: the file for `ms.push(m)` is the file
/// for `ms` followed by the canonical line for `m` and a newline, `m` stands
/// last, and the earlier history is untouched — publish order is append
/// order, never reordered or deduplicated.
pub proof fn lemma_append_order(ms: Seq<ManifestView>, m: ManifestView)
    ensures
        lines_of(ms.push(m)) == lines_of(ms) + manifest_line(m) + seq!['\n'],
        ms.push(m).len() == ms.len() + 1,
        ms.push(m).last() == m,
        ms.push(m).contains(m),
        forall|i: int| 0 <= i < ms.len() ==> ms.push(m)[i] == ms[i],
        wf_all(ms) && m.wf() ==> wf_all(ms.push(m)),
{
    assert(ms.push(m).drop_last() =~= ms);
    assert(ms.push(m)[ms.len() as int] == m);
}

/// A non-empty history decodes head-first as well: the file is the first
/// line, a newline, and the file of the remaining history.
pub proof fn lemma_lines_head(ms: Seq<ManifestView>)
    requires
        ms.len() > 0,
    ensures
        lines_of(ms) == manifest_line(ms[0]) + seq!['\n'] + lines_of(ms.skip(1)),
    decreases ms.len(),
{
    if ms.len() == 1 {
        assert(ms.drop_last() =~= Seq::<ManifestView>::empty());
        assert(ms.skip(1) =~= Seq::<ManifestView>::empty());
        assert(manifest_line(ms[0]) + seq!['\n'] + lines_of(ms.skip(1)) =~= lines_of(
            ms.drop_last(),
        ) + manifest_line(ms.last()) + seq!['\n']);
    } else {
        let front = ms.drop_last();
        lemma_lines_head(front);
        assert(front[0] == ms[0]);
        assert(front.skip(1) =~= ms.skip(1).drop_last());
        assert(ms.skip(1).last() == ms.last());
        assert(lines_of(ms.skip(1)) == lines_of(ms.skip(1).drop_last()) + manifest_line(ms.last())
            + seq!['\n']);
        assert(lines_of(ms) =~= manifest_line(ms[0]) + seq!['\n'] + lines_of(ms.skip(1)));
    }
}

/// A package file determines its history: two well-formed histories with the
/// same file are the same history, so what a read decodes is unambiguous.
#[verifier::rlimit(100)]
#[verifier::spinoff_prover]
pub proof fn lemma_lines_of_injective(a: Seq<ManifestView>, b: Seq<ManifestView>)
    requires
        wf_all(a),
        wf_all(b),
        lines_of(a) == lines_of(b),
    ensures
        a == b,
    decreases a.len(),
{
    if a.len() == 0 && b.len() == 0 {
        assert(a =~= b);
    } else if a.len() == 0 {
        assert(lines_of(b).len() > 0);
    } else if b.len() == 0 {
        assert(lines_of(a).len() > 0);
    } else {
        lemma_lines_head(a);
        lemma_lines_head(b);
        lemma_line_shape(a[0]);
        lemma_line_shape(b[0]);
        crate::strutil::lemma_split_at_char(
            manifest_line(a[0]),
            lines_of(a.skip(1)),
            manifest_line(b[0]),
            lines_of(b.skip(1)),
            '\n',
        );
        lemma_manifest_line_injective(a[0], b[0]);
        assert(wf_all(a.skip(1))) by {
            assert(forall|i: int| 0 <= i < a.skip(1).len() ==> a.skip(1)[i] == a[i + 1]);
        }
        assert(wf_all(b.skip(1))) by {
            assert(forall|i: int| 0 <= i < b.skip(1).len() ==> b.skip(1)[i] == b[i + 1]);
        }
        lemma_lines_of_injective(a.skip(1), b.skip(1));
        assert(a.skip(1).len() == b.skip(1).len());
        assert(forall|i: int| 1 <= i < a.len() ==> a[i] == a.skip(1)[i - 1]);
        assert(forall|i: int| 1 <= i < b.len() ==> b[i] == b.skip(1)[i - 1]);
        assert(a =~= b);
    }
}

/// Reading after a publish sees exactly the published history: any
/// well-formed history whose file is the old file plus one published line is
/// the old history with that manifest appended — the new version is included,
/// every earlier version keeps its place, and nothing is deduplicated.
pub proof fn lemma_read_after_publish(
    ms: Seq<ManifestView>,
    m: ManifestView,
    decoded: Seq<ManifestView>,
)
    requires
        wf_all(ms),
        m.wf(),
        wf_all(decoded),
        lines_of(decoded) == lines_of(ms) + manifest_line(m) + seq!['\n'],
    ensures
        decoded == ms.push(m),
        decoded.contains(m),
        decoded.len() == ms.len() + 1,
        decoded.last() == m,
        forall|i: int| 0 <= i < ms.len() ==> decoded[i] == ms[i],
{
    lemma_append_order(ms, m);
    lemma_lines_of_injective(decoded, ms.push(m));
}

/// Reads a whole package file back into its history of manifests.
///
/// Exactly the canonical files are accepted, and acceptance is
/// all-or-nothing: one line that is not a canonical manifest line fails the
/// whole read with `Malformed`, never a truncated list.
#[verifier::rlimit(100)]
#[verifier::spinoff_prover]
pub fn parse_package_file(contents: &str) -> (r: Result<Vec<Manifest>, Error>)
    ensures
        r matches Ok(v) ==> wf_all(views_of(v@)) && contents@ == lines_of(views_of(v@)),
        (exists|ms: Seq<ManifestView>| wf_all(ms) && contents@ == lines_of(ms)) ==> r is Ok,
        r matches Err(e) ==> e is Malformed,
{
    let ghost can = exists|ms: Seq<ManifestView>| wf_all(ms) && contents@ == lines_of(ms);
    let ghost msall = choose|ms: Seq<ManifestView>| wf_all(ms) && contents@ == lines_of(ms);
    let ghost mut k: int = 0;
    let n = contents.unicode_len();
    let mut out: Vec<Manifest> = Vec::new();
    let mut pos: usize = 0;
    proof {
        assert(contents@.subrange(0, 0) =~= lines_of(views_of(out@)));
        if can {
            assert(msall.take(0) =~= Seq::<ManifestView>::empty());
            assert(msall.skip(0) =~= msall);
        }
    }
    while pos < n
        invariant
            n == contents@.len(),
            pos <= n,
            wf_all(views_of(out@)),
            contents@.subrange(0, pos as int) == lines_of(views_of(out@)),
            can == exists|ms: Seq<ManifestView>| wf_all(ms) && contents@ == lines_of(ms),
            can ==> wf_all(msall) && contents@ == lines_of(msall),
            can ==> 0 <= k <= msall.len(),
            can ==> views_of(out@) == msall.take(k),
            can ==> contents@.subrange(pos as int, n as int) == lines_of(msall.skip(k)),
        decreases n - pos,
    {
        proof {
            if can {
                if msall.skip(k).len() == 0 {
                    assert(false);
                }
                lemma_lines_head(msall.skip(k));
                lemma_line_shape(msall.skip(k)[0]);
            }
        }
        let ghost m0 = if can { msall[k] } else { arbitrary() };
        let ghost ll = manifest_line(m0).len() as int;
        proof {
            if can {
                assert(msall.skip(k)[0] == m0);
                let suf = contents@.subrange(pos as int, n as int);
                let lm = manifest_line(m0);
                let rest = lines_of(msall.skip(k).skip(1));
                assert(suf == lm + seq!['\n'] + rest);
                assert(crate::strutil::free_of(lm, '\n'));
                crate::strutil::lemma_first_occurrence(lm, rest, '\n');
                assert(forall|i: int| 0 <= i < ll ==> suf[i] == lm[i] && suf[i] != '\n');
                assert(suf[ll] == '\n');
                assert(forall|i: int|
                    pos <= i < pos + ll ==> contents@[i] == suf[i - pos] && contents@[i] == lm[i
                        - pos] && contents@[i] != '\n');
                assert(contents@[pos + ll] == suf[ll]);
                assert(contents@[pos + ll] == '\n');
            }
        }
        let e = match find_char_from(contents, '\n', pos) {
            Some(e) => e,
            None => {
                proof {
                    if can {
                        assert(contents@[pos + ll] == '\n');
                        assert(false);
                    }
                }
                return Err(Error::Malformed(String::from_str("package index entry does not end in a newline")));
            },
        };
        proof {
            if can {
                assert(e == pos + ll);
            }
        }
        let line = contents.substring_char(pos, e);
        let m = match parse_manifest_line(line) {
            Some(m) => m,
            None => {
                proof {
                    if can {
                        assert(line@ =~= manifest_line(m0));
                        assert(false);
                    }
                }
                return Err(Error::Malformed(String::from_str("could not parse package index entry")));
            },
        };
        proof {
            if can {
                assert(line@ =~= manifest_line(m0));
                lemma_manifest_line_injective(m@, m0);
            }
        }
        let ghost old_out = out@;
        out.push(m);
        proof {
            assert(views_of(out@) =~= views_of(old_out).push(m@));
            lemma_append_order(views_of(old_out), m@);
            assert(contents@.subrange(0, e + 1 as int) =~= lines_of(views_of(old_out))
                + manifest_line(m@) + seq!['\n']);
            if can {
                assert(msall.take(k + 1) =~= msall.take(k).push(m0));
                assert(msall.skip(k).skip(1) =~= msall.skip(k + 1));
                let suf = contents@.subrange(pos as int, n as int);
                let lm = manifest_line(m0);
                let rest = lines_of(msall.skip(k).skip(1));
                assert(rest == lines_of(msall.skip(k + 1)));
                crate::strutil::lemma_first_occurrence(lm, rest, '\n');
                assert(forall|i: int|
                    0 <= i < rest.len() ==> contents@.subrange(e + 1 as int, n as int)[i]
                        == contents@[e + 1 + i] && contents@[e + 1 + i] == suf[ll + 1 + i]
                        && suf[ll + 1 + i] == rest[i]);
                assert(contents@.subrange(e + 1 as int, n as int) =~= lines_of(msall.skip(k + 1)));
                k = k + 1;
            }
        }
        pos = e + 1;
    }
    proof {
        assert(contents@.subrange(0, n as int) =~= contents@);
    }
    Ok(out)
}

/// Whether serde_json accepts `s` as a JSON value that is an object whose
/// `api` member is a string: a function of the text alone, whitespace,
/// layout and string escapes included.
pub uninterp spec fn config_json_ok(s: Seq<char>) -> bool;

/// The `api` member of that object, with its escapes resolved.
pub uninterp spec fn config_json_api(s: Seq<char>) -> Seq<char>;

/// Relies on serde_json::from_str::<Value>, Value::get and Value::as_str:
/// together they accept exactly the JSON texts denoting an object whose
/// `api` member is a string, and hand that member back.
#[verifier::external_body]
fn read_api_from_json(s: &str) -> (r: Result<String, ()>)
    ensures
        r is Ok <==> config_json_ok(s@),
        r matches Ok(a) ==> a@ == config_json_api(s@),
{
    let value: serde_json::Value = match serde_json::from_str(s) {
        Ok(value) => value,
        Err(_) => return Err(()),
    };
    match value.get("api").and_then(|api| api.as_str()) {
        Some(api) => Ok(api.to_owned()),
        None => Err(()),
    }
}

/// Reads a `config.json` text into its API endpoint. Exactly the JSON texts
/// denoting an object whose `api` member is a string holding a URL are
/// accepted — pretty-printed layouts and escapes included, since the remote
/// writes this file, not this crate.
pub fn parse_config_text(s: &str) -> (r: Option<String>)
    ensures
        r is Some <==> config_json_ok(s@) && url_ok(config_json_api(s@)),
        r matches Some(a) ==> a@ == config_json_api(s@) && url_ok(a@),
{
    let api = match read_api_from_json(s) {
        Ok(api) => api,
        Err(()) => {
            return None;
        },
    };
    match RegistryUrl::parse(api.as_str()) {
        Some(_) => Some(api),
        None => None,
    }
}

} // verus!
