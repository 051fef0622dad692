//! A manifest describes one published version of a package: its identifier
//! and its version string.

use vstd::prelude::*;
use crate::package_name::{PackageName, PackageNameView, ident_char};
use crate::strutil::free_of;

verus! {

/// A character allowed in a version string: ASCII letters, digits, dots,
/// dashes and plus signs.
pub open spec fn version_char(c: char) -> bool {
    ('a' <= c && c <= 'z') || ('A' <= c && c <= 'Z') || ('0' <= c && c <= '9') || c == '.' || c
        == '-' || c == '+'
}

/// A non-empty sequence of version characters.
pub open spec fn version_ok(s: Seq<char>) -> bool {
    s.len() > 0 && forall|i: int| 0 <= i < s.len() ==> version_char(#[trigger] s[i])
}

/// A version string never holds a quote or a newline.
pub proof fn lemma_version_free_of_delimiters(s: Seq<char>)
    requires
        version_ok(s),
    ensures
        free_of(s, '"'),
        free_of(s, '\n'),
{
}

/// The mathematical value of a manifest.
pub struct ManifestView {
    pub name: PackageNameView,
    pub version: Seq<char>,
}

impl ManifestView {
    pub open spec fn wf(&self) -> bool {
        self.name.wf() && version_ok(self.version)
    }
}

/// The description of one published package version.
#[derive(Debug)]
pub struct Manifest {
    name: PackageName,
    version: String,
}

impl View for Manifest {
    type V = ManifestView;

    closed spec fn view(&self) -> ManifestView {
        ManifestView { name: self.name@, version: self.version@ }
    }
}

/// True when every character of `s` is a version character and `s` is
/// non-empty.
pub fn check_version(s: &str) -> (r: bool)
    ensures
        r == version_ok(s@),
{
    let n = s.unicode_len();
    if n == 0 {
        return false;
    }
    let mut i: usize = 0;
    while i < n
        invariant
            n == s@.len(),
            0 <= i <= n,
            forall|j: int| 0 <= j < i ==> version_char(#[trigger] s@[j]),
        decreases n - i,
    {
        let c = s.get_char(i);
        if !(('a' <= c && c <= 'z') || ('A' <= c && c <= 'Z') || ('0' <= c && c <= '9') || c == '.'
            || c == '-' || c == '+') {
            return false;
        }
        i += 1;
    }
    true
}

impl Manifest {
    /// Builds a manifest, accepting exactly the well-formed version strings.
    pub fn new(name: PackageName, version: &str) -> (r: Result<Manifest, PackageName>)
        ensures
            r is Ok <==> version_ok(version@),
            r matches Ok(m) ==> m@ == (ManifestView { name: name@, version: version@ }),
            r matches Err(n) ==> n@ == name@,
    {
        if check_version(version) {
            Ok(Manifest { name, version: version.to_owned() })
        } else {
            Err(name)
        }
    }

    pub fn name(&self) -> (r: &PackageName)
        ensures
            r@ == self@.name,
    {
        &self.name
    }

    pub fn version(&self) -> (r: &String)
        ensures
            r@ == self@.version,
    {
        &self.version
    }

    /// The `scope/name@version` rendering used in commit messages.
    pub fn package_id(&self) -> (r: String)
        ensures
            r@ == self@.name.scope + seq!['/'] + self@.name.name + seq!['@'] + self@.version,
    {
        let mut s = String::new();
        s.append(self.name.scope().as_str());
        s.append("/");
        s.append(self.name.name().as_str());
        s.append("@");
        s.append(self.version.as_str());
        proof {
            reveal_strlit("/");
            reveal_strlit("@");
            assert(s@ =~= self@.name.scope + seq!['/'] + self@.name.name + seq!['@']
                + self@.version);
        }
        s
    }
}

} // verus!
