//! Package identifiers: a scope and a name, each drawn from a small character
//! set so that an identifier embeds unambiguously in paths and in the index's
//! JSON-Lines files.

use vstd::prelude::*;
use crate::strutil::free_of;

verus! {

/// A character allowed in a scope or a name: lower-case ASCII letters,
/// digits, and dashes.
pub open spec fn ident_char(c: char) -> bool {
    ('a' <= c && c <= 'z') || ('0' <= c && c <= '9') || c == '-'
}

/// A non-empty sequence of identifier characters.
pub open spec fn ident_ok(s: Seq<char>) -> bool {
    s.len() > 0 && forall|i: int| 0 <= i < s.len() ==> ident_char(#[trigger] s[i])
}

/// An identifier never holds a slash, a quote, or a newline, so it can be
/// embedded between such delimiters and recovered exactly.
pub proof fn lemma_ident_free_of_delimiters(s: Seq<char>)
    requires
        ident_ok(s),
    ensures
        free_of(s, '/'),
        free_of(s, '"'),
        free_of(s, '\n'),
{
}

/// The mathematical value of a package identifier.
pub struct PackageNameView {
    pub scope: Seq<char>,
    pub name: Seq<char>,
}

impl PackageNameView {
    /// Both parts are well-formed identifiers.
    pub open spec fn wf(&self) -> bool {
        ident_ok(self.scope) && ident_ok(self.name)
    }

    /// The identifier written as `scope/name`.
    pub open spec fn combined(&self) -> Seq<char> {
        self.scope + seq!['/'] + self.name
    }
}

/// Two well-formed identifiers with the same `scope/name` rendering are the
/// same identifier: the single slash separates the parts unambiguously.
pub proof fn lemma_combined_injective(a: PackageNameView, b: PackageNameView)
    requires
        a.wf(),
        b.wf(),
        a.combined() == b.combined(),
    ensures
        a == b,
{
    lemma_ident_free_of_delimiters(a.scope);
    lemma_ident_free_of_delimiters(b.scope);
    crate::strutil::lemma_split_at_char(a.scope, a.name, b.scope, b.name, '/');
}

/// A scope and a name uniquely naming a package within a registry.
#[derive(Debug)]
pub struct PackageName {
    scope: String,
    name: String,
}

impl View for PackageName {
    type V = PackageNameView;

    closed spec fn view(&self) -> PackageNameView {
        PackageNameView { scope: self.scope@, name: self.name@ }
    }
}

/// True when every character of `s` is an identifier character and `s` is
/// non-empty.
pub fn check_ident(s: &str) -> (r: bool)
    ensures
        r == ident_ok(s@),
{
    let n = s.unicode_len();
    if n == 0 {
        return false;
    }
    let mut i: usize = 0;
    while i < n
        invariant
            n == s@.len(),
            0 <= i <= n,
            forall|j: int| 0 <= j < i ==> ident_char(#[trigger] s@[j]),
        decreases n - i,
    {
        let c = s.get_char(i);
        if !(('a' <= c && c <= 'z') || ('0' <= c && c <= '9') || c == '-') {
            return false;
        }
        i += 1;
    }
    true
}

impl PackageName {
    /// Builds an identifier, accepting exactly the well-formed ones.
    pub fn new(scope: &str, name: &str) -> (r: Option<PackageName>)
        ensures
            r is Some <==> (ident_ok(scope@) && ident_ok(name@)),
            r matches Some(p) ==> p@ == (PackageNameView { scope: scope@, name: name@ }),
    {
        if check_ident(scope) && check_ident(name) {
            Some(PackageName { scope: scope.to_owned(), name: name.to_owned() })
        } else {
            None
        }
    }

    pub fn scope(&self) -> (r: &String)
        ensures
            r@ == self@.scope,
    {
        &self.scope
    }

    pub fn name(&self) -> (r: &String)
        ensures
            r@ == self@.name,
    {
        &self.name
    }

    /// Structural equality of two identifiers.
    pub fn same_as(&self, other: &PackageName) -> (r: bool)
        ensures
            r == (self@ == other@),
    {
        let r = self.scope.eq(&other.scope) && self.name.eq(&other.name);
        proof {
            if self@.scope == other@.scope && self@.name == other@.name {
                assert(self@ == other@);
            }
        }
        r
    }

    /// An independent copy of the identifier.
    pub fn duplicate(&self) -> (r: PackageName)
        ensures
            r@ == self@,
    {
        PackageName { scope: self.scope.clone(), name: self.name.clone() }
    }
}

} // verus!
