//! The registry's URL, modelled by the three things the index reads of it:
//! its canonical text, its scheme, and its domain if it has one. Parsing and
//! canonicalisation are the `url` crate's; they depend on the input alone.

use vstd::prelude::*;

verus! {

/// Whether the `url` crate accepts `s` as an absolute URL.
pub uninterp spec fn url_ok(s: Seq<char>) -> bool;

/// The canonical (serialised) text of the URL parsed from `s`.
pub uninterp spec fn url_canon(s: Seq<char>) -> Seq<char>;

/// The scheme of the URL parsed from `s`.
pub uninterp spec fn url_scheme(s: Seq<char>) -> Seq<char>;

/// The domain of the URL parsed from `s`, if its host is a domain name.
pub uninterp spec fn url_domain(s: Seq<char>) -> Option<Seq<char>>;

/// The mathematical value of a registry URL.
pub struct RegistryUrlView {
    pub text: Seq<char>,
    pub scheme: Seq<char>,
    pub domain: Option<Seq<char>>,
}

/// A remote registry's URL, as the index reads it.
#[derive(Debug)]
pub struct RegistryUrl {
    text: String,
    scheme: String,
    domain: Option<String>,
}

impl View for RegistryUrl {
    type V = RegistryUrlView;

    closed spec fn view(&self) -> RegistryUrlView {
        RegistryUrlView {
            text: self.text@,
            scheme: self.scheme@,
            domain: match self.domain {
                Some(d) => Some(d@),
                None => None,
            },
        }
    }
}

/// Relies on url::Url::parse, and on Url::as_str, Url::scheme and
/// Url::domain to read the parsed value back: all are functions of the input
/// string alone.
#[verifier::external_body]
fn parse_url_parts(s: &str) -> (r: Option<RegistryUrl>)
    ensures
        r is Some <==> url_ok(s@),
        r matches Some(u) ==> u@ == (RegistryUrlView {
            text: url_canon(s@),
            scheme: url_scheme(s@),
            domain: url_domain(s@),
        }),
{
    match url::Url::parse(s) {
        Ok(u) => Some(
            RegistryUrl {
                text: u.as_str().to_owned(),
                scheme: u.scheme().to_owned(),
                domain: u.domain().map(|d| d.to_owned()),
            },
        ),
        Err(_) => None,
    }
}

impl RegistryUrl {
    /// Parses a registry URL, accepting exactly what the `url` crate accepts.
    pub fn parse(s: &str) -> (r: Option<RegistryUrl>)
        ensures
            r is Some <==> url_ok(s@),
            r matches Some(u) ==> u@ == (RegistryUrlView {
                text: url_canon(s@),
                scheme: url_scheme(s@),
                domain: url_domain(s@),
            }),
    {
        parse_url_parts(s)
    }

    /// The canonical text of the URL.
    pub fn text(&self) -> (r: &String)
        ensures
            r@ == self@.text,
    {
        &self.text
    }

    /// The URL's scheme.
    pub fn scheme(&self) -> (r: &String)
        ensures
            r@ == self@.scheme,
    {
        &self.scheme
    }

    /// The URL's domain, if its host is a domain name.
    pub fn domain(&self) -> (r: &Option<String>)
        ensures
            match r {
                Some(d) => self@.domain matches Some(dv) && dv == d@,
                None => self@.domain is None,
            },
    {
        &self.domain
    }

    /// An independent copy of the URL.
    pub fn duplicate(&self) -> (r: RegistryUrl)
        ensures
            r@ == self@,
    {
        let domain = match &self.domain {
            Some(d) => Some(d.clone()),
            None => None,
        };
        RegistryUrl { text: self.text.clone(), scheme: self.scheme.clone(), domain }
    }
}

} // verus!
