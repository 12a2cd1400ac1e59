//! Web origins, and which of them belong to a relying party.

use url::Url;
use vstd::prelude::*;

use crate::text::same_text;

verus! {

/// `url`'s parsed URL.
#[verifier::external_type_specification]
#[verifier::external_body]
pub struct ExUrl(Url);

/// What the origin rules read of a URL.
pub struct UrlParts {
    pub text: String,
    pub scheme: String,
    pub domain: Option<String>,
    pub port: Option<u16>,
    pub username: String,
    pub password: Option<String>,
    pub path: String,
    pub query: Option<String>,
    pub fragment: Option<String>,
}

/// The characters of what the origin rules read of a URL.
#[verifier::ext_equal]
pub struct UrlView {
    pub text: Seq<char>,
    pub scheme: Seq<char>,
    pub domain: Option<Seq<char>>,
    pub port: Option<u16>,
    pub username: Seq<char>,
    pub password: Option<Seq<char>>,
    pub path: Seq<char>,
    pub query: Option<Seq<char>>,
    pub fragment: Option<Seq<char>>,
}

/// The characters of a text that may be absent.
pub open spec fn optional(text: Option<String>) -> Option<Seq<char>> {
    match text {
        Some(text) => Some(text@),
        None => None,
    }
}

impl View for UrlParts {
    type V = UrlView;

    open spec fn view(&self) -> UrlView {
        UrlView {
            text: self.text@,
            scheme: self.scheme@,
            domain: optional(self.domain),
            port: self.port,
            username: self.username@,
            password: optional(self.password),
            path: self.path@,
            query: optional(self.query),
            fragment: optional(self.fragment),
        }
    }
}

/// The parts of a URL.
pub uninterp spec fn url_view(url: Url) -> UrlView;

/// The parts of the URL that a text denotes, if it denotes one.
pub uninterp spec fn parsed_url(raw: Seq<char>) -> Option<UrlView>;

/// Parses a URL with `url`'s `Url::parse`.
///
/// Whether a text denotes a URL, and which, is a function of the text alone.
#[verifier::external_body]
pub(crate) fn parse_url(raw: &str) -> (r: Option<Url>)
    ensures
        match r {
            Some(url) => parsed_url(raw@) == Some(url_view(url)),
            None => parsed_url(raw@) is None,
        },
{
    Url::parse(raw).ok()
}

/// Reads a URL's parts with `url`'s accessors of the same names (`as_str` for the text): each is
/// a function of the URL alone.
#[verifier::external_body]
pub(crate) fn url_parts(url: &Url) -> (r: UrlParts)
    ensures
        r@ == url_view(*url),
{
    UrlParts {
        text: url.as_str().to_owned(),
        scheme: url.scheme().to_owned(),
        domain: url.domain().map(str::to_owned),
        port: url.port(),
        username: url.username().to_owned(),
        password: url.password().map(str::to_owned),
        path: url.path().to_owned(),
        query: url.query().map(str::to_owned),
        fragment: url.fragment().map(str::to_owned),
    }
}

/// Whether a domain is the relying party's or one below it.
pub open spec fn belongs_to(domain: Seq<char>, rp_id: Seq<char>) -> bool {
    domain == rp_id || ("."@ + rp_id).is_suffix_of(domain)
}

/// An exact origin of a relying party: HTTPS at the default port, or the local host over HTTP or
/// at any port, with nothing but a domain of the relying party.
pub open spec fn exact_origin(url: UrlView, rp_id: Seq<char>) -> bool {
    &&& url.domain is Some
    &&& {
        let local = url.domain->0 == "localhost"@;
        &&& url.scheme == "https"@ || (local && url.scheme == "http"@)
        &&& local || url.port is None
    }
    &&& url.username == ""@
    &&& url.password is None
    &&& url.path == "/"@
    &&& url.query is None
    &&& url.fragment is None
    &&& belongs_to(url.domain->0, rp_id)
}

/// A list of texts that denote exact origins of a relying party, no two the same.
pub open spec fn exact_origins(raw: Seq<Seq<char>>, rp_id: Seq<char>) -> bool {
    &&& forall|i: int|
        0 <= i < raw.len() ==> {
            &&& (#[trigger] parsed_url(raw[i])) is Some
            &&& exact_origin(parsed_url(raw[i])->0, rp_id)
        }
    &&& forall|i: int, j: int|
        0 <= i < j < raw.len() ==> (#[trigger] parsed_url(raw[i]))->0.text != (
        #[trigger] parsed_url(raw[j]))->0.text
}

/// Whether `domain` is the relying party's or one below it.
pub fn domain_belongs_to(domain: &str, rp_id: &str) -> (r: bool)
    ensures
        r == belongs_to(domain@, rp_id@),
{
    if same_text(domain, rp_id) {
        return true;
    }
    let below = crate::failure::joined(".", rp_id);
    crate::text::ends_with(domain, below.as_str())
}

/// Whether a parsed URL is an exact origin of the relying party.
pub fn is_exact_origin(origin: &UrlParts, rp_id: &str) -> (r: bool)
    ensures
        r == exact_origin(origin@, rp_id@),
{
    let domain = match &origin.domain {
        Some(domain) => domain.as_str(),
        None => return false,
    };
    let local = same_text(domain, "localhost");
    let scheme = origin.scheme.as_str();
    (same_text(scheme, "https") || (local && same_text(scheme, "http"))) && (local
        || origin.port.is_none()) && same_text(origin.username.as_str(), "")
        && origin.password.is_none() && same_text(origin.path.as_str(), "/")
        && origin.query.is_none() && origin.fragment.is_none() && domain_belongs_to(domain, rp_id)
}

} // verus!
