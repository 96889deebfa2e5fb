//! The parts of URLs.

use crate::text::{lowercase, lowered, optional_view, same_text};
use url::{Host, Url};
use vstd::prelude::*;
use vstd::string::*;

verus! {

/// The host of a URL.
#[derive(Debug)]
pub enum UrlHost {
    /// A domain name.
    Domain(String),
    /// An IPv4 address as its number.
    Ipv4(u32),
    /// An IPv6 address as its number.
    Ipv6(u128),
}

/// The host of a URL, its name as characters.
pub ghost enum UrlHostView {
    Domain(Seq<char>),
    Ipv4(u32),
    Ipv6(u128),
}

impl View for UrlHost {
    type V = UrlHostView;

    open spec fn view(&self) -> UrlHostView {
        match *self {
            UrlHost::Domain(name) => UrlHostView::Domain(name@),
            UrlHost::Ipv4(address) => UrlHostView::Ipv4(address),
            UrlHost::Ipv6(address) => UrlHostView::Ipv6(address),
        }
    }
}

/// The parts of a URL that decide what it may be used for.
#[derive(Debug)]
pub struct UrlParts {
    /// Scheme.
    pub scheme: String,
    /// Whether there is a host.
    pub has_host: bool,
    /// User name; empty where there is none.
    pub username: String,
    /// Whether there is a password.
    pub has_password: bool,
    /// Whether there is a query.
    pub has_query: bool,
    /// Whether there is a fragment.
    pub has_fragment: bool,
    /// Path.
    pub path: String,
    /// Whether relative URLs cannot be resolved against it.
    pub cannot_be_a_base: bool,
}

/// The parts of a URL as characters.
pub ghost struct UrlPartsView {
    pub scheme: Seq<char>,
    pub has_host: bool,
    pub username: Seq<char>,
    pub has_password: bool,
    pub has_query: bool,
    pub has_fragment: bool,
    pub path: Seq<char>,
    pub cannot_be_a_base: bool,
}

impl View for UrlParts {
    type V = UrlPartsView;

    open spec fn view(&self) -> UrlPartsView {
        UrlPartsView {
            scheme: self.scheme@,
            has_host: self.has_host,
            username: self.username@,
            has_password: self.has_password,
            has_query: self.has_query,
            has_fragment: self.has_fragment,
            path: self.path@,
            cannot_be_a_base: self.cannot_be_a_base,
        }
    }
}

/// The parts of a text that is a URL.
pub uninterp spec fn url_parts(text: Seq<char>) -> Option<UrlPartsView>;

/// `Url::parse` of url, and the accessors of `Url` on what it gives: named.
#[verifier::external_body]
pub(crate) fn parse_url(text: &str) -> (parts: Option<UrlParts>)
    ensures
        match parts {
            Some(value) => url_parts(text@) == Some(value@),
            None => url_parts(text@) is None,
        },
{
    Url::parse(text).ok().map(|url| UrlParts {
        scheme: url.scheme().to_owned(),
        has_host: url.host_str().is_some(),
        username: url.username().to_owned(),
        has_password: url.password().is_some(),
        has_query: url.query().is_some(),
        has_fragment: url.fragment().is_some(),
        path: url.path().to_owned(),
        cannot_be_a_base: url.cannot_be_a_base(),
    })
}

/// The origin of a text that is a URL, in ASCII.
pub uninterp spec fn url_origin(text: Seq<char>) -> Option<Seq<char>>;

/// `Url::origin` of url on the parsed text, and `Origin::ascii_serialization`: named; there is one
/// wherever the text is a URL. The origin of a `blob` URL is found by parsing its path in turn, as
/// deep as it goes, so the scheme has to be `https`; the origin is made of the host, so there has to
/// be one.
#[verifier::external_body]
pub(crate) fn parse_origin(text: &str) -> (origin: Option<String>)
    requires
        url_parts(text@) matches Some(parts) && parts.scheme == "https"@ && parts.has_host,
    ensures
        optional_view(origin) == url_origin(text@),
        origin is Some,
{
    Url::parse(text).ok().map(|url| url.origin().ascii_serialization())
}

/// The host of a text that is a URL with a host.
pub uninterp spec fn url_host(text: Seq<char>) -> Option<UrlHostView>;

/// `Url::host` of url on the parsed text, addresses as numbers: named.
#[verifier::external_body]
pub(crate) fn parse_host(text: &str) -> (host: Option<UrlHost>)
    ensures
        match host {
            Some(value) => url_host(text@) == Some(value@),
            None => url_host(text@) is None,
        },
{
    match Url::parse(text).ok()?.host()? {
        Host::Domain(name) => Some(UrlHost::Domain(name.to_owned())),
        Host::Ipv4(address) => Some(UrlHost::Ipv4(address.into())),
        Host::Ipv6(address) => Some(UrlHost::Ipv6(address.into())),
    }
}

/// The host names this machine: `localhost` in any case, an address of 127.0.0.0/8, or `::1`.
pub open spec fn loopback_host(host: UrlHostView) -> bool {
    match host {
        UrlHostView::Domain(name) => lowered(name) == "localhost"@,
        UrlHostView::Ipv4(address) => 0x7f00_0000 <= address <= 0x7fff_ffff,
        UrlHostView::Ipv6(address) => address == 1,
    }
}

/// The text is a URL whose host names this machine.
pub open spec fn loopback_url(text: Seq<char>) -> bool {
    url_host(text) matches Some(host) && loopback_host(host)
}

/// Whether the host names this machine.
pub fn is_loopback_host(host: &UrlHost) -> (loopback: bool)
    ensures
        loopback == loopback_host(host@),
{
    match host {
        UrlHost::Domain(name) => {
            let name = lowercase(name.as_str());
            same_text(name.as_str(), "localhost")
        },
        UrlHost::Ipv4(address) => 0x7f00_0000 <= *address && *address <= 0x7fff_ffff,
        UrlHost::Ipv6(address) => *address == 1,
    }
}

/// Whether an optional text is a URL whose host names this machine.
pub fn is_loopback_url(text: &Option<String>) -> (loopback: bool)
    ensures
        loopback == (optional_view(*text) matches Some(value) && loopback_url(value)),
{
    match text {
        Some(value) => match parse_host(value.as_str()) {
            Some(host) => is_loopback_host(&host),
            None => false,
        },
        None => false,
    }
}

/// A host is this machine where it is called localhost in any case of letters, or is an address of the
/// loopback network; every other is not.
pub proof fn loopback_is_this_machine(name: Seq<char>, v4: u32, v6: u128)
    ensures
        loopback_host(UrlHostView::Domain(name)) <==> lowered(name) == "localhost"@,
        loopback_host(UrlHostView::Domain("localhost"@)),
        loopback_host(UrlHostView::Ipv4(v4)) <==> v4 / 0x100_0000 == 127,
        loopback_host(UrlHostView::Ipv6(v6)) <==> v6 == 1,
        forall|text: Seq<char>| #[trigger] loopback_url(text) ==> url_host(text) is Some && loopback_host(
            url_host(text)->0,
        ),
{
    reveal_strlit("localhost");
    assert(lowered("localhost"@) == "localhost"@);
}

} // verus!
