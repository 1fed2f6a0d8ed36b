//! Broker connection strings: validation and credential extraction.
//!
//! A session is configured from a combined connection string: a URL that
//! must use the secure WebSocket scheme, must carry no fragment, and may
//! embed the login and password for the broker. The credentials are
//! extracted and removed before the URL is handed to the transport; they
//! travel as separate authentication fields instead.
//!
//! URL syntax itself is the `url` crate's business; what that crate
//! returns for a given string is named by the uninterpreted functions
//! below, and everything this module decides (validation order, which
//! error comes back when, what the stored URL looks like) is verified
//! against those names.

use vstd::prelude::*;

verus! {

/// Whether the `url` crate parses this string as an absolute URL.
pub uninterp spec fn url_ok(s: Seq<char>) -> bool;

/// The (normalized, lowercase) scheme of the parsed URL.
pub uninterp spec fn url_scheme(s: Seq<char>) -> Seq<char>;

/// Whether the parsed URL carries a fragment.
pub uninterp spec fn url_has_fragment(s: Seq<char>) -> bool;

/// The username component of the parsed URL; empty when absent.
pub uninterp spec fn url_username(s: Seq<char>) -> Seq<char>;

/// The password component of the parsed URL, when present.
pub uninterp spec fn url_password(s: Seq<char>) -> Option<Seq<char>>;

/// The canonical serialization of the parsed URL.
pub uninterp spec fn url_canon(s: Seq<char>) -> Seq<char>;

/// The canonical serialization of the parsed URL after its user
/// information has been cleared.
pub uninterp spec fn url_stripped(s: Seq<char>) -> Seq<char>;

#[verifier::external_type_specification]
#[verifier::external_body]
pub struct ExParseError(url::ParseError);

/// The components of a parsed URL that this module reads, as plain
/// values.
pub struct UrlMeta {
    pub scheme: String,
    pub has_fragment: bool,
    pub username: String,
    pub password: Option<String>,
    pub canonical: String,
}

/// Relies on `url::Url::parse` and the accessors `scheme`, `fragment`,
/// `username`, `password` and `as_str`: parsing is a function of the
/// input string alone, the scheme comes back lowercase, the username is
/// empty when absent, and `as_str` returns the canonical serialization,
/// which reparses to the same URL.
#[verifier::external_body]
fn parse_url_meta(s: &str) -> (r: Result<UrlMeta, url::ParseError>)
    ensures
        r is Ok <==> url_ok(s@),
        r matches Ok(m) ==> m.scheme@ == url_scheme(s@) && m.has_fragment == url_has_fragment(s@)
            && m.username@ == url_username(s@) && m.password.deep_view() == url_password(s@)
            && m.canonical@ == url_canon(s@),
        r matches Ok(m) ==> url_ok(m.canonical@) && url_scheme(m.canonical@) == url_scheme(s@)
            && url_has_fragment(m.canonical@) == url_has_fragment(s@) && url_canon(m.canonical@)
            == m.canonical@,
{
    match url::Url::parse(s) {
        Ok(u) => Ok(UrlMeta {
            scheme: u.scheme().to_string(),
            has_fragment: u.fragment().is_some(),
            username: u.username().to_string(),
            password: u.password().map(|p| p.to_string()),
            canonical: u.as_str().to_string(),
        }),
        Err(e) => Err(e),
    }
}

/// Relies on `url::Url::set_username` and `url::Url::set_password`:
/// clearing both cannot fail on a URL with the `wss` scheme (a special
/// scheme, which always has a non-empty host), and the serialization of
/// the cleared URL carries no user information, keeps the scheme and the
/// fragment of the input URL, and reparses to itself.
#[verifier::external_body]
fn strip_userinfo(s: &str) -> (r: Option<String>)
    ensures
        url_ok(s@) && url_scheme(s@) == "wss"@ ==> r is Some,
        r matches Some(t) ==> t@ == url_stripped(s@),
        r matches Some(t) ==> url_ok(t@) && url_scheme(t@) == url_scheme(s@) && url_has_fragment(
            t@,
        ) == url_has_fragment(s@) && url_username(t@) == Seq::<char>::empty() && url_password(t@)
            is None && url_canon(t@) == t@,
{
    let mut u = url::Url::parse(s).ok()?;
    u.set_username("").ok()?;
    u.set_password(None).ok()?;
    Some(u.as_str().to_string())
}

/// Why a connection string was rejected.
#[derive(Debug, PartialEq, Eq)]
pub enum StompUrlError {
    /// The string is not a URL at all.
    InvalidUrl(url::ParseError),
    /// The URL does not use the secure WebSocket scheme.
    InvalidScheme,
    /// The URL carries a fragment.
    HasFragment,
}

/// Text that is the canonical serialization of a secure WebSocket URL
/// without a fragment.
pub open spec fn wss_url_text(t: Seq<char>) -> bool {
    url_ok(t) && url_scheme(t) == "wss"@ && !url_has_fragment(t) && url_canon(t) == t
}

/// A validated URL for a STOMP-over-WebSocket secure connection, stored
/// in canonical form.
pub struct StompUrl {
    text: String,
}

impl View for StompUrl {
    type V = Seq<char>;

    closed spec fn view(&self) -> Seq<char> {
        self.text@
    }
}

impl StompUrl {
    /// The URL is a canonical `wss` URL without a fragment.
    pub open spec fn wf(&self) -> bool {
        wss_url_text(self@)
    }

    /// Parses and validates a broker URL: it must be a syntactically
    /// valid URL, use the secure WebSocket scheme, and carry no
    /// fragment — checked in that order, so the reported error names the
    /// first failure.
    pub fn new(url: &str) -> (r: Result<Self, StompUrlError>)
        ensures
            match r {
                Ok(u) => url_ok(url@) && url_scheme(url@) == "wss"@ && !url_has_fragment(url@)
                    && u@ == url_canon(url@) && u.wf(),
                Err(StompUrlError::InvalidUrl(_)) => !url_ok(url@),
                Err(StompUrlError::InvalidScheme) => url_ok(url@) && url_scheme(url@) != "wss"@,
                Err(StompUrlError::HasFragment) => url_ok(url@) && url_scheme(url@) == "wss"@
                    && url_has_fragment(url@),
            },
    {
        let meta = match parse_url_meta(url) {
            Ok(m) => m,
            Err(e) => {
                return Err(StompUrlError::InvalidUrl(e));
            },
        };
        let wss = String::from_str("wss");
        if !(meta.scheme == wss) {
            Err(StompUrlError::InvalidScheme)
        } else if meta.has_fragment {
            Err(StompUrlError::HasFragment)
        } else {
            Ok(StompUrl { text: meta.canonical })
        }
    }

    /// The canonical text of the URL.
    pub fn as_str(&self) -> (r: &str)
        ensures
            r@ == self@,
    {
        self.text.as_str()
    }
}

/// The session parameters extracted from a combined connection string:
/// the broker URL with its user information removed, and the credentials
/// that were embedded in it.
pub struct SessionCredentials {
    pub broker_url: StompUrl,
    pub login: String,
    pub password: String,
}

impl SessionCredentials {
    /// The broker URL is a valid `wss` URL and carries no user
    /// information: credentials never reach the transport inside the URL.
    pub open spec fn wf(&self) -> bool {
        self.broker_url.wf() && url_username(self.broker_url@) == Seq::<char>::empty()
            && url_password(self.broker_url@) is None
    }

    /// Splits a combined connection string into a credential-free broker
    /// URL and the login and password embedded in it. Validation order
    /// and errors are those of [`StompUrl::new`]; an absent username
    /// or password comes back empty.
    pub fn parse(s: &str) -> (r: Result<Self, StompUrlError>)
        ensures
            match r {
                Ok(c) => url_ok(s@) && url_scheme(s@) == "wss"@ && !url_has_fragment(s@)
                    && c.login@ == url_username(s@) && (match url_password(s@) {
                    Some(p) => c.password@ == p,
                    None => c.password@ == Seq::<char>::empty(),
                }) && c.broker_url@ == url_stripped(s@) && c.wf(),
                Err(StompUrlError::InvalidUrl(_)) => !url_ok(s@),
                Err(StompUrlError::InvalidScheme) => url_ok(s@) && url_scheme(s@) != "wss"@,
                Err(StompUrlError::HasFragment) => url_ok(s@) && url_scheme(s@) == "wss"@
                    && url_has_fragment(s@),
            },
    {
        let meta = match parse_url_meta(s) {
            Ok(m) => m,
            Err(e) => {
                return Err(StompUrlError::InvalidUrl(e));
            },
        };
        let wss = String::from_str("wss");
        if !(meta.scheme == wss) {
            return Err(StompUrlError::InvalidScheme);
        }
        if meta.has_fragment {
            return Err(StompUrlError::HasFragment);
        }
        let stripped = match strip_userinfo(s) {
            Some(t) => t,
            None => {
                return vstd::pervasive::unreached();
            },
        };
        let password = match meta.password {
            Some(p) => p,
            None => String::new(),
        };
        Ok(SessionCredentials { broker_url: StompUrl { text: stripped }, login: meta.username, password })
    }
}

} // verus!
