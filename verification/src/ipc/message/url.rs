//! Absolute HTTP(S) URLs used by the provider-proxy configuration.
//!
//! Parsing is the `url` crate's: `Url::parse`, then its lower-cased scheme
//! and whether it has a host. This module decides what is acceptable from
//! those: at most 2048 characters, parsed, `http` or `https`, with a host.

use std::str::FromStr;

use crate::ipc::limits::MAX_ABSOLUTE_HTTP_URL_CHARS;
use crate::text::{char_count, decimal_seq, push_decimal, push_str};
use vstd::prelude::*;

verus! {

/// What `url::Url::parse` makes of a text: `None` when it fails, else the
/// parsed URL's scheme and whether it has a host.
pub uninterp spec fn url_parse_summary(text: Seq<char>) -> Option<(Seq<char>, bool)>;

/// The parts of a parsed URL that the acceptance rule reads.
pub struct ParsedUrl {
    /// The scheme, lower-cased, without the `:`.
    pub scheme: String,
    /// Whether the URL has a host.
    pub has_host: bool,
}

/// Calls `url::Url::parse` and hands back its scheme and whether it has a
/// host, or `None` when parsing fails. The contract names that result as a
/// function of the text; it states nothing about which texts parse.
#[verifier::external_body]
fn parse_url(value: &str) -> (r: Option<ParsedUrl>)
    ensures
        match r {
            None => url_parse_summary(value@) is None,
            Some(p) => url_parse_summary(value@) == Some((p.scheme@, p.has_host)),
        },
{
    match url::Url::parse(value) {
        Ok(u) => Some(ParsedUrl { scheme: u.scheme().to_owned(), has_host: u.host_str().is_some() }),
        Err(_) => None,
    }
}

/// Error returned when a URL field is invalid.
#[derive(Debug, Clone, PartialEq, Eq)]
pub enum AbsoluteHttpUrlError {
    /// URL exceeded max allowed length.
    TooLong {
        /// Maximum allowed character length.
        max: usize,
        /// Actual character length seen.
        actual: usize,
    },
    /// URL failed parsing.
    InvalidUrl {
        /// The invalid URL value.
        value: String,
    },
    /// URL used a non-http(s) scheme.
    UnsupportedScheme,
    /// URL must be absolute with host.
    NotAbsolute,
}

/// The display text of an [`AbsoluteHttpUrlError`].
pub open spec fn url_error_text(e: AbsoluteHttpUrlError) -> Seq<char> {
    match e {
        AbsoluteHttpUrlError::TooLong { max, actual } => "URL length "@ + decimal_seq(
            actual as nat,
        ) + " exceeds maximum "@ + decimal_seq(max as nat),
        AbsoluteHttpUrlError::InvalidUrl { value } => "invalid URL: "@ + value@,
        AbsoluteHttpUrlError::UnsupportedScheme => "URL must use http or https scheme"@,
        AbsoluteHttpUrlError::NotAbsolute => "URL must be absolute with host"@,
    }
}

impl AbsoluteHttpUrlError {
    /// The display text of this error.
    pub fn message(&self) -> (s: String)
        ensures
            s@ == url_error_text(*self),
    {
        let mut s = String::new();
        match self {
            AbsoluteHttpUrlError::TooLong { max, actual } => {
                push_str(&mut s, "URL length ");
                push_decimal(&mut s, *actual as u64);
                push_str(&mut s, " exceeds maximum ");
                push_decimal(&mut s, *max as u64);
            },
            AbsoluteHttpUrlError::InvalidUrl { value } => {
                push_str(&mut s, "invalid URL: ");
                push_str(&mut s, value.as_str());
            },
            AbsoluteHttpUrlError::UnsupportedScheme => {
                push_str(&mut s, "URL must use http or https scheme");
            },
            AbsoluteHttpUrlError::NotAbsolute => {
                push_str(&mut s, "URL must be absolute with host");
            },
        }
        s
    }
}

/// The scheme is `http` or `https`.
pub open spec fn is_http_scheme(scheme: Seq<char>) -> bool {
    scheme == "http"@ || scheme == "https"@
}

/// An acceptable absolute HTTP(S) URL text.
pub open spec fn absolute_http_url_ok(text: Seq<char>) -> bool {
    &&& text.len() <= MAX_ABSOLUTE_HTTP_URL_CHARS
    &&& match url_parse_summary(text) {
        Some((scheme, has_host)) => is_http_scheme(scheme) && has_host,
        None => false,
    }
}

/// Decides, from the outcome of parsing `value`, whether it is an
/// acceptable absolute HTTP(S) URL: a failed parse is `InvalidUrl`
/// carrying the value, a scheme other than `http`/`https` is
/// `UnsupportedScheme`, and a URL without host is `NotAbsolute`.
pub fn check_parsed_url(value: &str, parsed: &Option<ParsedUrl>) -> (r: Result<
    (),
    AbsoluteHttpUrlError,
>)
    ensures
        match parsed {
            None => r matches Err(AbsoluteHttpUrlError::InvalidUrl { value: v }) && v@ == value@,
            Some(p) => if !is_http_scheme(p.scheme@) {
                r matches Err(AbsoluteHttpUrlError::UnsupportedScheme)
            } else if !p.has_host {
                r matches Err(AbsoluteHttpUrlError::NotAbsolute)
            } else {
                r is Ok
            },
        },
{
    match parsed {
        None => Err(AbsoluteHttpUrlError::InvalidUrl { value: value.to_owned() }),
        Some(p) => {
            let scheme = p.scheme.as_str();
            proof {
                reveal_strlit("http");
                reveal_strlit("https");
            }
            let http = crate::text::str_eq(scheme, "http");
            let https = crate::text::str_eq(scheme, "https");
            if !http && !https {
                return Err(AbsoluteHttpUrlError::UnsupportedScheme);
            }
            if !p.has_host {
                return Err(AbsoluteHttpUrlError::NotAbsolute);
            }
            Ok(())
        },
    }
}

/// Absolute HTTP(S) URL used by provider proxy config.
#[derive(Debug, PartialEq, Eq, Hash)]
pub struct AbsoluteHttpUrl(String);

impl View for AbsoluteHttpUrl {
    type V = Seq<char>;

    closed spec fn view(&self) -> Seq<char> {
        self.0@
    }
}

impl AbsoluteHttpUrl {
    /// Maximum allowed length in Unicode scalar values.
    pub const MAX_LEN: usize = MAX_ABSOLUTE_HTTP_URL_CHARS;

    /// Every value is short enough, parses, is http(s) and has a host.
    #[verifier::type_invariant]
    pub open spec fn wf(self) -> bool {
        absolute_http_url_ok(self@)
    }

    /// Construct a validated absolute HTTP(S) URL. Too-long texts are
    /// rejected before parsing; then the parse decides as in
    /// [`check_parsed_url`].
    pub fn new(value: &str) -> (r: Result<Self, AbsoluteHttpUrlError>)
        ensures
            r is Ok <==> absolute_http_url_ok(value@),
            r matches Ok(u) ==> u@ == value@,
            value@.len() > MAX_ABSOLUTE_HTTP_URL_CHARS ==> (r matches Err(
                AbsoluteHttpUrlError::TooLong { max, actual },
            ) && max == MAX_ABSOLUTE_HTTP_URL_CHARS && actual == value@.len()),
            value@.len() <= MAX_ABSOLUTE_HTTP_URL_CHARS ==> match url_parse_summary(value@) {
                None => r matches Err(AbsoluteHttpUrlError::InvalidUrl { value: v }) && v@
                    == value@,
                Some((scheme, has_host)) => if !is_http_scheme(scheme) {
                    r matches Err(AbsoluteHttpUrlError::UnsupportedScheme)
                } else if !has_host {
                    r matches Err(AbsoluteHttpUrlError::NotAbsolute)
                } else {
                    r is Ok
                },
            },
    {
        let actual = char_count(value);
        if actual > MAX_ABSOLUTE_HTTP_URL_CHARS {
            return Err(AbsoluteHttpUrlError::TooLong { max: MAX_ABSOLUTE_HTTP_URL_CHARS, actual });
        }
        let parsed = parse_url(value);
        match check_parsed_url(value, &parsed) {
            Ok(()) => Ok(AbsoluteHttpUrl(value.to_owned())),
            Err(e) => Err(e),
        }
    }

    /// Access the wire value.
    pub fn as_str(&self) -> (s: &str)
        ensures
            s@ == self@,
    {
        self.0.as_str()
    }
}

impl Clone for AbsoluteHttpUrl {
    fn clone(&self) -> (r: Self)
        ensures
            r@ == self@,
    {
        proof {
            use_type_invariant(self);
        }
        AbsoluteHttpUrl(self.0.clone())
    }
}

impl FromStr for AbsoluteHttpUrl {
    type Err = AbsoluteHttpUrlError;

    fn from_str(s: &str) -> (r: Result<Self, Self::Err>)
        ensures
            r is Ok <==> absolute_http_url_ok(s@),
            r matches Ok(u) ==> u@ == s@,
            s@.len() > MAX_ABSOLUTE_HTTP_URL_CHARS ==> (r matches Err(
                AbsoluteHttpUrlError::TooLong { max, actual },
            ) && max == MAX_ABSOLUTE_HTTP_URL_CHARS && actual == s@.len()),
            s@.len() <= MAX_ABSOLUTE_HTTP_URL_CHARS ==> match url_parse_summary(s@) {
                None => r matches Err(AbsoluteHttpUrlError::InvalidUrl { value: v }) && v@
                    == s@,
                Some((scheme, has_host)) => if !is_http_scheme(scheme) {
                    r matches Err(AbsoluteHttpUrlError::UnsupportedScheme)
                } else if !has_host {
                    r matches Err(AbsoluteHttpUrlError::NotAbsolute)
                } else {
                    r is Ok
                },
            },
    {
        Self::new(s)
    }
}

impl AsRef<str> for AbsoluteHttpUrl {
    fn as_ref(&self) -> (r: &str)
        ensures
            r@ == self@,
    {
        self.as_str()
    }
}

} // verus!
