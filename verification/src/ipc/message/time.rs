//! RFC 3339 timestamps and IANA time-zone names carried on the wire.
//!
//! Whether a text is an RFC 3339 timestamp is decided by chrono's
//! `DateTime::parse_from_rfc3339`; whether it names an IANA zone is decided
//! by chrono-tz's zone table. Both decisions depend on the text alone.

use std::str::FromStr;

use crate::text::push_str;
use vstd::prelude::*;

verus! {

/// Whether chrono's `DateTime::parse_from_rfc3339` accepts the text.
pub uninterp spec fn rfc3339_accepts(text: Seq<char>) -> bool;

/// Whether chrono-tz's `Tz::from_str` knows the zone name.
pub uninterp spec fn iana_zone_known(name: Seq<char>) -> bool;

/// Calls `chrono::DateTime::parse_from_rfc3339` and reports whether it
/// succeeded; the contract only names that outcome.
#[verifier::external_body]
fn rfc3339_parse_ok(value: &str) -> (r: bool)
    ensures
        r == rfc3339_accepts(value@),
{
    chrono::DateTime::parse_from_rfc3339(value).is_ok()
}

/// Calls `chrono_tz::Tz::from_str` (a lookup in chrono-tz's static zone
/// table) and reports whether it succeeded; the contract only names that
/// outcome.
#[verifier::external_body]
fn iana_zone_lookup_ok(value: &str) -> (r: bool)
    ensures
        r == iana_zone_known(value@),
{
    <chrono_tz::Tz as std::str::FromStr>::from_str(value).is_ok()
}

/// Error returned when an IPC timestamp string is not valid RFC 3339.
#[derive(Debug, Clone, PartialEq, Eq)]
pub struct TimestampError {
    /// The invalid value that was rejected.
    pub value: String,
}

impl TimestampError {
    /// The display text: `invalid RFC3339 timestamp: <value>`.
    pub fn message(&self) -> (s: String)
        ensures
            s@ == "invalid RFC3339 timestamp: "@ + self.value@,
    {
        let mut s = String::new();
        push_str(&mut s, "invalid RFC3339 timestamp: ");
        push_str(&mut s, self.value.as_str());
        s
    }
}

/// Error returned when a timezone is not a valid IANA zone name.
#[derive(Debug, Clone, PartialEq, Eq)]
pub struct TimezoneError {
    /// The invalid value that was rejected.
    pub value: String,
}

impl TimezoneError {
    /// The display text: `invalid IANA timezone: <value>`.
    pub fn message(&self) -> (s: String)
        ensures
            s@ == "invalid IANA timezone: "@ + self.value@,
    {
        let mut s = String::new();
        push_str(&mut s, "invalid IANA timezone: ");
        push_str(&mut s, self.value.as_str());
        s
    }
}

/// RFC 3339 timestamp used by IPC message payloads.
#[derive(Debug, PartialEq, Eq, Hash)]
pub struct IpcTimestamp(String);

impl View for IpcTimestamp {
    type V = Seq<char>;

    closed spec fn view(&self) -> Seq<char> {
        self.0@
    }
}

impl IpcTimestamp {
    /// Every value is accepted by the RFC 3339 parser.
    #[verifier::type_invariant]
    pub open spec fn wf(self) -> bool {
        rfc3339_accepts(self@)
    }

    /// Create a validated IPC timestamp.
    pub fn new(value: &str) -> (r: Result<Self, TimestampError>)
        ensures
            r is Ok <==> rfc3339_accepts(value@),
            r matches Ok(t) ==> t@ == value@,
            r matches Err(e) ==> e.value@ == value@,
    {
        if !rfc3339_parse_ok(value) {
            return Err(TimestampError { value: value.to_owned() });
        }
        Ok(IpcTimestamp(value.to_owned()))
    }

    /// Access the wire value.
    pub fn as_str(&self) -> (s: &str)
        ensures
            s@ == self@,
    {
        self.0.as_str()
    }
}

impl Clone for IpcTimestamp {
    fn clone(&self) -> (r: Self)
        ensures
            r@ == self@,
    {
        proof {
            use_type_invariant(self);
        }
        IpcTimestamp(self.0.clone())
    }
}

impl FromStr for IpcTimestamp {
    type Err = TimestampError;

    fn from_str(s: &str) -> (r: Result<Self, Self::Err>)
        ensures
            r is Ok <==> rfc3339_accepts(s@),
            r matches Ok(t) ==> t@ == s@,
            r matches Err(e) ==> e.value@ == s@,
    {
        Self::new(s)
    }
}

impl AsRef<str> for IpcTimestamp {
    fn as_ref(&self) -> (r: &str)
        ensures
            r@ == self@,
    {
        self.as_str()
    }
}

/// IANA timezone identifier used by IPC message payloads.
#[derive(Debug, PartialEq, Eq, Hash)]
pub struct IanaTimezone(String);

impl View for IanaTimezone {
    type V = Seq<char>;

    closed spec fn view(&self) -> Seq<char> {
        self.0@
    }
}

impl IanaTimezone {
    /// Every value names a zone of the IANA table.
    #[verifier::type_invariant]
    pub open spec fn wf(self) -> bool {
        iana_zone_known(self@)
    }

    /// Create a validated IANA timezone.
    pub fn new(value: &str) -> (r: Result<Self, TimezoneError>)
        ensures
            r is Ok <==> iana_zone_known(value@),
            r matches Ok(t) ==> t@ == value@,
            r matches Err(e) ==> e.value@ == value@,
    {
        if !iana_zone_lookup_ok(value) {
            return Err(TimezoneError { value: value.to_owned() });
        }
        Ok(IanaTimezone(value.to_owned()))
    }

    /// Access the wire value.
    pub fn as_str(&self) -> (s: &str)
        ensures
            s@ == self@,
    {
        self.0.as_str()
    }
}

impl Clone for IanaTimezone {
    fn clone(&self) -> (r: Self)
        ensures
            r@ == self@,
    {
        proof {
            use_type_invariant(self);
        }
        IanaTimezone(self.0.clone())
    }
}

impl FromStr for IanaTimezone {
    type Err = TimezoneError;

    fn from_str(s: &str) -> (r: Result<Self, Self::Err>)
        ensures
            r is Ok <==> iana_zone_known(s@),
            r matches Ok(t) ==> t@ == s@,
            r matches Err(e) ==> e.value@ == s@,
    {
        Self::new(s)
    }
}

impl AsRef<str> for IanaTimezone {
    fn as_ref(&self) -> (r: &str)
        ensures
            r@ == self@,
    {
        self.as_str()
    }
}

} // verus!
