//! Error taxonomy shared across the host: the classification every
//! subsystem reports failures in, and configuration errors.

use std::time::Duration;

use crate::id::{ContainerId, ProviderId};
use crate::text::{decimal_seq, join_strings, joined_with, push_decimal_u128, push_str};
use vstd::prelude::*;

verus! {

/// `Duration` is `Copy`: its `clone` returns an equal value.
pub assume_specification[ <std::time::Duration as Clone>::clone ](d: &Duration) -> (r: Duration)
    ensures
        r == *d,
;

/// The class of a failure, which decides how callers react to it.
#[derive(Debug, Clone)]
pub enum ErrorClass {
    /// A temporary failure; retry after the given delay.
    Transient {
        /// How long to wait before retrying.
        retry_after: Duration,
    },
    /// A provider rejected our credentials.
    Auth {
        /// The provider.
        provider: ProviderId,
        /// Why.
        reason: String,
    },
    /// A configuration key is invalid.
    Config {
        /// The key.
        key: String,
        /// Why.
        reason: String,
    },
    /// A container failed.
    Container {
        /// The container, when known.
        id: Option<ContainerId>,
        /// Why.
        reason: String,
    },
    /// An unrecoverable failure.
    Fatal {
        /// Why.
        reason: String,
    },
}

/// Calls `Duration::as_millis`: the whole milliseconds of a duration.
#[verifier::external_body]
fn duration_millis(d: &Duration) -> u128 {
    d.as_millis()
}

/// Whether `s` is the display text of `e`. For a transient failure the
/// delay is shown in whole milliseconds, as `Duration::as_millis` gives them.
pub open spec fn is_error_class_text(e: ErrorClass, s: Seq<char>) -> bool {
    match e {
        ErrorClass::Transient { .. } => exists|ms: nat|
            s == "transient error (retry after "@ + decimal_seq(ms) + "ms)"@,
        ErrorClass::Auth { provider, reason } => s == "auth error for provider "@ + provider@
            + ": "@ + reason@,
        ErrorClass::Config { key, reason } => s == "config error for key '"@ + key@ + "': "@
            + reason@,
        ErrorClass::Container { id, reason } => s == "container error"@ + match id {
            Some(i) => " for "@ + i@,
            None => Seq::empty(),
        } + ": "@ + reason@,
        ErrorClass::Fatal { reason } => s == "fatal error: "@ + reason@,
    }
}

impl ErrorClass {
    /// Only transient failures are worth retrying.
    pub fn is_retriable(&self) -> (r: bool)
        ensures
            r == (*self is Transient),
    {
        match self {
            ErrorClass::Transient { .. } => true,
            _ => false,
        }
    }

    /// The display text of this error.
    pub fn message(&self) -> (s: String)
        ensures
            is_error_class_text(*self, s@),
    {
        let mut s = String::new();
        match self {
            ErrorClass::Transient { retry_after } => {
                let ms = duration_millis(retry_after);
                push_str(&mut s, "transient error (retry after ");
                push_decimal_u128(&mut s, ms);
                push_str(&mut s, "ms)");
            },
            ErrorClass::Auth { provider, reason } => {
                push_str(&mut s, "auth error for provider ");
                push_str(&mut s, provider.as_str());
                push_str(&mut s, ": ");
                push_str(&mut s, reason.as_str());
            },
            ErrorClass::Config { key, reason } => {
                push_str(&mut s, "config error for key '");
                push_str(&mut s, key.as_str());
                push_str(&mut s, "': ");
                push_str(&mut s, reason.as_str());
            },
            ErrorClass::Container { id, reason } => {
                push_str(&mut s, "container error");
                match id {
                    Some(i) => {
                        push_str(&mut s, " for ");
                        push_str(&mut s, i.as_str());
                    },
                    None => {},
                }
                push_str(&mut s, ": ");
                push_str(&mut s, reason.as_str());
                assert(s@ =~= "container error"@ + match *id {
                    Some(i) => " for "@ + i@,
                    None => Seq::empty(),
                } + ": "@ + reason@);
            },
            ErrorClass::Fatal { reason } => {
                push_str(&mut s, "fatal error: ");
                push_str(&mut s, reason.as_str());
            },
        }
        s
    }
}

/// toml's deserialization error, carried opaquely.
#[verifier::external_type_specification]
#[verifier::external_body]
pub struct ExTomlDeError(toml::de::Error);

/// Configuration loading and validation errors.
#[derive(Debug)]
pub enum ConfigError {
    /// The config file could not be read.
    Io(std::io::Error),
    /// The config text is not valid TOML for the model.
    Parse(toml::de::Error),
    /// The config parsed but broke cross-reference rules.
    Validation {
        /// Every rule violation found, in order.
        errors: Vec<String>,
    },
}

/// Renders std's I/O error with its `Display`.
#[verifier::external_body]
pub(crate) fn io_error_text(e: &std::io::Error) -> String {
    e.to_string()
}

/// Renders toml's deserialization error with its `Display`.
#[verifier::external_body]
fn toml_error_text(e: &toml::de::Error) -> String {
    e.to_string()
}

impl ConfigError {
    /// The display text of this error; a validation failure lists its
    /// errors joined by `; `.
    pub fn message(&self) -> (s: String)
        ensures
            match *self {
                ConfigError::Validation { errors } => s@ == "config validation failed: "@
                    + joined_with(errors@.map_values(|e: String| e@), "; "@),
                ConfigError::Io(_) => s@.len() >= "failed to read config file: "@.len()
                    && s@.take("failed to read config file: "@.len() as int)
                    == "failed to read config file: "@,
                ConfigError::Parse(_) => s@.len() >= "failed to parse config: "@.len() && s@.take(
                    "failed to parse config: "@.len() as int,
                ) == "failed to parse config: "@,
            },
    {
        let mut s = String::new();
        match self {
            ConfigError::Io(e) => {
                push_str(&mut s, "failed to read config file: ");
                let ghost head = s@;
                let t = io_error_text(e);
                push_str(&mut s, t.as_str());
                assert(s@.take(head.len() as int) =~= head);
            },
            ConfigError::Parse(e) => {
                push_str(&mut s, "failed to parse config: ");
                let ghost head = s@;
                let t = toml_error_text(e);
                push_str(&mut s, t.as_str());
                assert(s@.take(head.len() as int) =~= head);
            },
            ConfigError::Validation { errors } => {
                push_str(&mut s, "config validation failed: ");
                let joined = join_strings(errors, "; ");
                push_str(&mut s, joined.as_str());
            },
        }
        s
    }
}

} // verus!
