//! Identity newtypes for compile-time type safety.
//!
//! Each ID wraps a `String` that is non-blank (at least one non-whitespace
//! character) and at most 128 characters long; every constructor enforces
//! this and the types carry it as their invariant.

use std::str::FromStr;

use crate::text::{char_count, decimal_seq, is_blank, is_blank_seq, push_decimal, push_str};
use vstd::prelude::*;

verus! {

/// Maximum length of an identifier, in Unicode scalar values.
pub const MAX_ID_CHARS: usize = 128;

/// Identifier validity: not blank and at most [`MAX_ID_CHARS`] characters.
pub open spec fn is_valid_id_text(s: Seq<char>) -> bool {
    !is_blank_seq(s) && s.len() <= MAX_ID_CHARS
}

/// The reason recorded when `value` is rejected as an identifier of type `id_kind`.
pub open spec fn id_rejection_reason(id_kind: Seq<char>, value: Seq<char>) -> Seq<char> {
    if is_blank_seq(value) {
        id_kind + " cannot be empty or whitespace-only"@
    } else {
        id_kind + " cannot exceed 128 characters (got "@ + decimal_seq(value.len()) + ")"@
    }
}

/// Error returned when an ID string fails validation.
#[derive(Debug, Clone, PartialEq, Eq)]
pub struct IdError {
    /// Human-readable description of why the value was rejected.
    pub reason: String,
}

impl IdError {
    /// The display text: `invalid identifier: <reason>`.
    pub fn message(&self) -> (s: String)
        ensures
            s@ == "invalid identifier: "@ + self.reason@,
    {
        let mut s = String::new();
        push_str(&mut s, "invalid identifier: ");
        push_str(&mut s, self.reason.as_str());
        s
    }
}

/// Checks `value` against the identifier rules, naming `id_kind` in the error.
pub fn check_id_text(id_kind: &str, value: &str) -> (r: Result<(), IdError>)
    ensures
        r is Ok <==> is_valid_id_text(value@),
        r matches Err(e) ==> e.reason@ == id_rejection_reason(id_kind@, value@),
{
    if is_blank(value) {
        let mut reason = String::new();
        push_str(&mut reason, id_kind);
        push_str(&mut reason, " cannot be empty or whitespace-only");
        return Err(IdError { reason });
    }
    let len = char_count(value);
    if len > MAX_ID_CHARS {
        let mut reason = String::new();
        push_str(&mut reason, id_kind);
        push_str(&mut reason, " cannot exceed 128 characters (got ");
        push_decimal(&mut reason, len as u64);
        push_str(&mut reason, ")");
        return Err(IdError { reason });
    }
    Ok(())
}

/// Unique identifier for a group (logical agent context).
#[derive(Debug, PartialEq, Eq, Hash)]
pub struct GroupId(String);

impl View for GroupId {
    type V = Seq<char>;

    closed spec fn view(&self) -> Seq<char> {
        self.0@
    }
}

impl GroupId {
    #[verifier::type_invariant]
    pub open spec fn wf(self) -> bool {
        is_valid_id_text(self@)
    }

    /// Create a validated ID, rejecting blank values and values longer than
    /// 128 characters.
    pub fn new(value: &str) -> (r: Result<Self, IdError>)
        ensures
            r is Ok <==> is_valid_id_text(value@),
            r matches Ok(id) ==> id@ == value@,
            r matches Err(e) ==> e.reason@ == id_rejection_reason("GroupId"@, value@),
    {
        match check_id_text("GroupId", value) {
            Ok(()) => Ok(GroupId(value.to_owned())),
            Err(e) => Err(e),
        }
    }

    /// The wire value.
    pub fn as_str(&self) -> (s: &str)
        ensures
            s@ == self@,
    {
        self.0.as_str()
    }

    /// Returns `true` when both IDs hold the same text.
    pub fn same_as(&self, other: &Self) -> (r: bool)
        ensures
            r == (self@ == other@),
    {
        self.0 == other.0
    }
}

impl Clone for GroupId {
    fn clone(&self) -> (r: Self)
        ensures
            r@ == self@,
    {
        proof {
            use_type_invariant(self);
        }
        GroupId(self.0.clone())
    }
}

impl FromStr for GroupId {
    type Err = IdError;

    fn from_str(s: &str) -> (r: Result<Self, Self::Err>)
        ensures
            r is Ok <==> is_valid_id_text(s@),
            r matches Ok(id) ==> id@ == s@,
            r matches Err(e) ==> e.reason@ == id_rejection_reason("GroupId"@, s@),
    {
        Self::new(s)
    }
}

impl AsRef<str> for GroupId {
    fn as_ref(&self) -> (r: &str)
        ensures
            r@ == self@,
    {
        self.as_str()
    }
}

/// Unique identifier for a container instance.
#[derive(Debug, PartialEq, Eq, Hash)]
pub struct ContainerId(String);

impl View for ContainerId {
    type V = Seq<char>;

    closed spec fn view(&self) -> Seq<char> {
        self.0@
    }
}

impl ContainerId {
    #[verifier::type_invariant]
    pub open spec fn wf(self) -> bool {
        is_valid_id_text(self@)
    }

    /// Create a validated ID, rejecting blank values and values longer than
    /// 128 characters.
    pub fn new(value: &str) -> (r: Result<Self, IdError>)
        ensures
            r is Ok <==> is_valid_id_text(value@),
            r matches Ok(id) ==> id@ == value@,
            r matches Err(e) ==> e.reason@ == id_rejection_reason("ContainerId"@, value@),
    {
        match check_id_text("ContainerId", value) {
            Ok(()) => Ok(ContainerId(value.to_owned())),
            Err(e) => Err(e),
        }
    }

    /// The wire value.
    pub fn as_str(&self) -> (s: &str)
        ensures
            s@ == self@,
    {
        self.0.as_str()
    }

    /// Returns `true` when both IDs hold the same text.
    pub fn same_as(&self, other: &Self) -> (r: bool)
        ensures
            r == (self@ == other@),
    {
        self.0 == other.0
    }
}

impl Clone for ContainerId {
    fn clone(&self) -> (r: Self)
        ensures
            r@ == self@,
    {
        proof {
            use_type_invariant(self);
        }
        ContainerId(self.0.clone())
    }
}

impl FromStr for ContainerId {
    type Err = IdError;

    fn from_str(s: &str) -> (r: Result<Self, Self::Err>)
        ensures
            r is Ok <==> is_valid_id_text(s@),
            r matches Ok(id) ==> id@ == s@,
            r matches Err(e) ==> e.reason@ == id_rejection_reason("ContainerId"@, s@),
    {
        Self::new(s)
    }
}

impl AsRef<str> for ContainerId {
    fn as_ref(&self) -> (r: &str)
        ensures
            r@ == self@,
    {
        self.as_str()
    }
}

/// Unique identifier for a provider (e.g. "anthropic", "ollama").
#[derive(Debug, PartialEq, Eq, Hash)]
pub struct ProviderId(String);

impl View for ProviderId {
    type V = Seq<char>;

    closed spec fn view(&self) -> Seq<char> {
        self.0@
    }
}

impl ProviderId {
    #[verifier::type_invariant]
    pub open spec fn wf(self) -> bool {
        is_valid_id_text(self@)
    }

    /// Create a validated ID, rejecting blank values and values longer than
    /// 128 characters.
    pub fn new(value: &str) -> (r: Result<Self, IdError>)
        ensures
            r is Ok <==> is_valid_id_text(value@),
            r matches Ok(id) ==> id@ == value@,
            r matches Err(e) ==> e.reason@ == id_rejection_reason("ProviderId"@, value@),
    {
        match check_id_text("ProviderId", value) {
            Ok(()) => Ok(ProviderId(value.to_owned())),
            Err(e) => Err(e),
        }
    }

    /// The wire value.
    pub fn as_str(&self) -> (s: &str)
        ensures
            s@ == self@,
    {
        self.0.as_str()
    }

    /// Returns `true` when both IDs hold the same text.
    pub fn same_as(&self, other: &Self) -> (r: bool)
        ensures
            r == (self@ == other@),
    {
        self.0 == other.0
    }
}

impl Clone for ProviderId {
    fn clone(&self) -> (r: Self)
        ensures
            r@ == self@,
    {
        proof {
            use_type_invariant(self);
        }
        ProviderId(self.0.clone())
    }
}

impl FromStr for ProviderId {
    type Err = IdError;

    fn from_str(s: &str) -> (r: Result<Self, Self::Err>)
        ensures
            r is Ok <==> is_valid_id_text(s@),
            r matches Ok(id) ==> id@ == s@,
            r matches Err(e) ==> e.reason@ == id_rejection_reason("ProviderId"@, s@),
    {
        Self::new(s)
    }
}

impl AsRef<str> for ProviderId {
    fn as_ref(&self) -> (r: &str)
        ensures
            r@ == self@,
    {
        self.as_str()
    }
}

/// Unique identifier for a channel (e.g. "discord", "telegram").
#[derive(Debug, PartialEq, Eq, Hash)]
pub struct ChannelId(String);

impl View for ChannelId {
    type V = Seq<char>;

    closed spec fn view(&self) -> Seq<char> {
        self.0@
    }
}

impl ChannelId {
    #[verifier::type_invariant]
    pub open spec fn wf(self) -> bool {
        is_valid_id_text(self@)
    }

    /// Create a validated ID, rejecting blank values and values longer than
    /// 128 characters.
    pub fn new(value: &str) -> (r: Result<Self, IdError>)
        ensures
            r is Ok <==> is_valid_id_text(value@),
            r matches Ok(id) ==> id@ == value@,
            r matches Err(e) ==> e.reason@ == id_rejection_reason("ChannelId"@, value@),
    {
        match check_id_text("ChannelId", value) {
            Ok(()) => Ok(ChannelId(value.to_owned())),
            Err(e) => Err(e),
        }
    }

    /// The wire value.
    pub fn as_str(&self) -> (s: &str)
        ensures
            s@ == self@,
    {
        self.0.as_str()
    }

    /// Returns `true` when both IDs hold the same text.
    pub fn same_as(&self, other: &Self) -> (r: bool)
        ensures
            r == (self@ == other@),
    {
        self.0 == other.0
    }
}

impl Clone for ChannelId {
    fn clone(&self) -> (r: Self)
        ensures
            r@ == self@,
    {
        proof {
            use_type_invariant(self);
        }
        ChannelId(self.0.clone())
    }
}

impl FromStr for ChannelId {
    type Err = IdError;

    fn from_str(s: &str) -> (r: Result<Self, Self::Err>)
        ensures
            r is Ok <==> is_valid_id_text(s@),
            r matches Ok(id) ==> id@ == s@,
            r matches Err(e) ==> e.reason@ == id_rejection_reason("ChannelId"@, s@),
    {
        Self::new(s)
    }
}

impl AsRef<str> for ChannelId {
    fn as_ref(&self) -> (r: &str)
        ensures
            r@ == self@,
    {
        self.as_str()
    }
}

/// Unique identifier for a queued job.
#[derive(Debug, PartialEq, Eq, Hash)]
pub struct JobId(String);

impl View for JobId {
    type V = Seq<char>;

    closed spec fn view(&self) -> Seq<char> {
        self.0@
    }
}

impl JobId {
    #[verifier::type_invariant]
    pub open spec fn wf(self) -> bool {
        is_valid_id_text(self@)
    }

    /// Create a validated ID, rejecting blank values and values longer than
    /// 128 characters.
    pub fn new(value: &str) -> (r: Result<Self, IdError>)
        ensures
            r is Ok <==> is_valid_id_text(value@),
            r matches Ok(id) ==> id@ == value@,
            r matches Err(e) ==> e.reason@ == id_rejection_reason("JobId"@, value@),
    {
        match check_id_text("JobId", value) {
            Ok(()) => Ok(JobId(value.to_owned())),
            Err(e) => Err(e),
        }
    }

    /// The wire value.
    pub fn as_str(&self) -> (s: &str)
        ensures
            s@ == self@,
    {
        self.0.as_str()
    }

    /// Returns `true` when both IDs hold the same text.
    pub fn same_as(&self, other: &Self) -> (r: bool)
        ensures
            r == (self@ == other@),
    {
        self.0 == other.0
    }
}

impl Clone for JobId {
    fn clone(&self) -> (r: Self)
        ensures
            r@ == self@,
    {
        proof {
            use_type_invariant(self);
        }
        JobId(self.0.clone())
    }
}

impl FromStr for JobId {
    type Err = IdError;

    fn from_str(s: &str) -> (r: Result<Self, Self::Err>)
        ensures
            r is Ok <==> is_valid_id_text(s@),
            r matches Ok(id) ==> id@ == s@,
            r matches Err(e) ==> e.reason@ == id_rejection_reason("JobId"@, s@),
    {
        Self::new(s)
    }
}

impl AsRef<str> for JobId {
    fn as_ref(&self) -> (r: &str)
        ensures
            r@ == self@,
    {
        self.as_str()
    }
}

/// Unique identifier for a scheduled task.
#[derive(Debug, PartialEq, Eq, Hash)]
pub struct TaskId(String);

impl View for TaskId {
    type V = Seq<char>;

    closed spec fn view(&self) -> Seq<char> {
        self.0@
    }
}

impl TaskId {
    #[verifier::type_invariant]
    pub open spec fn wf(self) -> bool {
        is_valid_id_text(self@)
    }

    /// Create a validated ID, rejecting blank values and values longer than
    /// 128 characters.
    pub fn new(value: &str) -> (r: Result<Self, IdError>)
        ensures
            r is Ok <==> is_valid_id_text(value@),
            r matches Ok(id) ==> id@ == value@,
            r matches Err(e) ==> e.reason@ == id_rejection_reason("TaskId"@, value@),
    {
        match check_id_text("TaskId", value) {
            Ok(()) => Ok(TaskId(value.to_owned())),
            Err(e) => Err(e),
        }
    }

    /// The wire value.
    pub fn as_str(&self) -> (s: &str)
        ensures
            s@ == self@,
    {
        self.0.as_str()
    }

    /// Returns `true` when both IDs hold the same text.
    pub fn same_as(&self, other: &Self) -> (r: bool)
        ensures
            r == (self@ == other@),
    {
        self.0 == other.0
    }
}

impl Clone for TaskId {
    fn clone(&self) -> (r: Self)
        ensures
            r@ == self@,
    {
        proof {
            use_type_invariant(self);
        }
        TaskId(self.0.clone())
    }
}

impl FromStr for TaskId {
    type Err = IdError;

    fn from_str(s: &str) -> (r: Result<Self, Self::Err>)
        ensures
            r is Ok <==> is_valid_id_text(s@),
            r matches Ok(id) ==> id@ == s@,
            r matches Err(e) ==> e.reason@ == id_rejection_reason("TaskId"@, s@),
    {
        Self::new(s)
    }
}

impl AsRef<str> for TaskId {
    fn as_ref(&self) -> (r: &str)
        ensures
            r@ == self@,
    {
        self.as_str()
    }
}

/// Unique identifier for a Tanren dispatch.
#[derive(Debug, PartialEq, Eq, Hash)]
pub struct DispatchId(String);

impl View for DispatchId {
    type V = Seq<char>;

    closed spec fn view(&self) -> Seq<char> {
        self.0@
    }
}

impl DispatchId {
    #[verifier::type_invariant]
    pub open spec fn wf(self) -> bool {
        is_valid_id_text(self@)
    }

    /// Create a validated ID, rejecting blank values and values longer than
    /// 128 characters.
    pub fn new(value: &str) -> (r: Result<Self, IdError>)
        ensures
            r is Ok <==> is_valid_id_text(value@),
            r matches Ok(id) ==> id@ == value@,
            r matches Err(e) ==> e.reason@ == id_rejection_reason("DispatchId"@, value@),
    {
        match check_id_text("DispatchId", value) {
            Ok(()) => Ok(DispatchId(value.to_owned())),
            Err(e) => Err(e),
        }
    }

    /// The wire value.
    pub fn as_str(&self) -> (s: &str)
        ensures
            s@ == self@,
    {
        self.0.as_str()
    }

    /// Returns `true` when both IDs hold the same text.
    pub fn same_as(&self, other: &Self) -> (r: bool)
        ensures
            r == (self@ == other@),
    {
        self.0 == other.0
    }
}

impl Clone for DispatchId {
    fn clone(&self) -> (r: Self)
        ensures
            r@ == self@,
    {
        proof {
            use_type_invariant(self);
        }
        DispatchId(self.0.clone())
    }
}

impl FromStr for DispatchId {
    type Err = IdError;

    fn from_str(s: &str) -> (r: Result<Self, Self::Err>)
        ensures
            r is Ok <==> is_valid_id_text(s@),
            r matches Ok(id) ==> id@ == s@,
            r matches Err(e) ==> e.reason@ == id_rejection_reason("DispatchId"@, s@),
    {
        Self::new(s)
    }
}

impl AsRef<str> for DispatchId {
    fn as_ref(&self) -> (r: &str)
        ensures
            r@ == self@,
    {
        self.as_str()
    }
}

/// Unique identifier for a budget pool.
#[derive(Debug, PartialEq, Eq, Hash)]
pub struct PoolId(String);

impl View for PoolId {
    type V = Seq<char>;

    closed spec fn view(&self) -> Seq<char> {
        self.0@
    }
}

impl PoolId {
    #[verifier::type_invariant]
    pub open spec fn wf(self) -> bool {
        is_valid_id_text(self@)
    }

    /// Create a validated ID, rejecting blank values and values longer than
    /// 128 characters.
    pub fn new(value: &str) -> (r: Result<Self, IdError>)
        ensures
            r is Ok <==> is_valid_id_text(value@),
            r matches Ok(id) ==> id@ == value@,
            r matches Err(e) ==> e.reason@ == id_rejection_reason("PoolId"@, value@),
    {
        match check_id_text("PoolId", value) {
            Ok(()) => Ok(PoolId(value.to_owned())),
            Err(e) => Err(e),
        }
    }

    /// The wire value.
    pub fn as_str(&self) -> (s: &str)
        ensures
            s@ == self@,
    {
        self.0.as_str()
    }

    /// Returns `true` when both IDs hold the same text.
    pub fn same_as(&self, other: &Self) -> (r: bool)
        ensures
            r == (self@ == other@),
    {
        self.0 == other.0
    }
}

impl Clone for PoolId {
    fn clone(&self) -> (r: Self)
        ensures
            r@ == self@,
    {
        proof {
            use_type_invariant(self);
        }
        PoolId(self.0.clone())
    }
}

impl FromStr for PoolId {
    type Err = IdError;

    fn from_str(s: &str) -> (r: Result<Self, Self::Err>)
        ensures
            r is Ok <==> is_valid_id_text(s@),
            r matches Ok(id) ==> id@ == s@,
            r matches Err(e) ==> e.reason@ == id_rejection_reason("PoolId"@, s@),
    {
        Self::new(s)
    }
}

impl AsRef<str> for PoolId {
    fn as_ref(&self) -> (r: &str)
        ensures
            r@ == self@,
    {
        self.as_str()
    }
}

} // verus!
