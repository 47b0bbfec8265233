//! Length-bounded (and, for two of them, format-checked) wire text types.
//!
//! Every type holds a `String` of at most its `MAX_LEN` Unicode scalar
//! values. `ProtocolVersionText` additionally requires `<major>.<minor>`
//! and `BranchName` rejects obviously malformed git refs. Each invariant is
//! established by `new` and carried by the type.

use std::str::FromStr;

use crate::ipc::limits::{
    MAX_IDENTIFIER_TEXT_CHARS, MAX_LIST_ITEM_TEXT_CHARS, MAX_MESSAGE_TEXT_CHARS,
    MAX_MODEL_TEXT_CHARS, MAX_OUTPUT_DELTA_TEXT_CHARS, MAX_OUTPUT_RESULT_TEXT_CHARS,
    MAX_PROMPT_TEXT_CHARS, MAX_SCHEDULE_VALUE_TEXT_CHARS, MAX_SESSION_ID_TEXT_CHARS,
    MAX_SHORT_TEXT_CHARS, MAX_TOKEN_TEXT_CHARS,
};
use crate::ipc::version::{is_version_text, parse_version_text};
use crate::text::{
    char_count, chars_of, decimal_seq, is_unicode_whitespace, is_whitespace_char, push_decimal,
    push_str,
};
use vstd::prelude::*;

verus! {

/// Error returned when a bounded text value fails validation.
#[derive(Debug, Clone, PartialEq, Eq)]
pub enum BoundedTextError {
    /// The value exceeded the maximum allowed Unicode scalar length.
    Length {
        /// Maximum allowed character length.
        max: usize,
        /// Actual character length seen.
        actual: usize,
    },
    /// The value failed a format-specific validator layered on top of the
    /// length check.
    Format {
        /// Static reason describing why the format check failed.
        reason: &'static str,
    },
}

/// The display text of a [`BoundedTextError`].
pub open spec fn bounded_text_error_text(e: BoundedTextError) -> Seq<char> {
    match e {
        BoundedTextError::Length { max, actual } => "text length "@ + decimal_seq(actual as nat)
            + " exceeds maximum "@ + decimal_seq(max as nat),
        BoundedTextError::Format { reason } => "invalid format: "@ + reason@,
    }
}

impl BoundedTextError {
    /// The display text of this error.
    pub fn message(&self) -> (s: String)
        ensures
            s@ == bounded_text_error_text(*self),
    {
        let mut s = String::new();
        match self {
            BoundedTextError::Length { max, actual } => {
                push_str(&mut s, "text length ");
                push_decimal(&mut s, *actual as u64);
                push_str(&mut s, " exceeds maximum ");
                push_decimal(&mut s, *max as u64);
            },
            BoundedTextError::Format { reason } => {
                push_str(&mut s, "invalid format: ");
                push_str(&mut s, reason);
            },
        }
        s
    }
}

/// The format rule a bounded text type layers on top of its length bound.
pub enum TextFormat {
    /// Length only.
    Plain,
    /// `<major>.<minor>`.
    ProtocolVersion,
    /// Advisory git branch name rules.
    BranchName,
}

/// An ASCII control character (`U+0000..=U+001F` or `U+007F`).
pub open spec fn is_ascii_control(c: char) -> bool {
    (c as u32) < 0x20 || (c as u32) == 0x7F
}

/// `s` has `a` immediately followed by `b` somewhere.
pub open spec fn has_adjacent(s: Seq<char>, a: char, b: char) -> bool {
    exists|i: int| 0 <= i && i + 1 < s.len() && #[trigger] s[i] == a && s[i + 1] == b
}

/// Why `s` is not an acceptable branch name, if it is not.
pub open spec fn branch_name_violation(s: Seq<char>) -> Option<Seq<char>> {
    if s.len() == 0 {
        Some("branch name must not be empty"@)
    } else if s[0] == '/' || s[s.len() - 1] == '/' {
        Some("branch name must not begin or end with `/`"@)
    } else if has_adjacent(s, '/', '/') {
        Some("branch name must not contain consecutive `/` segments"@)
    } else if has_adjacent(s, '.', '.') {
        Some("branch name must not contain `..`"@)
    } else if exists|i: int|
        0 <= i < s.len() && (is_ascii_control(#[trigger] s[i]) || is_unicode_whitespace(s[i])) {
        Some("branch name must not contain whitespace or ASCII control characters"@)
    } else {
        None
    }
}

/// Why `s` violates format rule `rule`, if it does.
pub open spec fn format_violation(rule: TextFormat, s: Seq<char>) -> Option<Seq<char>> {
    match rule {
        TextFormat::Plain => None,
        TextFormat::ProtocolVersion => if is_version_text(s) {
            None
        } else {
            Some("protocol version must match `<major>.<minor>` with non-negative integers"@)
        },
        TextFormat::BranchName => branch_name_violation(s),
    }
}

/// `s` is acceptable for a bounded text type with bound `max` and rule `rule`.
pub open spec fn bounded_text_ok(s: Seq<char>, max: nat, rule: TextFormat) -> bool {
    s.len() <= max && format_violation(rule, s) is None
}

/// `e` is the error reported when `s` is rejected under `max` and `rule`:
/// the length error when too long, else the format error.
pub open spec fn bounded_text_rejection(
    e: BoundedTextError,
    s: Seq<char>,
    max: nat,
    rule: TextFormat,
) -> bool {
    if s.len() > max {
        e matches BoundedTextError::Length { max: m, actual: a } && m == max && a == s.len()
    } else {
        match format_violation(rule, s) {
            Some(reason) => e matches BoundedTextError::Format { reason: r } && r@ == reason,
            None => false,
        }
    }
}

/// Format validator for `ProtocolVersionText`: the handshake's own
/// version parser decides.
pub fn validate_protocol_version_text(value: &str) -> (r: Result<(), BoundedTextError>)
    ensures
        r is Ok <==> format_violation(TextFormat::ProtocolVersion, value@) is None,
        r matches Err(e) ==> (e matches BoundedTextError::Format { reason } && Some(reason@)
            == format_violation(TextFormat::ProtocolVersion, value@)),
{
    match parse_version_text(value) {
        Some(_) => Ok(()),
        None => Err(
            BoundedTextError::Format {
                reason: "protocol version must match `<major>.<minor>` with non-negative integers",
            },
        ),
    }
}

/// Advisory format validator for `BranchName`.
pub fn validate_branch_name(value: &str) -> (r: Result<(), BoundedTextError>)
    ensures
        r is Ok <==> branch_name_violation(value@) is None,
        r matches Err(e) ==> (e matches BoundedTextError::Format { reason } && Some(reason@)
            == branch_name_violation(value@)),
{
    let cs = chars_of(value);
    let n = cs.len();
    if n == 0 {
        return Err(BoundedTextError::Format { reason: "branch name must not be empty" });
    }
    if cs[0] == '/' || cs[n - 1] == '/' {
        return Err(
            BoundedTextError::Format { reason: "branch name must not begin or end with `/`" },
        );
    }
    let mut i: usize = 0;
    while i + 1 < n
        invariant
            cs@ == value@,
            n == cs@.len(),
            i < n,
            value@[0] != '/' && value@[n - 1] != '/',
            forall|k: int| 0 <= k < i && k + 1 < n ==> !(#[trigger] cs@[k] == '/' && cs@[k + 1] == '/'),
        decreases n - i,
    {
        if cs[i] == '/' && cs[i + 1] == '/' {
            assert(has_adjacent(value@, '/', '/'));
            return Err(
                BoundedTextError::Format {
                    reason: "branch name must not contain consecutive `/` segments",
                },
            );
        }
        i = i + 1;
    }
    let mut i: usize = 0;
    while i + 1 < n
        invariant
            cs@ == value@,
            n == cs@.len(),
            i < n,
            value@[0] != '/' && value@[n - 1] != '/',
            !has_adjacent(value@, '/', '/'),
            forall|k: int| 0 <= k < i && k + 1 < n ==> !(#[trigger] cs@[k] == '.' && cs@[k + 1] == '.'),
        decreases n - i,
    {
        if cs[i] == '.' && cs[i + 1] == '.' {
            assert(has_adjacent(value@, '.', '.'));
            return Err(BoundedTextError::Format { reason: "branch name must not contain `..`" });
        }
        i = i + 1;
    }
    let mut i: usize = 0;
    while i < n
        invariant
            cs@ == value@,
            n == cs@.len(),
            n > 0,
            value@[0] != '/' && value@[n - 1] != '/',
            !has_adjacent(value@, '/', '/'),
            !has_adjacent(value@, '.', '.'),
            forall|k: int|
                0 <= k < i ==> !(is_ascii_control(#[trigger] cs@[k]) || is_unicode_whitespace(
                    cs@[k],
                )),
        decreases n - i,
    {
        let c = cs[i];
        let v = c as u32;
        if v < 0x20 || v == 0x7F || is_whitespace_char(c) {
            assert(is_ascii_control(cs@[i as int]) || is_unicode_whitespace(cs@[i as int]));
            return Err(
                BoundedTextError::Format {
                    reason: "branch name must not contain whitespace or ASCII control characters",
                },
            );
        }
        i = i + 1;
    }
    Ok(())
}

fn check_bounded_text(value: &str, max: usize, rule: &TextFormat) -> (r: Result<
    (),
    BoundedTextError,
>)
    ensures
        r is Ok <==> bounded_text_ok(value@, max as nat, *rule),
        r matches Err(e) ==> bounded_text_rejection(e, value@, max as nat, *rule),
{
    let actual = char_count(value);
    if actual > max {
        return Err(BoundedTextError::Length { max, actual });
    }
    match rule {
        TextFormat::Plain => Ok(()),
        TextFormat::ProtocolVersion => validate_protocol_version_text(value),
        TextFormat::BranchName => validate_branch_name(value),
    }
}

/// Adapter name identifying an agent runtime (e.g. `agent-runner`).
#[derive(Debug, PartialEq, Eq, Hash)]
pub struct AdapterName(String);

impl View for AdapterName {
    type V = Seq<char>;

    closed spec fn view(&self) -> Seq<char> {
        self.0@
    }
}

impl AdapterName {
    /// Maximum allowed length in Unicode scalar values.
    pub const MAX_LEN: usize = MAX_IDENTIFIER_TEXT_CHARS;

    /// The invariant every value carries: within bound and format.
    #[verifier::type_invariant]
    pub open spec fn wf(self) -> bool {
        bounded_text_ok(self@, MAX_IDENTIFIER_TEXT_CHARS as nat, TextFormat::Plain)
    }

    /// Construct a validated text value.
    pub fn new(value: &str) -> (r: Result<Self, BoundedTextError>)
        ensures
            r is Ok <==> bounded_text_ok(value@, MAX_IDENTIFIER_TEXT_CHARS as nat, TextFormat::Plain),
            r matches Ok(t) ==> t@ == value@,
            r matches Err(e) ==> bounded_text_rejection(e, value@, MAX_IDENTIFIER_TEXT_CHARS as nat, TextFormat::Plain),
    {
        match check_bounded_text(value, MAX_IDENTIFIER_TEXT_CHARS, &TextFormat::Plain) {
            Ok(()) => Ok(AdapterName(value.to_owned())),
            Err(e) => Err(e),
        }
    }

    /// Access the wire value.
    pub fn as_str(&self) -> (s: &str)
        ensures
            s@ == self@,
    {
        self.0.as_str()
    }

    /// Consume and return the owned string.
    pub fn into_string(self) -> (s: String)
        ensures
            s@ == self@,
    {
        self.0
    }
}

impl Clone for AdapterName {
    fn clone(&self) -> (r: Self)
        ensures
            r@ == self@,
    {
        proof {
            use_type_invariant(self);
        }
        AdapterName(self.0.clone())
    }
}

impl FromStr for AdapterName {
    type Err = BoundedTextError;

    fn from_str(s: &str) -> (r: Result<Self, Self::Err>)
        ensures
            r is Ok <==> bounded_text_ok(s@, MAX_IDENTIFIER_TEXT_CHARS as nat, TextFormat::Plain),
            r matches Ok(t) ==> t@ == s@,
            r matches Err(e) ==> bounded_text_rejection(e, s@, MAX_IDENTIFIER_TEXT_CHARS as nat, TextFormat::Plain),
    {
        Self::new(s)
    }
}

impl AsRef<str> for AdapterName {
    fn as_ref(&self) -> (r: &str)
        ensures
            r@ == self@,
    {
        self.as_str()
    }
}

/// Adapter implementation version string (opaque to the protocol).
#[derive(Debug, PartialEq, Eq, Hash)]
pub struct AdapterVersion(String);

impl View for AdapterVersion {
    type V = Seq<char>;

    closed spec fn view(&self) -> Seq<char> {
        self.0@
    }
}

impl AdapterVersion {
    /// Maximum allowed length in Unicode scalar values.
    pub const MAX_LEN: usize = MAX_IDENTIFIER_TEXT_CHARS;

    /// The invariant every value carries: within bound and format.
    #[verifier::type_invariant]
    pub open spec fn wf(self) -> bool {
        bounded_text_ok(self@, MAX_IDENTIFIER_TEXT_CHARS as nat, TextFormat::Plain)
    }

    /// Construct a validated text value.
    pub fn new(value: &str) -> (r: Result<Self, BoundedTextError>)
        ensures
            r is Ok <==> bounded_text_ok(value@, MAX_IDENTIFIER_TEXT_CHARS as nat, TextFormat::Plain),
            r matches Ok(t) ==> t@ == value@,
            r matches Err(e) ==> bounded_text_rejection(e, value@, MAX_IDENTIFIER_TEXT_CHARS as nat, TextFormat::Plain),
    {
        match check_bounded_text(value, MAX_IDENTIFIER_TEXT_CHARS, &TextFormat::Plain) {
            Ok(()) => Ok(AdapterVersion(value.to_owned())),
            Err(e) => Err(e),
        }
    }

    /// Access the wire value.
    pub fn as_str(&self) -> (s: &str)
        ensures
            s@ == self@,
    {
        self.0.as_str()
    }

    /// Consume and return the owned string.
    pub fn into_string(self) -> (s: String)
        ensures
            s@ == self@,
    {
        self.0
    }
}

impl Clone for AdapterVersion {
    fn clone(&self) -> (r: Self)
        ensures
            r@ == self@,
    {
        proof {
            use_type_invariant(self);
        }
        AdapterVersion(self.0.clone())
    }
}

impl FromStr for AdapterVersion {
    type Err = BoundedTextError;

    fn from_str(s: &str) -> (r: Result<Self, Self::Err>)
        ensures
            r is Ok <==> bounded_text_ok(s@, MAX_IDENTIFIER_TEXT_CHARS as nat, TextFormat::Plain),
            r matches Ok(t) ==> t@ == s@,
            r matches Err(e) ==> bounded_text_rejection(e, s@, MAX_IDENTIFIER_TEXT_CHARS as nat, TextFormat::Plain),
    {
        Self::new(s)
    }
}

impl AsRef<str> for AdapterVersion {
    fn as_ref(&self) -> (r: &str)
        ensures
            r@ == self@,
    {
        self.as_str()
    }
}

/// IPC protocol version advertised by an adapter at handshake time, in
/// `<major>.<minor>` form with both parts non-negative integers.
#[derive(Debug, PartialEq, Eq, Hash)]
pub struct ProtocolVersionText(String);

impl View for ProtocolVersionText {
    type V = Seq<char>;

    closed spec fn view(&self) -> Seq<char> {
        self.0@
    }
}

impl ProtocolVersionText {
    /// Maximum allowed length in Unicode scalar values.
    pub const MAX_LEN: usize = MAX_IDENTIFIER_TEXT_CHARS;

    /// The invariant every value carries: within bound and format.
    #[verifier::type_invariant]
    pub open spec fn wf(self) -> bool {
        bounded_text_ok(self@, MAX_IDENTIFIER_TEXT_CHARS as nat, TextFormat::ProtocolVersion)
    }

    /// Construct a validated text value.
    pub fn new(value: &str) -> (r: Result<Self, BoundedTextError>)
        ensures
            r is Ok <==> bounded_text_ok(value@, MAX_IDENTIFIER_TEXT_CHARS as nat, TextFormat::ProtocolVersion),
            r matches Ok(t) ==> t@ == value@,
            r matches Err(e) ==> bounded_text_rejection(e, value@, MAX_IDENTIFIER_TEXT_CHARS as nat, TextFormat::ProtocolVersion),
    {
        match check_bounded_text(value, MAX_IDENTIFIER_TEXT_CHARS, &TextFormat::ProtocolVersion) {
            Ok(()) => Ok(ProtocolVersionText(value.to_owned())),
            Err(e) => Err(e),
        }
    }

    /// Access the wire value.
    pub fn as_str(&self) -> (s: &str)
        ensures
            s@ == self@,
    {
        self.0.as_str()
    }

    /// Consume and return the owned string.
    pub fn into_string(self) -> (s: String)
        ensures
            s@ == self@,
    {
        self.0
    }
}

impl Clone for ProtocolVersionText {
    fn clone(&self) -> (r: Self)
        ensures
            r@ == self@,
    {
        proof {
            use_type_invariant(self);
        }
        ProtocolVersionText(self.0.clone())
    }
}

impl FromStr for ProtocolVersionText {
    type Err = BoundedTextError;

    fn from_str(s: &str) -> (r: Result<Self, Self::Err>)
        ensures
            r is Ok <==> bounded_text_ok(s@, MAX_IDENTIFIER_TEXT_CHARS as nat, TextFormat::ProtocolVersion),
            r matches Ok(t) ==> t@ == s@,
            r matches Err(e) ==> bounded_text_rejection(e, s@, MAX_IDENTIFIER_TEXT_CHARS as nat, TextFormat::ProtocolVersion),
    {
        Self::new(s)
    }
}

impl AsRef<str> for ProtocolVersionText {
    fn as_ref(&self) -> (r: &str)
        ensures
            r@ == self@,
    {
        self.as_str()
    }
}

/// Logical stage name emitted on progress updates.
#[derive(Debug, PartialEq, Eq, Hash)]
pub struct StageName(String);

impl View for StageName {
    type V = Seq<char>;

    closed spec fn view(&self) -> Seq<char> {
        self.0@
    }
}

impl StageName {
    /// Maximum allowed length in Unicode scalar values.
    pub const MAX_LEN: usize = MAX_IDENTIFIER_TEXT_CHARS;

    /// The invariant every value carries: within bound and format.
    #[verifier::type_invariant]
    pub open spec fn wf(self) -> bool {
        bounded_text_ok(self@, MAX_IDENTIFIER_TEXT_CHARS as nat, TextFormat::Plain)
    }

    /// Construct a validated text value.
    pub fn new(value: &str) -> (r: Result<Self, BoundedTextError>)
        ensures
            r is Ok <==> bounded_text_ok(value@, MAX_IDENTIFIER_TEXT_CHARS as nat, TextFormat::Plain),
            r matches Ok(t) ==> t@ == value@,
            r matches Err(e) ==> bounded_text_rejection(e, value@, MAX_IDENTIFIER_TEXT_CHARS as nat, TextFormat::Plain),
    {
        match check_bounded_text(value, MAX_IDENTIFIER_TEXT_CHARS, &TextFormat::Plain) {
            Ok(()) => Ok(StageName(value.to_owned())),
            Err(e) => Err(e),
        }
    }

    /// Access the wire value.
    pub fn as_str(&self) -> (s: &str)
        ensures
            s@ == self@,
    {
        self.0.as_str()
    }

    /// Consume and return the owned string.
    pub fn into_string(self) -> (s: String)
        ensures
            s@ == self@,
    {
        self.0
    }
}

impl Clone for StageName {
    fn clone(&self) -> (r: Self)
        ensures
            r@ == self@,
    {
        proof {
            use_type_invariant(self);
        }
        StageName(self.0.clone())
    }
}

impl FromStr for StageName {
    type Err = BoundedTextError;

    fn from_str(s: &str) -> (r: Result<Self, Self::Err>)
        ensures
            r is Ok <==> bounded_text_ok(s@, MAX_IDENTIFIER_TEXT_CHARS as nat, TextFormat::Plain),
            r matches Ok(t) ==> t@ == s@,
            r matches Err(e) ==> bounded_text_rejection(e, s@, MAX_IDENTIFIER_TEXT_CHARS as nat, TextFormat::Plain),
    {
        Self::new(s)
    }
}

impl AsRef<str> for StageName {
    fn as_ref(&self) -> (r: &str)
        ensures
            r@ == self@,
    {
        self.as_str()
    }
}

/// Display name of the author of a historical message.
#[derive(Debug, PartialEq, Eq, Hash)]
pub struct SenderName(String);

impl View for SenderName {
    type V = Seq<char>;

    closed spec fn view(&self) -> Seq<char> {
        self.0@
    }
}

impl SenderName {
    /// Maximum allowed length in Unicode scalar values.
    pub const MAX_LEN: usize = MAX_IDENTIFIER_TEXT_CHARS;

    /// The invariant every value carries: within bound and format.
    #[verifier::type_invariant]
    pub open spec fn wf(self) -> bool {
        bounded_text_ok(self@, MAX_IDENTIFIER_TEXT_CHARS as nat, TextFormat::Plain)
    }

    /// Construct a validated text value.
    pub fn new(value: &str) -> (r: Result<Self, BoundedTextError>)
        ensures
            r is Ok <==> bounded_text_ok(value@, MAX_IDENTIFIER_TEXT_CHARS as nat, TextFormat::Plain),
            r matches Ok(t) ==> t@ == value@,
            r matches Err(e) ==> bounded_text_rejection(e, value@, MAX_IDENTIFIER_TEXT_CHARS as nat, TextFormat::Plain),
    {
        match check_bounded_text(value, MAX_IDENTIFIER_TEXT_CHARS, &TextFormat::Plain) {
            Ok(()) => Ok(SenderName(value.to_owned())),
            Err(e) => Err(e),
        }
    }

    /// Access the wire value.
    pub fn as_str(&self) -> (s: &str)
        ensures
            s@ == self@,
    {
        self.0.as_str()
    }

    /// Consume and return the owned string.
    pub fn into_string(self) -> (s: String)
        ensures
            s@ == self@,
    {
        self.0
    }
}

impl Clone for SenderName {
    fn clone(&self) -> (r: Self)
        ensures
            r@ == self@,
    {
        proof {
            use_type_invariant(self);
        }
        SenderName(self.0.clone())
    }
}

impl FromStr for SenderName {
    type Err = BoundedTextError;

    fn from_str(s: &str) -> (r: Result<Self, Self::Err>)
        ensures
            r is Ok <==> bounded_text_ok(s@, MAX_IDENTIFIER_TEXT_CHARS as nat, TextFormat::Plain),
            r matches Ok(t) ==> t@ == s@,
            r matches Err(e) ==> bounded_text_rejection(e, s@, MAX_IDENTIFIER_TEXT_CHARS as nat, TextFormat::Plain),
    {
        Self::new(s)
    }
}

impl AsRef<str> for SenderName {
    fn as_ref(&self) -> (r: &str)
        ensures
            r@ == self@,
    {
        self.as_str()
    }
}

/// Human-readable group name bound to a session identity.
#[derive(Debug, PartialEq, Eq, Hash)]
pub struct GroupName(String);

impl View for GroupName {
    type V = Seq<char>;

    closed spec fn view(&self) -> Seq<char> {
        self.0@
    }
}

impl GroupName {
    /// Maximum allowed length in Unicode scalar values.
    pub const MAX_LEN: usize = MAX_IDENTIFIER_TEXT_CHARS;

    /// The invariant every value carries: within bound and format.
    #[verifier::type_invariant]
    pub open spec fn wf(self) -> bool {
        bounded_text_ok(self@, MAX_IDENTIFIER_TEXT_CHARS as nat, TextFormat::Plain)
    }

    /// Construct a validated text value.
    pub fn new(value: &str) -> (r: Result<Self, BoundedTextError>)
        ensures
            r is Ok <==> bounded_text_ok(value@, MAX_IDENTIFIER_TEXT_CHARS as nat, TextFormat::Plain),
            r matches Ok(t) ==> t@ == value@,
            r matches Err(e) ==> bounded_text_rejection(e, value@, MAX_IDENTIFIER_TEXT_CHARS as nat, TextFormat::Plain),
    {
        match check_bounded_text(value, MAX_IDENTIFIER_TEXT_CHARS, &TextFormat::Plain) {
            Ok(()) => Ok(GroupName(value.to_owned())),
            Err(e) => Err(e),
        }
    }

    /// Access the wire value.
    pub fn as_str(&self) -> (s: &str)
        ensures
            s@ == self@,
    {
        self.0.as_str()
    }

    /// Consume and return the owned string.
    pub fn into_string(self) -> (s: String)
        ensures
            s@ == self@,
    {
        self.0
    }
}

impl Clone for GroupName {
    fn clone(&self) -> (r: Self)
        ensures
            r@ == self@,
    {
        proof {
            use_type_invariant(self);
        }
        GroupName(self.0.clone())
    }
}

impl FromStr for GroupName {
    type Err = BoundedTextError;

    fn from_str(s: &str) -> (r: Result<Self, Self::Err>)
        ensures
            r is Ok <==> bounded_text_ok(s@, MAX_IDENTIFIER_TEXT_CHARS as nat, TextFormat::Plain),
            r matches Ok(t) ==> t@ == s@,
            r matches Err(e) ==> bounded_text_rejection(e, s@, MAX_IDENTIFIER_TEXT_CHARS as nat, TextFormat::Plain),
    {
        Self::new(s)
    }
}

impl AsRef<str> for GroupName {
    fn as_ref(&self) -> (r: &str)
        ensures
            r@ == self@,
    {
        self.as_str()
    }
}

/// Target project name for a Tanren dispatch.
#[derive(Debug, PartialEq, Eq, Hash)]
pub struct ProjectName(String);

impl View for ProjectName {
    type V = Seq<char>;

    closed spec fn view(&self) -> Seq<char> {
        self.0@
    }
}

impl ProjectName {
    /// Maximum allowed length in Unicode scalar values.
    pub const MAX_LEN: usize = MAX_IDENTIFIER_TEXT_CHARS;

    /// The invariant every value carries: within bound and format.
    #[verifier::type_invariant]
    pub open spec fn wf(self) -> bool {
        bounded_text_ok(self@, MAX_IDENTIFIER_TEXT_CHARS as nat, TextFormat::Plain)
    }

    /// Construct a validated text value.
    pub fn new(value: &str) -> (r: Result<Self, BoundedTextError>)
        ensures
            r is Ok <==> bounded_text_ok(value@, MAX_IDENTIFIER_TEXT_CHARS as nat, TextFormat::Plain),
            r matches Ok(t) ==> t@ == value@,
            r matches Err(e) ==> bounded_text_rejection(e, value@, MAX_IDENTIFIER_TEXT_CHARS as nat, TextFormat::Plain),
    {
        match check_bounded_text(value, MAX_IDENTIFIER_TEXT_CHARS, &TextFormat::Plain) {
            Ok(()) => Ok(ProjectName(value.to_owned())),
            Err(e) => Err(e),
        }
    }

    /// Access the wire value.
    pub fn as_str(&self) -> (s: &str)
        ensures
            s@ == self@,
    {
        self.0.as_str()
    }

    /// Consume and return the owned string.
    pub fn into_string(self) -> (s: String)
        ensures
            s@ == self@,
    {
        self.0
    }
}

impl Clone for ProjectName {
    fn clone(&self) -> (r: Self)
        ensures
            r@ == self@,
    {
        proof {
            use_type_invariant(self);
        }
        ProjectName(self.0.clone())
    }
}

impl FromStr for ProjectName {
    type Err = BoundedTextError;

    fn from_str(s: &str) -> (r: Result<Self, Self::Err>)
        ensures
            r is Ok <==> bounded_text_ok(s@, MAX_IDENTIFIER_TEXT_CHARS as nat, TextFormat::Plain),
            r matches Ok(t) ==> t@ == s@,
            r matches Err(e) ==> bounded_text_rejection(e, s@, MAX_IDENTIFIER_TEXT_CHARS as nat, TextFormat::Plain),
    {
        Self::new(s)
    }
}

impl AsRef<str> for ProjectName {
    fn as_ref(&self) -> (r: &str)
        ensures
            r@ == self@,
    {
        self.as_str()
    }
}

/// Git branch name for a Tanren dispatch. An advisory format check
/// rejects obviously malformed refs (empty, whitespace, control
/// characters, leading/trailing `/`, consecutive `/`, `..`).
#[derive(Debug, PartialEq, Eq, Hash)]
pub struct BranchName(String);

impl View for BranchName {
    type V = Seq<char>;

    closed spec fn view(&self) -> Seq<char> {
        self.0@
    }
}

impl BranchName {
    /// Maximum allowed length in Unicode scalar values.
    pub const MAX_LEN: usize = MAX_IDENTIFIER_TEXT_CHARS;

    /// The invariant every value carries: within bound and format.
    #[verifier::type_invariant]
    pub open spec fn wf(self) -> bool {
        bounded_text_ok(self@, MAX_IDENTIFIER_TEXT_CHARS as nat, TextFormat::BranchName)
    }

    /// Construct a validated text value.
    pub fn new(value: &str) -> (r: Result<Self, BoundedTextError>)
        ensures
            r is Ok <==> bounded_text_ok(value@, MAX_IDENTIFIER_TEXT_CHARS as nat, TextFormat::BranchName),
            r matches Ok(t) ==> t@ == value@,
            r matches Err(e) ==> bounded_text_rejection(e, value@, MAX_IDENTIFIER_TEXT_CHARS as nat, TextFormat::BranchName),
    {
        match check_bounded_text(value, MAX_IDENTIFIER_TEXT_CHARS, &TextFormat::BranchName) {
            Ok(()) => Ok(BranchName(value.to_owned())),
            Err(e) => Err(e),
        }
    }

    /// Access the wire value.
    pub fn as_str(&self) -> (s: &str)
        ensures
            s@ == self@,
    {
        self.0.as_str()
    }

    /// Consume and return the owned string.
    pub fn into_string(self) -> (s: String)
        ensures
            s@ == self@,
    {
        self.0
    }
}

impl Clone for BranchName {
    fn clone(&self) -> (r: Self)
        ensures
            r@ == self@,
    {
        proof {
            use_type_invariant(self);
        }
        BranchName(self.0.clone())
    }
}

impl FromStr for BranchName {
    type Err = BoundedTextError;

    fn from_str(s: &str) -> (r: Result<Self, Self::Err>)
        ensures
            r is Ok <==> bounded_text_ok(s@, MAX_IDENTIFIER_TEXT_CHARS as nat, TextFormat::BranchName),
            r matches Ok(t) ==> t@ == s@,
            r matches Err(e) ==> bounded_text_rejection(e, s@, MAX_IDENTIFIER_TEXT_CHARS as nat, TextFormat::BranchName),
    {
        Self::new(s)
    }
}

impl AsRef<str> for BranchName {
    fn as_ref(&self) -> (r: &str)
        ensures
            r@ == self@,
    {
        self.as_str()
    }
}

/// Optional context mode override for scheduled tasks.
#[derive(Debug, PartialEq, Eq, Hash)]
pub struct ContextModeText(String);

impl View for ContextModeText {
    type V = Seq<char>;

    closed spec fn view(&self) -> Seq<char> {
        self.0@
    }
}

impl ContextModeText {
    /// Maximum allowed length in Unicode scalar values.
    pub const MAX_LEN: usize = MAX_IDENTIFIER_TEXT_CHARS;

    /// The invariant every value carries: within bound and format.
    #[verifier::type_invariant]
    pub open spec fn wf(self) -> bool {
        bounded_text_ok(self@, MAX_IDENTIFIER_TEXT_CHARS as nat, TextFormat::Plain)
    }

    /// Construct a validated text value.
    pub fn new(value: &str) -> (r: Result<Self, BoundedTextError>)
        ensures
            r is Ok <==> bounded_text_ok(value@, MAX_IDENTIFIER_TEXT_CHARS as nat, TextFormat::Plain),
            r matches Ok(t) ==> t@ == value@,
            r matches Err(e) ==> bounded_text_rejection(e, value@, MAX_IDENTIFIER_TEXT_CHARS as nat, TextFormat::Plain),
    {
        match check_bounded_text(value, MAX_IDENTIFIER_TEXT_CHARS, &TextFormat::Plain) {
            Ok(()) => Ok(ContextModeText(value.to_owned())),
            Err(e) => Err(e),
        }
    }

    /// Access the wire value.
    pub fn as_str(&self) -> (s: &str)
        ensures
            s@ == self@,
    {
        self.0.as_str()
    }

    /// Consume and return the owned string.
    pub fn into_string(self) -> (s: String)
        ensures
            s@ == self@,
    {
        self.0
    }
}

impl Clone for ContextModeText {
    fn clone(&self) -> (r: Self)
        ensures
            r@ == self@,
    {
        proof {
            use_type_invariant(self);
        }
        ContextModeText(self.0.clone())
    }
}

impl FromStr for ContextModeText {
    type Err = BoundedTextError;

    fn from_str(s: &str) -> (r: Result<Self, Self::Err>)
        ensures
            r is Ok <==> bounded_text_ok(s@, MAX_IDENTIFIER_TEXT_CHARS as nat, TextFormat::Plain),
            r matches Ok(t) ==> t@ == s@,
            r matches Err(e) ==> bounded_text_rejection(e, s@, MAX_IDENTIFIER_TEXT_CHARS as nat, TextFormat::Plain),
    {
        Self::new(s)
    }
}

impl AsRef<str> for ContextModeText {
    fn as_ref(&self) -> (r: &str)
        ensures
            r@ == self@,
    {
        self.as_str()
    }
}

/// Optional environment profile for a Tanren dispatch.
#[derive(Debug, PartialEq, Eq, Hash)]
pub struct EnvironmentProfileText(String);

impl View for EnvironmentProfileText {
    type V = Seq<char>;

    closed spec fn view(&self) -> Seq<char> {
        self.0@
    }
}

impl EnvironmentProfileText {
    /// Maximum allowed length in Unicode scalar values.
    pub const MAX_LEN: usize = MAX_IDENTIFIER_TEXT_CHARS;

    /// The invariant every value carries: within bound and format.
    #[verifier::type_invariant]
    pub open spec fn wf(self) -> bool {
        bounded_text_ok(self@, MAX_IDENTIFIER_TEXT_CHARS as nat, TextFormat::Plain)
    }

    /// Construct a validated text value.
    pub fn new(value: &str) -> (r: Result<Self, BoundedTextError>)
        ensures
            r is Ok <==> bounded_text_ok(value@, MAX_IDENTIFIER_TEXT_CHARS as nat, TextFormat::Plain),
            r matches Ok(t) ==> t@ == value@,
            r matches Err(e) ==> bounded_text_rejection(e, value@, MAX_IDENTIFIER_TEXT_CHARS as nat, TextFormat::Plain),
    {
        match check_bounded_text(value, MAX_IDENTIFIER_TEXT_CHARS, &TextFormat::Plain) {
            Ok(()) => Ok(EnvironmentProfileText(value.to_owned())),
            Err(e) => Err(e),
        }
    }

    /// Access the wire value.
    pub fn as_str(&self) -> (s: &str)
        ensures
            s@ == self@,
    {
        self.0.as_str()
    }

    /// Consume and return the owned string.
    pub fn into_string(self) -> (s: String)
        ensures
            s@ == self@,
    {
        self.0
    }
}

impl Clone for EnvironmentProfileText {
    fn clone(&self) -> (r: Self)
        ensures
            r@ == self@,
    {
        proof {
            use_type_invariant(self);
        }
        EnvironmentProfileText(self.0.clone())
    }
}

impl FromStr for EnvironmentProfileText {
    type Err = BoundedTextError;

    fn from_str(s: &str) -> (r: Result<Self, Self::Err>)
        ensures
            r is Ok <==> bounded_text_ok(s@, MAX_IDENTIFIER_TEXT_CHARS as nat, TextFormat::Plain),
            r matches Ok(t) ==> t@ == s@,
            r matches Err(e) ==> bounded_text_rejection(e, s@, MAX_IDENTIFIER_TEXT_CHARS as nat, TextFormat::Plain),
    {
        Self::new(s)
    }
}

impl AsRef<str> for EnvironmentProfileText {
    fn as_ref(&self) -> (r: &str)
        ensures
            r@ == self@,
    {
        self.as_str()
    }
}

/// Model identifier text.
#[derive(Debug, PartialEq, Eq, Hash)]
pub struct ModelText(String);

impl View for ModelText {
    type V = Seq<char>;

    closed spec fn view(&self) -> Seq<char> {
        self.0@
    }
}

impl ModelText {
    /// Maximum allowed length in Unicode scalar values.
    pub const MAX_LEN: usize = MAX_MODEL_TEXT_CHARS;

    /// The invariant every value carries: within bound and format.
    #[verifier::type_invariant]
    pub open spec fn wf(self) -> bool {
        bounded_text_ok(self@, MAX_MODEL_TEXT_CHARS as nat, TextFormat::Plain)
    }

    /// Construct a validated text value.
    pub fn new(value: &str) -> (r: Result<Self, BoundedTextError>)
        ensures
            r is Ok <==> bounded_text_ok(value@, MAX_MODEL_TEXT_CHARS as nat, TextFormat::Plain),
            r matches Ok(t) ==> t@ == value@,
            r matches Err(e) ==> bounded_text_rejection(e, value@, MAX_MODEL_TEXT_CHARS as nat, TextFormat::Plain),
    {
        match check_bounded_text(value, MAX_MODEL_TEXT_CHARS, &TextFormat::Plain) {
            Ok(()) => Ok(ModelText(value.to_owned())),
            Err(e) => Err(e),
        }
    }

    /// Access the wire value.
    pub fn as_str(&self) -> (s: &str)
        ensures
            s@ == self@,
    {
        self.0.as_str()
    }

    /// Consume and return the owned string.
    pub fn into_string(self) -> (s: String)
        ensures
            s@ == self@,
    {
        self.0
    }
}

impl Clone for ModelText {
    fn clone(&self) -> (r: Self)
        ensures
            r@ == self@,
    {
        proof {
            use_type_invariant(self);
        }
        ModelText(self.0.clone())
    }
}

impl FromStr for ModelText {
    type Err = BoundedTextError;

    fn from_str(s: &str) -> (r: Result<Self, Self::Err>)
        ensures
            r is Ok <==> bounded_text_ok(s@, MAX_MODEL_TEXT_CHARS as nat, TextFormat::Plain),
            r matches Ok(t) ==> t@ == s@,
            r matches Err(e) ==> bounded_text_rejection(e, s@, MAX_MODEL_TEXT_CHARS as nat, TextFormat::Plain),
    {
        Self::new(s)
    }
}

impl AsRef<str> for ModelText {
    fn as_ref(&self) -> (r: &str)
        ensures
            r@ == self@,
    {
        self.as_str()
    }
}

/// Token or credential text value.
#[derive(Debug, PartialEq, Eq, Hash)]
pub struct TokenText(String);

impl View for TokenText {
    type V = Seq<char>;

    closed spec fn view(&self) -> Seq<char> {
        self.0@
    }
}

impl TokenText {
    /// Maximum allowed length in Unicode scalar values.
    pub const MAX_LEN: usize = MAX_TOKEN_TEXT_CHARS;

    /// The invariant every value carries: within bound and format.
    #[verifier::type_invariant]
    pub open spec fn wf(self) -> bool {
        bounded_text_ok(self@, MAX_TOKEN_TEXT_CHARS as nat, TextFormat::Plain)
    }

    /// Construct a validated text value.
    pub fn new(value: &str) -> (r: Result<Self, BoundedTextError>)
        ensures
            r is Ok <==> bounded_text_ok(value@, MAX_TOKEN_TEXT_CHARS as nat, TextFormat::Plain),
            r matches Ok(t) ==> t@ == value@,
            r matches Err(e) ==> bounded_text_rejection(e, value@, MAX_TOKEN_TEXT_CHARS as nat, TextFormat::Plain),
    {
        match check_bounded_text(value, MAX_TOKEN_TEXT_CHARS, &TextFormat::Plain) {
            Ok(()) => Ok(TokenText(value.to_owned())),
            Err(e) => Err(e),
        }
    }

    /// Access the wire value.
    pub fn as_str(&self) -> (s: &str)
        ensures
            s@ == self@,
    {
        self.0.as_str()
    }

    /// Consume and return the owned string.
    pub fn into_string(self) -> (s: String)
        ensures
            s@ == self@,
    {
        self.0
    }
}

impl Clone for TokenText {
    fn clone(&self) -> (r: Self)
        ensures
            r@ == self@,
    {
        proof {
            use_type_invariant(self);
        }
        TokenText(self.0.clone())
    }
}

impl FromStr for TokenText {
    type Err = BoundedTextError;

    fn from_str(s: &str) -> (r: Result<Self, Self::Err>)
        ensures
            r is Ok <==> bounded_text_ok(s@, MAX_TOKEN_TEXT_CHARS as nat, TextFormat::Plain),
            r matches Ok(t) ==> t@ == s@,
            r matches Err(e) ==> bounded_text_rejection(e, s@, MAX_TOKEN_TEXT_CHARS as nat, TextFormat::Plain),
    {
        Self::new(s)
    }
}

impl AsRef<str> for TokenText {
    fn as_ref(&self) -> (r: &str)
        ensures
            r@ == self@,
    {
        self.as_str()
    }
}

/// Generic short freeform text.
#[derive(Debug, PartialEq, Eq, Hash)]
pub struct ShortText(String);

impl View for ShortText {
    type V = Seq<char>;

    closed spec fn view(&self) -> Seq<char> {
        self.0@
    }
}

impl ShortText {
    /// Maximum allowed length in Unicode scalar values.
    pub const MAX_LEN: usize = MAX_SHORT_TEXT_CHARS;

    /// The invariant every value carries: within bound and format.
    #[verifier::type_invariant]
    pub open spec fn wf(self) -> bool {
        bounded_text_ok(self@, MAX_SHORT_TEXT_CHARS as nat, TextFormat::Plain)
    }

    /// Construct a validated text value.
    pub fn new(value: &str) -> (r: Result<Self, BoundedTextError>)
        ensures
            r is Ok <==> bounded_text_ok(value@, MAX_SHORT_TEXT_CHARS as nat, TextFormat::Plain),
            r matches Ok(t) ==> t@ == value@,
            r matches Err(e) ==> bounded_text_rejection(e, value@, MAX_SHORT_TEXT_CHARS as nat, TextFormat::Plain),
    {
        match check_bounded_text(value, MAX_SHORT_TEXT_CHARS, &TextFormat::Plain) {
            Ok(()) => Ok(ShortText(value.to_owned())),
            Err(e) => Err(e),
        }
    }

    /// Access the wire value.
    pub fn as_str(&self) -> (s: &str)
        ensures
            s@ == self@,
    {
        self.0.as_str()
    }

    /// Consume and return the owned string.
    pub fn into_string(self) -> (s: String)
        ensures
            s@ == self@,
    {
        self.0
    }
}

impl Clone for ShortText {
    fn clone(&self) -> (r: Self)
        ensures
            r@ == self@,
    {
        proof {
            use_type_invariant(self);
        }
        ShortText(self.0.clone())
    }
}

impl FromStr for ShortText {
    type Err = BoundedTextError;

    fn from_str(s: &str) -> (r: Result<Self, Self::Err>)
        ensures
            r is Ok <==> bounded_text_ok(s@, MAX_SHORT_TEXT_CHARS as nat, TextFormat::Plain),
            r matches Ok(t) ==> t@ == s@,
            r matches Err(e) ==> bounded_text_rejection(e, s@, MAX_SHORT_TEXT_CHARS as nat, TextFormat::Plain),
    {
        Self::new(s)
    }
}

impl AsRef<str> for ShortText {
    fn as_ref(&self) -> (r: &str)
        ensures
            r@ == self@,
    {
        self.as_str()
    }
}

/// Schedule expression/value text.
#[derive(Debug, PartialEq, Eq, Hash)]
pub struct ScheduleValueText(String);

impl View for ScheduleValueText {
    type V = Seq<char>;

    closed spec fn view(&self) -> Seq<char> {
        self.0@
    }
}

impl ScheduleValueText {
    /// Maximum allowed length in Unicode scalar values.
    pub const MAX_LEN: usize = MAX_SCHEDULE_VALUE_TEXT_CHARS;

    /// The invariant every value carries: within bound and format.
    #[verifier::type_invariant]
    pub open spec fn wf(self) -> bool {
        bounded_text_ok(self@, MAX_SCHEDULE_VALUE_TEXT_CHARS as nat, TextFormat::Plain)
    }

    /// Construct a validated text value.
    pub fn new(value: &str) -> (r: Result<Self, BoundedTextError>)
        ensures
            r is Ok <==> bounded_text_ok(value@, MAX_SCHEDULE_VALUE_TEXT_CHARS as nat, TextFormat::Plain),
            r matches Ok(t) ==> t@ == value@,
            r matches Err(e) ==> bounded_text_rejection(e, value@, MAX_SCHEDULE_VALUE_TEXT_CHARS as nat, TextFormat::Plain),
    {
        match check_bounded_text(value, MAX_SCHEDULE_VALUE_TEXT_CHARS, &TextFormat::Plain) {
            Ok(()) => Ok(ScheduleValueText(value.to_owned())),
            Err(e) => Err(e),
        }
    }

    /// Access the wire value.
    pub fn as_str(&self) -> (s: &str)
        ensures
            s@ == self@,
    {
        self.0.as_str()
    }

    /// Consume and return the owned string.
    pub fn into_string(self) -> (s: String)
        ensures
            s@ == self@,
    {
        self.0
    }
}

impl Clone for ScheduleValueText {
    fn clone(&self) -> (r: Self)
        ensures
            r@ == self@,
    {
        proof {
            use_type_invariant(self);
        }
        ScheduleValueText(self.0.clone())
    }
}

impl FromStr for ScheduleValueText {
    type Err = BoundedTextError;

    fn from_str(s: &str) -> (r: Result<Self, Self::Err>)
        ensures
            r is Ok <==> bounded_text_ok(s@, MAX_SCHEDULE_VALUE_TEXT_CHARS as nat, TextFormat::Plain),
            r matches Ok(t) ==> t@ == s@,
            r matches Err(e) ==> bounded_text_rejection(e, s@, MAX_SCHEDULE_VALUE_TEXT_CHARS as nat, TextFormat::Plain),
    {
        Self::new(s)
    }
}

impl AsRef<str> for ScheduleValueText {
    fn as_ref(&self) -> (r: &str)
        ensures
            r@ == self@,
    {
        self.as_str()
    }
}

/// Message-sized text value.
#[derive(Debug, PartialEq, Eq, Hash)]
pub struct MessageText(String);

impl View for MessageText {
    type V = Seq<char>;

    closed spec fn view(&self) -> Seq<char> {
        self.0@
    }
}

impl MessageText {
    /// Maximum allowed length in Unicode scalar values.
    pub const MAX_LEN: usize = MAX_MESSAGE_TEXT_CHARS;

    /// The invariant every value carries: within bound and format.
    #[verifier::type_invariant]
    pub open spec fn wf(self) -> bool {
        bounded_text_ok(self@, MAX_MESSAGE_TEXT_CHARS as nat, TextFormat::Plain)
    }

    /// Construct a validated text value.
    pub fn new(value: &str) -> (r: Result<Self, BoundedTextError>)
        ensures
            r is Ok <==> bounded_text_ok(value@, MAX_MESSAGE_TEXT_CHARS as nat, TextFormat::Plain),
            r matches Ok(t) ==> t@ == value@,
            r matches Err(e) ==> bounded_text_rejection(e, value@, MAX_MESSAGE_TEXT_CHARS as nat, TextFormat::Plain),
    {
        match check_bounded_text(value, MAX_MESSAGE_TEXT_CHARS, &TextFormat::Plain) {
            Ok(()) => Ok(MessageText(value.to_owned())),
            Err(e) => Err(e),
        }
    }

    /// Access the wire value.
    pub fn as_str(&self) -> (s: &str)
        ensures
            s@ == self@,
    {
        self.0.as_str()
    }

    /// Consume and return the owned string.
    pub fn into_string(self) -> (s: String)
        ensures
            s@ == self@,
    {
        self.0
    }
}

impl Clone for MessageText {
    fn clone(&self) -> (r: Self)
        ensures
            r@ == self@,
    {
        proof {
            use_type_invariant(self);
        }
        MessageText(self.0.clone())
    }
}

impl FromStr for MessageText {
    type Err = BoundedTextError;

    fn from_str(s: &str) -> (r: Result<Self, Self::Err>)
        ensures
            r is Ok <==> bounded_text_ok(s@, MAX_MESSAGE_TEXT_CHARS as nat, TextFormat::Plain),
            r matches Ok(t) ==> t@ == s@,
            r matches Err(e) ==> bounded_text_rejection(e, s@, MAX_MESSAGE_TEXT_CHARS as nat, TextFormat::Plain),
    {
        Self::new(s)
    }
}

impl AsRef<str> for MessageText {
    fn as_ref(&self) -> (r: &str)
        ensures
            r@ == self@,
    {
        self.as_str()
    }
}

/// Prompt/objective text value.
#[derive(Debug, PartialEq, Eq, Hash)]
pub struct PromptText(String);

impl View for PromptText {
    type V = Seq<char>;

    closed spec fn view(&self) -> Seq<char> {
        self.0@
    }
}

impl PromptText {
    /// Maximum allowed length in Unicode scalar values.
    pub const MAX_LEN: usize = MAX_PROMPT_TEXT_CHARS;

    /// The invariant every value carries: within bound and format.
    #[verifier::type_invariant]
    pub open spec fn wf(self) -> bool {
        bounded_text_ok(self@, MAX_PROMPT_TEXT_CHARS as nat, TextFormat::Plain)
    }

    /// Construct a validated text value.
    pub fn new(value: &str) -> (r: Result<Self, BoundedTextError>)
        ensures
            r is Ok <==> bounded_text_ok(value@, MAX_PROMPT_TEXT_CHARS as nat, TextFormat::Plain),
            r matches Ok(t) ==> t@ == value@,
            r matches Err(e) ==> bounded_text_rejection(e, value@, MAX_PROMPT_TEXT_CHARS as nat, TextFormat::Plain),
    {
        match check_bounded_text(value, MAX_PROMPT_TEXT_CHARS, &TextFormat::Plain) {
            Ok(()) => Ok(PromptText(value.to_owned())),
            Err(e) => Err(e),
        }
    }

    /// Access the wire value.
    pub fn as_str(&self) -> (s: &str)
        ensures
            s@ == self@,
    {
        self.0.as_str()
    }

    /// Consume and return the owned string.
    pub fn into_string(self) -> (s: String)
        ensures
            s@ == self@,
    {
        self.0
    }
}

impl Clone for PromptText {
    fn clone(&self) -> (r: Self)
        ensures
            r@ == self@,
    {
        proof {
            use_type_invariant(self);
        }
        PromptText(self.0.clone())
    }
}

impl FromStr for PromptText {
    type Err = BoundedTextError;

    fn from_str(s: &str) -> (r: Result<Self, Self::Err>)
        ensures
            r is Ok <==> bounded_text_ok(s@, MAX_PROMPT_TEXT_CHARS as nat, TextFormat::Plain),
            r matches Ok(t) ==> t@ == s@,
            r matches Err(e) ==> bounded_text_rejection(e, s@, MAX_PROMPT_TEXT_CHARS as nat, TextFormat::Plain),
    {
        Self::new(s)
    }
}

impl AsRef<str> for PromptText {
    fn as_ref(&self) -> (r: &str)
        ensures
            r@ == self@,
    {
        self.as_str()
    }
}

/// Incremental streamed output chunk.
#[derive(Debug, PartialEq, Eq, Hash)]
pub struct OutputDeltaText(String);

impl View for OutputDeltaText {
    type V = Seq<char>;

    closed spec fn view(&self) -> Seq<char> {
        self.0@
    }
}

impl OutputDeltaText {
    /// Maximum allowed length in Unicode scalar values.
    pub const MAX_LEN: usize = MAX_OUTPUT_DELTA_TEXT_CHARS;

    /// The invariant every value carries: within bound and format.
    #[verifier::type_invariant]
    pub open spec fn wf(self) -> bool {
        bounded_text_ok(self@, MAX_OUTPUT_DELTA_TEXT_CHARS as nat, TextFormat::Plain)
    }

    /// Construct a validated text value.
    pub fn new(value: &str) -> (r: Result<Self, BoundedTextError>)
        ensures
            r is Ok <==> bounded_text_ok(value@, MAX_OUTPUT_DELTA_TEXT_CHARS as nat, TextFormat::Plain),
            r matches Ok(t) ==> t@ == value@,
            r matches Err(e) ==> bounded_text_rejection(e, value@, MAX_OUTPUT_DELTA_TEXT_CHARS as nat, TextFormat::Plain),
    {
        match check_bounded_text(value, MAX_OUTPUT_DELTA_TEXT_CHARS, &TextFormat::Plain) {
            Ok(()) => Ok(OutputDeltaText(value.to_owned())),
            Err(e) => Err(e),
        }
    }

    /// Access the wire value.
    pub fn as_str(&self) -> (s: &str)
        ensures
            s@ == self@,
    {
        self.0.as_str()
    }

    /// Consume and return the owned string.
    pub fn into_string(self) -> (s: String)
        ensures
            s@ == self@,
    {
        self.0
    }
}

impl Clone for OutputDeltaText {
    fn clone(&self) -> (r: Self)
        ensures
            r@ == self@,
    {
        proof {
            use_type_invariant(self);
        }
        OutputDeltaText(self.0.clone())
    }
}

impl FromStr for OutputDeltaText {
    type Err = BoundedTextError;

    fn from_str(s: &str) -> (r: Result<Self, Self::Err>)
        ensures
            r is Ok <==> bounded_text_ok(s@, MAX_OUTPUT_DELTA_TEXT_CHARS as nat, TextFormat::Plain),
            r matches Ok(t) ==> t@ == s@,
            r matches Err(e) ==> bounded_text_rejection(e, s@, MAX_OUTPUT_DELTA_TEXT_CHARS as nat, TextFormat::Plain),
    {
        Self::new(s)
    }
}

impl AsRef<str> for OutputDeltaText {
    fn as_ref(&self) -> (r: &str)
        ensures
            r@ == self@,
    {
        self.as_str()
    }
}

/// Final result text payload.
#[derive(Debug, PartialEq, Eq, Hash)]
pub struct OutputResultText(String);

impl View for OutputResultText {
    type V = Seq<char>;

    closed spec fn view(&self) -> Seq<char> {
        self.0@
    }
}

impl OutputResultText {
    /// Maximum allowed length in Unicode scalar values.
    pub const MAX_LEN: usize = MAX_OUTPUT_RESULT_TEXT_CHARS;

    /// The invariant every value carries: within bound and format.
    #[verifier::type_invariant]
    pub open spec fn wf(self) -> bool {
        bounded_text_ok(self@, MAX_OUTPUT_RESULT_TEXT_CHARS as nat, TextFormat::Plain)
    }

    /// Construct a validated text value.
    pub fn new(value: &str) -> (r: Result<Self, BoundedTextError>)
        ensures
            r is Ok <==> bounded_text_ok(value@, MAX_OUTPUT_RESULT_TEXT_CHARS as nat, TextFormat::Plain),
            r matches Ok(t) ==> t@ == value@,
            r matches Err(e) ==> bounded_text_rejection(e, value@, MAX_OUTPUT_RESULT_TEXT_CHARS as nat, TextFormat::Plain),
    {
        match check_bounded_text(value, MAX_OUTPUT_RESULT_TEXT_CHARS, &TextFormat::Plain) {
            Ok(()) => Ok(OutputResultText(value.to_owned())),
            Err(e) => Err(e),
        }
    }

    /// Access the wire value.
    pub fn as_str(&self) -> (s: &str)
        ensures
            s@ == self@,
    {
        self.0.as_str()
    }

    /// Consume and return the owned string.
    pub fn into_string(self) -> (s: String)
        ensures
            s@ == self@,
    {
        self.0
    }
}

impl Clone for OutputResultText {
    fn clone(&self) -> (r: Self)
        ensures
            r@ == self@,
    {
        proof {
            use_type_invariant(self);
        }
        OutputResultText(self.0.clone())
    }
}

impl FromStr for OutputResultText {
    type Err = BoundedTextError;

    fn from_str(s: &str) -> (r: Result<Self, Self::Err>)
        ensures
            r is Ok <==> bounded_text_ok(s@, MAX_OUTPUT_RESULT_TEXT_CHARS as nat, TextFormat::Plain),
            r matches Ok(t) ==> t@ == s@,
            r matches Err(e) ==> bounded_text_rejection(e, s@, MAX_OUTPUT_RESULT_TEXT_CHARS as nat, TextFormat::Plain),
    {
        Self::new(s)
    }
}

impl AsRef<str> for OutputResultText {
    fn as_ref(&self) -> (r: &str)
        ensures
            r@ == self@,
    {
        self.as_str()
    }
}

/// Session identifier text.
#[derive(Debug, PartialEq, Eq, Hash)]
pub struct SessionIdText(String);

impl View for SessionIdText {
    type V = Seq<char>;

    closed spec fn view(&self) -> Seq<char> {
        self.0@
    }
}

impl SessionIdText {
    /// Maximum allowed length in Unicode scalar values.
    pub const MAX_LEN: usize = MAX_SESSION_ID_TEXT_CHARS;

    /// The invariant every value carries: within bound and format.
    #[verifier::type_invariant]
    pub open spec fn wf(self) -> bool {
        bounded_text_ok(self@, MAX_SESSION_ID_TEXT_CHARS as nat, TextFormat::Plain)
    }

    /// Construct a validated text value.
    pub fn new(value: &str) -> (r: Result<Self, BoundedTextError>)
        ensures
            r is Ok <==> bounded_text_ok(value@, MAX_SESSION_ID_TEXT_CHARS as nat, TextFormat::Plain),
            r matches Ok(t) ==> t@ == value@,
            r matches Err(e) ==> bounded_text_rejection(e, value@, MAX_SESSION_ID_TEXT_CHARS as nat, TextFormat::Plain),
    {
        match check_bounded_text(value, MAX_SESSION_ID_TEXT_CHARS, &TextFormat::Plain) {
            Ok(()) => Ok(SessionIdText(value.to_owned())),
            Err(e) => Err(e),
        }
    }

    /// Access the wire value.
    pub fn as_str(&self) -> (s: &str)
        ensures
            s@ == self@,
    {
        self.0.as_str()
    }

    /// Consume and return the owned string.
    pub fn into_string(self) -> (s: String)
        ensures
            s@ == self@,
    {
        self.0
    }
}

impl Clone for SessionIdText {
    fn clone(&self) -> (r: Self)
        ensures
            r@ == self@,
    {
        proof {
            use_type_invariant(self);
        }
        SessionIdText(self.0.clone())
    }
}

impl FromStr for SessionIdText {
    type Err = BoundedTextError;

    fn from_str(s: &str) -> (r: Result<Self, Self::Err>)
        ensures
            r is Ok <==> bounded_text_ok(s@, MAX_SESSION_ID_TEXT_CHARS as nat, TextFormat::Plain),
            r matches Ok(t) ==> t@ == s@,
            r matches Err(e) ==> bounded_text_rejection(e, s@, MAX_SESSION_ID_TEXT_CHARS as nat, TextFormat::Plain),
    {
        Self::new(s)
    }
}

impl AsRef<str> for SessionIdText {
    fn as_ref(&self) -> (r: &str)
        ensures
            r@ == self@,
    {
        self.as_str()
    }
}

/// Self-improvement scope/acceptance list item text.
#[derive(Debug, PartialEq, Eq, Hash)]
pub struct ListItemText(String);

impl View for ListItemText {
    type V = Seq<char>;

    closed spec fn view(&self) -> Seq<char> {
        self.0@
    }
}

impl ListItemText {
    /// Maximum allowed length in Unicode scalar values.
    pub const MAX_LEN: usize = MAX_LIST_ITEM_TEXT_CHARS;

    /// The invariant every value carries: within bound and format.
    #[verifier::type_invariant]
    pub open spec fn wf(self) -> bool {
        bounded_text_ok(self@, MAX_LIST_ITEM_TEXT_CHARS as nat, TextFormat::Plain)
    }

    /// Construct a validated text value.
    pub fn new(value: &str) -> (r: Result<Self, BoundedTextError>)
        ensures
            r is Ok <==> bounded_text_ok(value@, MAX_LIST_ITEM_TEXT_CHARS as nat, TextFormat::Plain),
            r matches Ok(t) ==> t@ == value@,
            r matches Err(e) ==> bounded_text_rejection(e, value@, MAX_LIST_ITEM_TEXT_CHARS as nat, TextFormat::Plain),
    {
        match check_bounded_text(value, MAX_LIST_ITEM_TEXT_CHARS, &TextFormat::Plain) {
            Ok(()) => Ok(ListItemText(value.to_owned())),
            Err(e) => Err(e),
        }
    }

    /// Access the wire value.
    pub fn as_str(&self) -> (s: &str)
        ensures
            s@ == self@,
    {
        self.0.as_str()
    }

    /// Consume and return the owned string.
    pub fn into_string(self) -> (s: String)
        ensures
            s@ == self@,
    {
        self.0
    }
}

impl Clone for ListItemText {
    fn clone(&self) -> (r: Self)
        ensures
            r@ == self@,
    {
        proof {
            use_type_invariant(self);
        }
        ListItemText(self.0.clone())
    }
}

impl FromStr for ListItemText {
    type Err = BoundedTextError;

    fn from_str(s: &str) -> (r: Result<Self, Self::Err>)
        ensures
            r is Ok <==> bounded_text_ok(s@, MAX_LIST_ITEM_TEXT_CHARS as nat, TextFormat::Plain),
            r matches Ok(t) ==> t@ == s@,
            r matches Err(e) ==> bounded_text_rejection(e, s@, MAX_LIST_ITEM_TEXT_CHARS as nat, TextFormat::Plain),
    {
        Self::new(s)
    }
}

impl AsRef<str> for ListItemText {
    fn as_ref(&self) -> (r: &str)
        ensures
            r@ == self@,
    {
        self.as_str()
    }
}

} // verus!
