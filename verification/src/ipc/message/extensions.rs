//! Versioned, bounded extension data attached to `register_group`.
//!
//! Extension data is a JSON object whose reserved `version` key carries a
//! [`GroupExtensionsVersion`]; the other keys carry arbitrary JSON values,
//! held here as [`ExtValue`]. The envelope is bounded: at most 32
//! properties (counting `version`), keys of at most 128 characters at every
//! level, nesting at most 8 deep, and at most 64 KiB once encoded.

use crate::ipc::limits::MAX_IDENTIFIER_TEXT_CHARS;
use crate::text::{
    char_count, decimal_seq, is_blank, is_blank_seq, owned, push_decimal, push_str, str_eq,
};
use vstd::prelude::*;

verus! {

/// Maximum top-level properties, counting the reserved `version` key.
pub const MAX_GROUP_EXTENSIONS_PROPERTIES: usize = 32;

/// Maximum characters of a key at any nesting level.
pub const MAX_GROUP_EXTENSIONS_KEY_CHARS: usize = 128;

/// Maximum nesting depth of extension values (top-level values are depth 1).
pub const MAX_GROUP_EXTENSIONS_NESTED_DEPTH: usize = 8;

/// Maximum encoded size of the whole envelope (64 KiB).
pub const MAX_GROUP_EXTENSIONS_ENCODED_BYTES: usize = 65536;

/// Number of reserved keys (`version`).
pub const RESERVED_EXTENSION_KEY_COUNT: usize = 1;

/// Error returned when an extension version is invalid.
#[derive(Debug, Clone, PartialEq, Eq)]
pub enum GroupExtensionsVersionError {
    /// The version is empty or whitespace-only.
    EmptyOrWhitespace,
    /// The version is longer than 128 characters.
    TooLong {
        /// Maximum allowed length.
        max: usize,
        /// Actual length.
        actual: usize,
    },
}

impl GroupExtensionsVersionError {
    /// The display text of this error.
    pub fn message(&self) -> (s: String)
        ensures
            s@ == match *self {
                GroupExtensionsVersionError::EmptyOrWhitespace =>
                    "extensions.version must contain at least one non-whitespace character"@,
                GroupExtensionsVersionError::TooLong { max, actual } => "extensions.version length "@
                    + decimal_seq(actual as nat) + " exceeds maximum "@ + decimal_seq(max as nat),
            },
    {
        let mut s = String::new();
        match self {
            GroupExtensionsVersionError::EmptyOrWhitespace => {
                push_str(
                    &mut s,
                    "extensions.version must contain at least one non-whitespace character",
                );
            },
            GroupExtensionsVersionError::TooLong { max, actual } => {
                push_str(&mut s, "extensions.version length ");
                push_decimal(&mut s, *actual as u64);
                push_str(&mut s, " exceeds maximum ");
                push_decimal(&mut s, *max as u64);
            },
        }
        s
    }
}

/// A version text is acceptable: not blank and at most 128 characters.
pub open spec fn extension_version_ok(s: Seq<char>) -> bool {
    !is_blank_seq(s) && s.len() <= MAX_IDENTIFIER_TEXT_CHARS
}

/// Checks an extension version: blank first, then length.
pub fn validate_version(version: &str) -> (r: Result<(), GroupExtensionsVersionError>)
    ensures
        r is Ok <==> extension_version_ok(version@),
        r matches Err(e) ==> if is_blank_seq(version@) {
            e is EmptyOrWhitespace
        } else {
            e matches GroupExtensionsVersionError::TooLong { max, actual } && max
                == MAX_IDENTIFIER_TEXT_CHARS && actual == version@.len()
        },
{
    if is_blank(version) {
        return Err(GroupExtensionsVersionError::EmptyOrWhitespace);
    }
    let actual = char_count(version);
    if actual > MAX_IDENTIFIER_TEXT_CHARS {
        return Err(GroupExtensionsVersionError::TooLong { max: MAX_IDENTIFIER_TEXT_CHARS, actual });
    }
    Ok(())
}

/// Schema version for extension compatibility (non-blank, at most 128
/// characters, e.g. `"1"`).
#[derive(Debug, PartialEq, Eq, Hash)]
pub struct GroupExtensionsVersion(String);

impl View for GroupExtensionsVersion {
    type V = Seq<char>;

    closed spec fn view(&self) -> Seq<char> {
        self.0@
    }
}

impl GroupExtensionsVersion {
    /// Every value is an acceptable version text.
    #[verifier::type_invariant]
    pub open spec fn wf(self) -> bool {
        extension_version_ok(self@)
    }

    /// Construct a validated extension version string.
    pub fn new(version: &str) -> (r: Result<Self, GroupExtensionsVersionError>)
        ensures
            r is Ok <==> extension_version_ok(version@),
            r matches Ok(v) ==> v@ == version@,
            r matches Err(e) ==> if is_blank_seq(version@) {
                e is EmptyOrWhitespace
            } else {
                e matches GroupExtensionsVersionError::TooLong { max, actual } && max
                    == MAX_IDENTIFIER_TEXT_CHARS && actual == version@.len()
            },
    {
        match validate_version(version) {
            Ok(()) => Ok(GroupExtensionsVersion(version.to_owned())),
            Err(e) => Err(e),
        }
    }

    /// Access the version text.
    pub fn as_str(&self) -> (s: &str)
        ensures
            s@ == self@,
    {
        self.0.as_str()
    }

    /// Consume and return the owned string.
    pub fn into_string(self) -> (s: String)
        ensures
            s@ == self@,
    {
        self.0
    }
}

impl Clone for GroupExtensionsVersion {
    fn clone(&self) -> (r: Self)
        ensures
            r@ == self@,
    {
        proof {
            use_type_invariant(self);
        }
        GroupExtensionsVersion(self.0.clone())
    }
}

/// A JSON value carried inside extension data. Numbers keep their JSON
/// text.
#[derive(Debug, PartialEq, Eq)]
pub enum ExtValue {
    /// `null`.
    Null,
    /// `true` / `false`.
    Bool(bool),
    /// A JSON number, as its JSON text.
    Number(String),
    /// A JSON string.
    String(String),
    /// A JSON array.
    Array(Vec<ExtValue>),
    /// A JSON object, as its entries in order.
    Object(Vec<(String, ExtValue)>),
}

/// Error returned when extension data violates its bounds.
#[derive(Debug, Clone, PartialEq, Eq)]
pub enum GroupExtensionsError {
    /// The key is reserved (`version`).
    ReservedKey(String),
    /// The key occurs twice.
    DuplicateKey(String),
    /// A key is longer than 128 characters.
    KeyTooLong {
        /// The key.
        key: String,
        /// Maximum allowed length.
        max: usize,
        /// Actual length.
        actual: usize,
    },
    /// Too many top-level properties (counting `version`).
    TooManyProperties {
        /// Maximum allowed.
        max: usize,
        /// Actual count.
        actual: usize,
    },
    /// Values nest too deep.
    MaxDepthExceeded {
        /// Maximum allowed depth.
        max: usize,
        /// The depth reached.
        actual: usize,
    },
    /// The encoded envelope is too large.
    EncodedBytesExceeded {
        /// Maximum allowed bytes.
        max: usize,
        /// Actual encoded bytes.
        actual: usize,
    },
}

/// The display text of a [`GroupExtensionsError`].
pub open spec fn extensions_error_text(e: GroupExtensionsError) -> Seq<char> {
    match e {
        GroupExtensionsError::ReservedKey(k) => "extensions key `"@ + k@ + "` is reserved"@,
        GroupExtensionsError::DuplicateKey(k) => "duplicate extensions key `"@ + k@ + "`"@,
        GroupExtensionsError::KeyTooLong { key, max, actual } => "extensions key `"@ + key@
            + "` length "@ + decimal_seq(actual as nat) + " exceeds maximum "@ + decimal_seq(
            max as nat,
        ),
        GroupExtensionsError::TooManyProperties { max, actual } => "extensions object has "@
            + decimal_seq(actual as nat) + " properties but maximum is "@ + decimal_seq(
            max as nat,
        ),
        GroupExtensionsError::MaxDepthExceeded { max, actual } => "extensions value depth "@
            + decimal_seq(actual as nat) + " exceeds maximum "@ + decimal_seq(max as nat),
        GroupExtensionsError::EncodedBytesExceeded { max, actual } => "extensions encoded size "@
            + decimal_seq(actual as nat) + " exceeds maximum "@ + decimal_seq(max as nat),
    }
}

impl GroupExtensionsError {
    /// The display text of this error.
    pub fn message(&self) -> (s: String)
        ensures
            s@ == extensions_error_text(*self),
    {
        let mut s = String::new();
        match self {
            GroupExtensionsError::ReservedKey(k) => {
                push_str(&mut s, "extensions key `");
                push_str(&mut s, k.as_str());
                push_str(&mut s, "` is reserved");
            },
            GroupExtensionsError::DuplicateKey(k) => {
                push_str(&mut s, "duplicate extensions key `");
                push_str(&mut s, k.as_str());
                push_str(&mut s, "`");
            },
            GroupExtensionsError::KeyTooLong { key, max, actual } => {
                push_str(&mut s, "extensions key `");
                push_str(&mut s, key.as_str());
                push_str(&mut s, "` length ");
                push_decimal(&mut s, *actual as u64);
                push_str(&mut s, " exceeds maximum ");
                push_decimal(&mut s, *max as u64);
            },
            GroupExtensionsError::TooManyProperties { max, actual } => {
                push_str(&mut s, "extensions object has ");
                push_decimal(&mut s, *actual as u64);
                push_str(&mut s, " properties but maximum is ");
                push_decimal(&mut s, *max as u64);
            },
            GroupExtensionsError::MaxDepthExceeded { max, actual } => {
                push_str(&mut s, "extensions value depth ");
                push_decimal(&mut s, *actual as u64);
                push_str(&mut s, " exceeds maximum ");
                push_decimal(&mut s, *max as u64);
            },
            GroupExtensionsError::EncodedBytesExceeded { max, actual } => {
                push_str(&mut s, "extensions encoded size ");
                push_decimal(&mut s, *actual as u64);
                push_str(&mut s, " exceeds maximum ");
                push_decimal(&mut s, *max as u64);
            },
        }
        s
    }
}

/// The kinds of bound an extension value can break.
#[derive(PartialEq, Eq)]
pub enum ExtIssueKind {
    /// A reserved key.
    Reserved,
    /// A repeated key.
    Duplicate,
    /// An over-long key.
    LongKey,
    /// Too many properties.
    TooMany,
    /// Nesting too deep.
    TooDeep,
    /// Encoded too large.
    TooLarge,
}

/// An issue found in extension data: its kind, the key concerned (if any),
/// the bound and the observed value.
pub type ExtIssue = (ExtIssueKind, Seq<char>, nat, nat);

/// `e` reports issue `i`.
pub open spec fn reports_issue(e: GroupExtensionsError, i: ExtIssue) -> bool {
    match e {
        GroupExtensionsError::ReservedKey(k) => i.0 == ExtIssueKind::Reserved && k@ == i.1,
        GroupExtensionsError::DuplicateKey(k) => i.0 == ExtIssueKind::Duplicate && k@ == i.1,
        GroupExtensionsError::KeyTooLong { key, max, actual } => i.0 == ExtIssueKind::LongKey
            && key@ == i.1 && max == i.2 && actual == i.3,
        GroupExtensionsError::TooManyProperties { max, actual } => i.0 == ExtIssueKind::TooMany
            && max == i.2 && actual == i.3,
        GroupExtensionsError::MaxDepthExceeded { max, actual } => i.0 == ExtIssueKind::TooDeep
            && max == i.2 && actual == i.3,
        GroupExtensionsError::EncodedBytesExceeded { max, actual } => i.0
            == ExtIssueKind::TooLarge && max == i.2 && actual == i.3,
    }
}

/// The issue with a key at any nesting level: only its length.
pub open spec fn key_issue(key: Seq<char>) -> Option<ExtIssue> {
    if key.len() > MAX_GROUP_EXTENSIONS_KEY_CHARS {
        Some((ExtIssueKind::LongKey, key, MAX_GROUP_EXTENSIONS_KEY_CHARS as nat, key.len()))
    } else {
        None
    }
}

/// The first issue found walking `v` at nesting depth `depth`: the depth
/// bound is checked before the value is looked into; object entries are
/// checked key first, then value, in order.
pub open spec fn value_issue(v: ExtValue, depth: nat) -> Option<ExtIssue>
    decreases v, 0nat,
{
    if depth > MAX_GROUP_EXTENSIONS_NESTED_DEPTH {
        Some((ExtIssueKind::TooDeep, Seq::empty(), MAX_GROUP_EXTENSIONS_NESTED_DEPTH as nat, depth))
    } else {
        match v {
            ExtValue::Object(entries) => entries_issue(entries@, 0, depth),
            ExtValue::Array(items) => items_issue(items@, 0, depth),
            _ => None,
        }
    }
}

/// The first issue among object entries `es[i..]` whose object sits at
/// depth `depth`.
pub open spec fn entries_issue(es: Seq<(String, ExtValue)>, i: int, depth: nat) -> Option<
    ExtIssue,
>
    decreases es, es.len() - i,
{
    if i < 0 || i >= es.len() {
        None
    } else {
        match key_issue(es[i].0@) {
            Some(x) => Some(x),
            None => match value_issue(es[i].1, depth + 1) {
                Some(x) => Some(x),
                None => entries_issue(es, i + 1, depth),
            },
        }
    }
}

/// The first issue among array items `xs[i..]` whose array sits at depth
/// `depth`.
pub open spec fn items_issue(xs: Seq<ExtValue>, i: int, depth: nat) -> Option<ExtIssue>
    decreases xs, xs.len() - i,
{
    if i < 0 || i >= xs.len() {
        None
    } else {
        match value_issue(xs[i], depth + 1) {
            Some(x) => Some(x),
            None => items_issue(xs, i + 1, depth),
        }
    }
}

fn validate_extension_key_length(key: &String) -> (r: Result<(), GroupExtensionsError>)
    ensures
        r is Ok <==> key_issue(key@) is None,
        r matches Err(e) ==> reports_issue(e, key_issue(key@)->0),
{
    let actual = char_count(key.as_str());
    if actual > MAX_GROUP_EXTENSIONS_KEY_CHARS {
        return Err(
            GroupExtensionsError::KeyTooLong {
                key: key.clone(),
                max: MAX_GROUP_EXTENSIONS_KEY_CHARS,
                actual,
            },
        );
    }
    Ok(())
}

/// Walks `value` at nesting depth `depth`, reporting the first over-deep
/// value or over-long key.
pub fn validate_json_value_depth_and_keys(value: &ExtValue, depth: usize) -> (r: Result<
    (),
    GroupExtensionsError,
>)
    requires
        depth <= MAX_GROUP_EXTENSIONS_NESTED_DEPTH + 1,
    ensures
        r is Ok <==> value_issue(*value, depth as nat) is None,
        r matches Err(e) ==> reports_issue(e, value_issue(*value, depth as nat)->0),
    decreases value,
{
    if depth > MAX_GROUP_EXTENSIONS_NESTED_DEPTH {
        return Err(
            GroupExtensionsError::MaxDepthExceeded {
                max: MAX_GROUP_EXTENSIONS_NESTED_DEPTH,
                actual: depth,
            },
        );
    }
    match value {
        ExtValue::Object(entries) => {
            let mut i: usize = 0;
            while i < entries.len()
                invariant
                    i <= entries@.len(),
                    depth <= MAX_GROUP_EXTENSIONS_NESTED_DEPTH,
                    *value == ExtValue::Object(*entries),
                    entries_issue(entries@, 0, depth as nat) == entries_issue(
                        entries@,
                        i as int,
                        depth as nat,
                    ),
                decreases entries@.len() - i,
            {
                let entry = &entries[i];
                proof {
                    assert(decreases_to!(*value => entries@[i as int].1));
                }
                match validate_extension_key_length(&entry.0) {
                    Ok(()) => {},
                    Err(e) => return Err(e),
                }
                match validate_json_value_depth_and_keys(&entry.1, depth + 1) {
                    Ok(()) => {},
                    Err(e) => return Err(e),
                }
                i = i + 1;
            }
            Ok(())
        },
        ExtValue::Array(items) => {
            let mut i: usize = 0;
            while i < items.len()
                invariant
                    i <= items@.len(),
                    depth <= MAX_GROUP_EXTENSIONS_NESTED_DEPTH,
                    *value == ExtValue::Array(*items),
                    items_issue(items@, 0, depth as nat) == items_issue(
                        items@,
                        i as int,
                        depth as nat,
                    ),
                decreases items@.len() - i,
            {
                proof {
                    assert(decreases_to!(*value => items@[i as int]));
                }
                match validate_json_value_depth_and_keys(&items[i], depth + 1) {
                    Ok(()) => {},
                    Err(e) => return Err(e),
                }
                i = i + 1;
            }
            Ok(())
        },
        _ => Ok(()),
    }
}


/// `key` is the reserved `version` key.
pub open spec fn is_reserved_key(key: Seq<char>) -> bool {
    key == "version"@
}

/// Returns `true` for the reserved `version` key.
pub fn is_reserved_extension_key(key: &str) -> (r: bool)
    ensures
        r == is_reserved_key(key@),
{
    str_eq(key, "version")
}

/// Rejects the reserved key with [`GroupExtensionsError::ReservedKey`].
pub fn reject_reserved_extension_key(key: &str) -> (r: Result<(), GroupExtensionsError>)
    ensures
        r is Ok <==> !is_reserved_key(key@),
        r matches Err(e) ==> e matches GroupExtensionsError::ReservedKey(k) && k@ == key@,
{
    if is_reserved_extension_key(key) {
        return Err(GroupExtensionsError::ReservedKey(key.to_owned()));
    }
    Ok(())
}

/// `n + 1`, saturating at `usize::MAX`.
pub open spec fn saturating_succ(n: nat) -> nat {
    if n >= usize::MAX {
        usize::MAX as nat
    } else {
        n + 1
    }
}

/// The first issue among top-level entries `data[i..]`: reserved key,
/// then key length, then the value walked from depth 1.
pub open spec fn data_entries_issue(data: Seq<(String, ExtValue)>, i: int) -> Option<ExtIssue>
    decreases data.len() - i,
{
    if i < 0 || i >= data.len() {
        None
    } else if is_reserved_key(data[i].0@) {
        Some((ExtIssueKind::Reserved, data[i].0@, 0, 0))
    } else {
        match key_issue(data[i].0@) {
            Some(x) => Some(x),
            None => match value_issue(data[i].1, 1) {
                Some(x) => Some(x),
                None => data_entries_issue(data, i + 1),
            },
        }
    }
}

/// The first issue of top-level extension data: too many properties
/// (counting `version`), else the first entry issue.
pub open spec fn data_issue(data: Seq<(String, ExtValue)>) -> Option<ExtIssue> {
    let properties = saturating_succ(data.len());
    if properties > MAX_GROUP_EXTENSIONS_PROPERTIES {
        Some((ExtIssueKind::TooMany, Seq::empty(), MAX_GROUP_EXTENSIONS_PROPERTIES as nat, properties))
    } else {
        data_entries_issue(data, 0)
    }
}

/// Checks the property count, then every entry in order.
pub fn validate_extension_data_invariants(data: &Vec<(String, ExtValue)>) -> (r: Result<
    (),
    GroupExtensionsError,
>)
    ensures
        r is Ok <==> data_issue(data@) is None,
        r matches Err(e) ==> reports_issue(e, data_issue(data@)->0),
{
    let n = data.len();
    let properties = if n == usize::MAX {
        usize::MAX
    } else {
        n + RESERVED_EXTENSION_KEY_COUNT
    };
    if properties > MAX_GROUP_EXTENSIONS_PROPERTIES {
        return Err(
            GroupExtensionsError::TooManyProperties {
                max: MAX_GROUP_EXTENSIONS_PROPERTIES,
                actual: properties,
            },
        );
    }
    let mut i: usize = 0;
    while i < n
        invariant
            n == data@.len(),
            i <= n,
            data_issue(data@) == data_entries_issue(data@, i as int),
        decreases n - i,
    {
        let entry = &data[i];
        match reject_reserved_extension_key(entry.0.as_str()) {
            Ok(()) => {},
            Err(e) => return Err(e),
        }
        match validate_extension_key_length(&entry.0) {
            Ok(()) => {},
            Err(e) => return Err(e),
        }
        match validate_json_value_depth_and_keys(&entry.1, 1) {
            Ok(()) => {},
            Err(e) => return Err(e),
        }
        i = i + 1;
    }
    Ok(())
}

/// The key of `data` that first repeats an earlier key, scanning from
/// index `j`.
pub open spec fn first_duplicate_from(data: Seq<(String, ExtValue)>, j: int) -> Option<Seq<char>>
    decreases data.len() - j,
{
    if j < 0 || j >= data.len() {
        None
    } else if exists|i: int| 0 <= i < j && #[trigger] data[i].0@ == data[j].0@ {
        Some(data[j].0@)
    } else {
        first_duplicate_from(data, j + 1)
    }
}

/// No key occurs twice.
pub open spec fn keys_unique(data: Seq<(String, ExtValue)>) -> bool {
    forall|i: int, j: int| 0 <= i < j < data.len() ==> data[i].0@ != data[j].0@
}

proof fn lemma_first_duplicate_none(data: Seq<(String, ExtValue)>, j: int)
    requires
        0 <= j <= data.len(),
        forall|a: int, b: int| 0 <= a < b < j ==> data[a].0@ != data[b].0@,
        first_duplicate_from(data, j) is None,
    ensures
        keys_unique(data),
    decreases data.len() - j,
{
    if j < data.len() {
        assert(!exists|i: int| 0 <= i < j && #[trigger] data[i].0@ == data[j].0@);
        lemma_first_duplicate_none(data, j + 1);
    }
}

fn find_duplicate_key(data: &Vec<(String, ExtValue)>) -> (r: Option<String>)
    ensures
        r is None ==> keys_unique(data@),
        r matches Some(k) ==> first_duplicate_from(data@, 0) == Some(k@),
        r is None ==> first_duplicate_from(data@, 0) is None,
{
    let n = data.len();
    let mut j: usize = 0;
    while j < n
        invariant
            n == data@.len(),
            j <= n,
            first_duplicate_from(data@, 0) == first_duplicate_from(data@, j as int),
            forall|a: int, b: int| 0 <= a < b < j ==> data@[a].0@ != data@[b].0@,
        decreases n - j,
    {
        let mut i: usize = 0;
        while i < j
            invariant
                n == data@.len(),
                i <= j < n,
                first_duplicate_from(data@, 0) == first_duplicate_from(data@, j as int),
                forall|a: int, b: int| 0 <= a < b < j ==> data@[a].0@ != data@[b].0@,
                forall|a: int| 0 <= a < i ==> data@[a].0@ != data@[j as int].0@,
            decreases j - i,
        {
            if str_eq(data[i].0.as_str(), data[j].0.as_str()) {
                assert(data@[i as int].0@ == data@[j as int].0@);
                return Some(data[j].0.clone());
            }
            i = i + 1;
        }
        j = j + 1;
    }
    proof {
        lemma_first_duplicate_none(data@, n as int);
    }
    None
}

/// What an extension value holds, its texts as character sequences.
pub enum ExtView {
    /// `null`.
    Null,
    /// `true` / `false`.
    Bool(bool),
    /// A number, as its JSON text.
    Number(Seq<char>),
    /// A string.
    Text(Seq<char>),
    /// An array.
    Array(Seq<ExtView>),
    /// An object, as its entries in order.
    Object(Seq<(Seq<char>, ExtView)>),
}

/// The view of an extension value.
pub open spec fn ext_view(v: ExtValue) -> ExtView
    decreases v,
{
    match v {
        ExtValue::Null => ExtView::Null,
        ExtValue::Bool(b) => ExtView::Bool(b),
        ExtValue::Number(t) => ExtView::Number(t@),
        ExtValue::String(t) => ExtView::Text(t@),
        ExtValue::Array(xs) => {
            proof {
                assert(decreases_to!(v => v->Array_0));
                assert(decreases_to!(v->Array_0 => v->Array_0@));
            }
            ExtView::Array(values_view(xs@))
        },
        ExtValue::Object(es) => {
            proof {
                assert(decreases_to!(v => v->Object_0));
                assert(decreases_to!(v->Object_0 => v->Object_0@));
            }
            ExtView::Object(entries_view(es@))
        },
    }
}

/// The views of a sequence of extension values.
pub open spec fn values_view(s: Seq<ExtValue>) -> Seq<ExtView>
    decreases s,
{
    if s.len() == 0 {
        Seq::empty()
    } else {
        proof {
            assert(decreases_to!(s => s[s.len() - 1]));
            assert(decreases_to!(s => s.subrange(0, s.len() - 1)));
        }
        values_view(s.drop_last()).push(ext_view(s.last()))
    }
}

/// The views of a sequence of keyed extension entries.
pub open spec fn entries_view(s: Seq<(String, ExtValue)>) -> Seq<(Seq<char>, ExtView)>
    decreases s,
{
    if s.len() == 0 {
        Seq::empty()
    } else {
        proof {
            assert(decreases_to!(s => s[s.len() - 1]));
            assert(decreases_to!(s[s.len() - 1] => s[s.len() - 1].1));
            assert(decreases_to!(s => s.subrange(0, s.len() - 1)));
        }
        entries_view(s.drop_last()).push((s.last().0@, ext_view(s.last().1)))
    }
}

/// The length of `serde_json::to_vec` of the JSON object holding
/// `entries` (`usize::MAX` when serialization fails).
pub uninterp spec fn json_object_encoded_len(entries: Seq<(Seq<char>, ExtView)>) -> nat;

/// The wire envelope of extensions: `version` first, then the data
/// entries in order.
pub open spec fn envelope_view(version: Seq<char>, data: Seq<(String, ExtValue)>) -> Seq<
    (Seq<char>, ExtView),
> {
    seq![("version"@, ExtView::Text(version))] + entries_view(data)
}

/// The encoded length of the envelope of `version` and `data`.
pub open spec fn extensions_encoded_len(version: Seq<char>, data: Seq<(String, ExtValue)>) -> nat {
    json_object_encoded_len(envelope_view(version, data))
}

/// serde_json's dynamic JSON value, carried opaquely.
#[verifier::external_type_specification]
#[verifier::external_body]
pub struct ExJsonValue(serde_json::Value);

/// Builds `serde_json::Value::Null`.
#[verifier::external_body]
fn json_null() -> serde_json::Value {
    serde_json::Value::Null
}

/// Builds `serde_json::Value::Bool(b)`.
#[verifier::external_body]
fn json_bool(b: bool) -> serde_json::Value {
    serde_json::Value::Bool(b)
}

/// Calls `serde_json::from_str` on number text, giving the JSON number it
/// spells (`Null` when the text is not JSON).
#[verifier::external_body]
fn json_number(text: &str) -> serde_json::Value {
    serde_json::from_str(text).unwrap_or(serde_json::Value::Null)
}

/// Builds `serde_json::Value::String` holding `text`.
#[verifier::external_body]
fn json_string(text: &str) -> serde_json::Value {
    serde_json::Value::String(text.to_owned())
}

/// Builds `serde_json::Value::Array` from `items`.
#[verifier::external_body]
fn json_array(items: Vec<serde_json::Value>) -> serde_json::Value {
    serde_json::Value::Array(items)
}

/// Builds `serde_json::Value::Object` from `pairs` (collected into
/// serde_json's map).
#[verifier::external_body]
fn json_object(pairs: Vec<(String, serde_json::Value)>) -> serde_json::Value {
    serde_json::Value::Object(pairs.into_iter().collect())
}

/// The `serde_json::Value` an extension value stands for, node by node.
fn ext_to_json(v: &ExtValue) -> serde_json::Value
    decreases v,
{
    match v {
        ExtValue::Null => json_null(),
        ExtValue::Bool(b) => json_bool(*b),
        ExtValue::Number(t) => json_number(t.as_str()),
        ExtValue::String(t) => json_string(t.as_str()),
        ExtValue::Array(xs) => {
            let mut out: Vec<serde_json::Value> = Vec::new();
            let mut i: usize = 0;
            while i < xs.len()
                invariant
                    i <= xs@.len(),
                    *v == ExtValue::Array(*xs),
                decreases xs@.len() - i,
            {
                proof {
                    assert(decreases_to!(*v => (*v)->Array_0));
                    assert(decreases_to!(*xs => xs@));
                    assert(decreases_to!(xs@ => xs@[i as int]));
                }
                out.push(ext_to_json(&xs[i]));
                i = i + 1;
            }
            json_array(out)
        },
        ExtValue::Object(es) => {
            let mut out: Vec<(String, serde_json::Value)> = Vec::new();
            let mut i: usize = 0;
            while i < es.len()
                invariant
                    i <= es@.len(),
                    *v == ExtValue::Object(*es),
                decreases es@.len() - i,
            {
                proof {
                    assert(decreases_to!(*v => (*v)->Object_0));
                    assert(decreases_to!(*es => es@));
                    assert(decreases_to!(es@ => es@[i as int]));
                    assert(decreases_to!(es@[i as int] => es@[i as int].1));
                }
                let value = ext_to_json(&es[i].1);
                out.push((owned(es[i].0.as_str()), value));
                i = i + 1;
            }
            json_object(out)
        },
    }
}

/// An owned copy of an extension value.
fn copy_ext(v: &ExtValue) -> (r: ExtValue)
    ensures
        ext_view(r) == ext_view(*v),
    decreases v,
{
    match v {
        ExtValue::Null => ExtValue::Null,
        ExtValue::Bool(b) => ExtValue::Bool(*b),
        ExtValue::Number(t) => ExtValue::Number(owned(t.as_str())),
        ExtValue::String(t) => ExtValue::String(owned(t.as_str())),
        ExtValue::Array(xs) => {
            let mut out: Vec<ExtValue> = Vec::new();
            let mut i: usize = 0;
            while i < xs.len()
                invariant
                    i <= xs@.len(),
                    *v == ExtValue::Array(*xs),
                    values_view(out@) == values_view(xs@.take(i as int)),
                decreases xs@.len() - i,
            {
                proof {
                    assert(decreases_to!(*v => (*v)->Array_0));
                    assert(decreases_to!(*xs => xs@));
                    assert(decreases_to!(xs@ => xs@[i as int]));
                }
                let x = copy_ext(&xs[i]);
                let ghost before = out@;
                out.push(x);
                proof {
                    assert(out@.drop_last() =~= before);
                    assert(xs@.take(i + 1).drop_last() =~= xs@.take(i as int));
                }
                i = i + 1;
            }
            proof {
                assert(xs@.take(xs@.len() as int) =~= xs@);
            }
            ExtValue::Array(out)
        },
        ExtValue::Object(es) => {
            let mut out: Vec<(String, ExtValue)> = Vec::new();
            let mut i: usize = 0;
            while i < es.len()
                invariant
                    i <= es@.len(),
                    *v == ExtValue::Object(*es),
                    entries_view(out@) == entries_view(es@.take(i as int)),
                decreases es@.len() - i,
            {
                proof {
                    assert(decreases_to!(*v => (*v)->Object_0));
                    assert(decreases_to!(*es => es@));
                    assert(decreases_to!(es@ => es@[i as int]));
                    assert(decreases_to!(es@[i as int] => es@[i as int].1));
                }
                let x = copy_ext(&es[i].1);
                let k = owned(es[i].0.as_str());
                let ghost before = out@;
                out.push((k, x));
                proof {
                    assert(out@.drop_last() =~= before);
                    assert(es@.take(i + 1).drop_last() =~= es@.take(i as int));
                }
                i = i + 1;
            }
            proof {
                assert(es@.take(es@.len() as int) =~= es@);
            }
            ExtValue::Object(out)
        },
    }
}

/// The wire envelope of extensions as library data: the `version` entry
/// first, then a copy of every data entry in order.
fn extensions_envelope(version: &GroupExtensionsVersion, data: &Vec<(String, ExtValue)>) -> (e: Vec<
    (String, ExtValue),
>)
    ensures
        entries_view(e@) == envelope_view(version@, data@),
{
    let mut e: Vec<(String, ExtValue)> = Vec::new();
    e.push((owned("version"), ExtValue::String(owned(version.as_str()))));
    let ghost head = seq![("version"@, ExtView::Text(version@))];
    proof {
        reveal_strlit("version");
        assert(e@.drop_last() =~= Seq::<(String, ExtValue)>::empty());
        assert(entries_view(e@.drop_last()) =~= Seq::<(Seq<char>, ExtView)>::empty());
        assert(e@.last().0@ == "version"@);
        assert(ext_view(e@.last().1) == ExtView::Text(version@));
        assert(entries_view(e@) =~= head);
        assert(data@.take(0) =~= Seq::<(String, ExtValue)>::empty());
        assert(head + entries_view(data@.take(0)) =~= head);
    }
    let mut i: usize = 0;
    while i < data.len()
        invariant
            i <= data@.len(),
            head == seq![("version"@, ExtView::Text(version@))],
            entries_view(e@) == head + entries_view(data@.take(i as int)),
        decreases data@.len() - i,
    {
        let x = copy_ext(&data[i].1);
        let k = owned(data[i].0.as_str());
        let ghost before = e@;
        e.push((k, x));
        proof {
            assert(e@.drop_last() =~= before);
            assert(data@.take(i + 1).drop_last() =~= data@.take(i as int));
            assert(head + entries_view(data@.take(i + 1)) =~= (head + entries_view(
                data@.take(i as int),
            )).push((data@[i as int].0@, ext_view(data@[i as int].1))));
        }
        i = i + 1;
    }
    proof {
        assert(data@.take(data@.len() as int) =~= data@);
    }
    e
}

/// Calls `serde_json::to_vec` on the JSON object holding `entries` and
/// returns the byte length, or `usize::MAX` when serialization fails. The
/// contract names the result; it states no bound on it.
#[verifier::external_body]
fn encoded_object_len(entries: &Vec<(String, ExtValue)>) -> (n: usize)
    ensures
        n as nat == json_object_encoded_len(entries_view(entries@)),
{
    let object: serde_json::Map<String, serde_json::Value> = entries
        .iter()
        .map(|(k, v)| (k.clone(), ext_to_json(v)))
        .collect();
    serde_json::to_vec(&object).map_or(usize::MAX, |bytes| bytes.len())
}

/// The envelope encodes within [`MAX_GROUP_EXTENSIONS_ENCODED_BYTES`].
pub open spec fn encoded_within_bound(version: Seq<char>, data: Seq<(String, ExtValue)>) -> bool {
    extensions_encoded_len(version, data) <= MAX_GROUP_EXTENSIONS_ENCODED_BYTES
}

/// Checks the encoded size of the envelope.
pub fn validate_extension_encoded_bytes(
    version: &GroupExtensionsVersion,
    data: &Vec<(String, ExtValue)>,
) -> (r: Result<(), GroupExtensionsError>)
    ensures
        r is Ok <==> encoded_within_bound(version@, data@),
        r matches Err(e) ==> e matches GroupExtensionsError::EncodedBytesExceeded { max, actual }
            && max == MAX_GROUP_EXTENSIONS_ENCODED_BYTES && actual as nat
            == extensions_encoded_len(version@, data@),
{
    let envelope = extensions_envelope(version, data);
    let actual = encoded_object_len(&envelope);
    if actual > MAX_GROUP_EXTENSIONS_ENCODED_BYTES {
        return Err(
            GroupExtensionsError::EncodedBytesExceeded {
                max: MAX_GROUP_EXTENSIONS_ENCODED_BYTES,
                actual,
            },
        );
    }
    Ok(())
}

/// The index of the entry with key `key`, if any.
pub open spec fn key_index(data: Seq<(String, ExtValue)>, key: Seq<char>) -> Option<int> {
    if exists|i: int| 0 <= i < data.len() && #[trigger] data[i].0@ == key {
        Some(choose|i: int| 0 <= i < data.len() && #[trigger] data[i].0@ == key)
    } else {
        None
    }
}

/// Typed extension envelope for group registration: a version plus data
/// entries with unique, non-reserved keys within every bound except the
/// encoded size, which [`GroupExtensions::validate_wire_invariants`]
/// checks.
#[derive(Debug, PartialEq)]
pub struct GroupExtensions {
    version: GroupExtensionsVersion,
    data: Vec<(String, ExtValue)>,
}

impl GroupExtensions {
    /// Unique keys and no data issue.
    #[verifier::type_invariant]
    pub open spec fn wf(self) -> bool {
        keys_unique(self.data_spec()) && data_issue(self.data_spec()) is None
    }

    /// The version.
    pub closed spec fn version_spec(self) -> Seq<char> {
        self.version@
    }

    /// The data entries, in order.
    pub closed spec fn data_spec(self) -> Seq<(String, ExtValue)> {
        self.data@
    }

    /// An envelope with `version` and no data.
    pub fn new(version: GroupExtensionsVersion) -> (r: Self)
        ensures
            r.version_spec() == version@,
            r.data_spec().len() == 0,
    {
        GroupExtensions { version, data: Vec::new() }
    }

    /// Construct extensions from explicit version and data: the first
    /// repeated key is `DuplicateKey`; then the data bounds, then the
    /// encoded size are checked.
    pub fn with_data(version: GroupExtensionsVersion, data: Vec<(String, ExtValue)>) -> (r:
        Result<Self, GroupExtensionsError>)
        ensures
            r is Ok <==> (keys_unique(data@) && data_issue(data@) is None && encoded_within_bound(
                version@,
                data@,
            )),
            r matches Ok(x) ==> x.version_spec() == version@ && x.data_spec() == data@,
            r matches Err(e) ==> match first_duplicate_from(data@, 0) {
                Some(k) => e matches GroupExtensionsError::DuplicateKey(d) && d@ == k,
                None => match data_issue(data@) {
                    Some(i) => reports_issue(e, i),
                    None => e matches GroupExtensionsError::EncodedBytesExceeded { max, actual }
                        && max == MAX_GROUP_EXTENSIONS_ENCODED_BYTES && actual as nat
                        == extensions_encoded_len(version@, data@),
                },
            },
    {
        match find_duplicate_key(&data) {
            Some(k) => {
                proof {
                    if keys_unique(data@) {
                        lemma_unique_has_no_duplicate(data@, 0);
                    }
                }
                return Err(GroupExtensionsError::DuplicateKey(k));
            },
            None => {},
        }
        match validate_extension_data_invariants(&data) {
            Ok(()) => {},
            Err(e) => return Err(e),
        }
        match validate_extension_encoded_bytes(&version, &data) {
            Ok(()) => {},
            Err(e) => return Err(e),
        }
        Ok(GroupExtensions { version, data })
    }

    /// The version.
    pub fn version(&self) -> (v: &GroupExtensionsVersion)
        ensures
            v@ == self.version_spec(),
    {
        &self.version
    }

    /// The data entries, in order.
    pub fn data(&self) -> (d: &Vec<(String, ExtValue)>)
        ensures
            d@ == self.data_spec(),
    {
        &self.data
    }

    /// Returns `true` for the reserved key.
    pub fn is_reserved_key(key: &str) -> (r: bool)
        ensures
            r == is_reserved_key(key@),
    {
        is_reserved_extension_key(key)
    }

    /// Insert one extension key/value, replacing the value under an equal
    /// key. The reserved key is refused. The data is then checked as a
    /// whole (bounds, then encoded size); on failure the envelope is left
    /// unchanged. Returns the replaced value.
    pub fn insert(&mut self, key: String, value: ExtValue) -> (r: Result<
        Option<ExtValue>,
        GroupExtensionsError,
    >)
        ensures
            final(self).version_spec() == old(self).version_spec(),
            is_reserved_key(key@) ==> (r matches Err(GroupExtensionsError::ReservedKey(k)) && k@
                == key@),
            !is_reserved_key(key@) ==> {
                let next = data_with(old(self).data_spec(), key, value);
                &&& r is Ok <==> (data_issue(next) is None && encoded_within_bound(
                    old(self).version_spec(),
                    next,
                ))
                &&& r is Ok <==> ({
                    &&& next.len() + 1 <= MAX_GROUP_EXTENSIONS_PROPERTIES
                    &&& forall|k: int|
                        0 <= k < next.len() ==> !is_reserved_key(#[trigger] next[k].0@)
                            && next[k].0@.len() <= MAX_GROUP_EXTENSIONS_KEY_CHARS && value_issue(
                            next[k].1,
                            1,
                        ) is None
                    &&& encoded_within_bound(old(self).version_spec(), next)
                })
                &&& next.len() == old(self).data_spec().len() + (if data_map(
                    old(self).data_spec(),
                ).contains_key(key@) {
                    0int
                } else {
                    1int
                })
                &&& r matches Err(e) ==> match data_issue(next) {
                    Some(i) => reports_issue(e, i),
                    None => e matches GroupExtensionsError::EncodedBytesExceeded { max, actual }
                        && max == MAX_GROUP_EXTENSIONS_ENCODED_BYTES && actual as nat
                        == extensions_encoded_len(old(self).version_spec(), next),
                }
                &&& r is Ok ==> data_map(final(self).data_spec()) == data_map(
                    old(self).data_spec(),
                ).insert(key@, value)
                &&& r matches Ok(previous) ==> final(self).data_spec() == next && previous == match key_index(
                    old(self).data_spec(),
                    key@,
                ) {
                    Some(i) => Some(old(self).data_spec()[i].1),
                    None => None,
                }
            },
            r is Err ==> final(self).data_spec() == old(self).data_spec(),
    {
        proof {
            use_type_invariant(&*self);
        }
        if is_reserved_extension_key(key.as_str()) {
            return Err(GroupExtensionsError::ReservedKey(key));
        }
        let ghost old_data = self.data@;
        let mut data: Vec<(String, ExtValue)> = Vec::new();
        std::mem::swap(&mut data, &mut self.data);
        let found = find_key(&data, key.as_str());
        let ghost next = data_with(old_data, key, value);
        proof {
            lemma_insert_is_map_update(old_data, key, value);
            lemma_data_issue_none_iff_bounds(next);
        }
        let mut previous: Option<(String, ExtValue)> = None;
        match found {
            Some(i) => {
                let old_entry = data.remove(i);
                data.insert(i, (key, value));
                previous = Some(old_entry);
                assert(data@ =~= next);
            },
            None => {
                data.push((key, value));
                assert(data@ =~= next);
            },
        }
        let checked = match validate_extension_data_invariants(&data) {
            Ok(()) => validate_extension_encoded_bytes(&self.version, &data),
            Err(e) => Err(e),
        };
        match checked {
            Ok(()) => {
                self.data = data;
                match previous {
                    Some(entry) => Ok(Some(entry.1)),
                    None => Ok(None),
                }
            },
            Err(e) => {
                match found {
                    Some(i) => {
                        let _ = data.remove(i);
                        match previous {
                            Some(entry) => data.insert(i, entry),
                            None => {},
                        }
                    },
                    None => {
                        let _ = data.pop();
                    },
                }
                assert(data@ =~= old_data);
                self.data = data;
                Err(e)
            },
        }
    }

    /// Remove the value under `key` and return it. The reserved key is
    /// never removed.
    pub fn remove(&mut self, key: &str) -> (r: Option<ExtValue>)
        ensures
            final(self).version_spec() == old(self).version_spec(),
            is_reserved_key(key@) ==> r is None && final(self).data_spec() == old(self).data_spec(),
            !is_reserved_key(key@) ==> match key_index(old(self).data_spec(), key@) {
                Some(i) => r == Some(old(self).data_spec()[i].1) && final(self).data_spec()
                    == old(self).data_spec().remove(i),
                None => r is None && final(self).data_spec() == old(self).data_spec(),
            },
    {
        proof {
            use_type_invariant(&*self);
        }
        if is_reserved_extension_key(key) {
            return None;
        }
        let ghost old_data = self.data@;
        match find_key(&self.data, key) {
            None => None,
            Some(i) => {
                let mut data: Vec<(String, ExtValue)> = Vec::new();
                std::mem::swap(&mut data, &mut self.data);
                let entry = data.remove(i);
                proof {
                    lemma_remove_keeps_valid(old_data, i as int);
                }
                self.data = data;
                Some(entry.1)
            },
        }
    }

    /// Checks what serialization requires of the envelope: its data
    /// bounds (always met) and its encoded size.
    pub fn validate_wire_invariants(&self) -> (r: Result<(), GroupExtensionsError>)
        ensures
            r is Ok <==> encoded_within_bound(self.version_spec(), self.data_spec()),
            r matches Err(e) ==> e matches GroupExtensionsError::EncodedBytesExceeded {
                max,
                actual,
            } && max == MAX_GROUP_EXTENSIONS_ENCODED_BYTES && actual as nat
                == extensions_encoded_len(self.version_spec(), self.data_spec()),
    {
        proof {
            use_type_invariant(self);
        }
        match validate_extension_data_invariants(&self.data) {
            Ok(()) => {},
            Err(e) => return Err(e),
        }
        validate_extension_encoded_bytes(&self.version, &self.data)
    }
}

proof fn lemma_unique_has_no_duplicate(data: Seq<(String, ExtValue)>, j: int)
    requires
        keys_unique(data),
        0 <= j,
    ensures
        first_duplicate_from(data, j) is None,
    decreases data.len() - j,
{
    if j < data.len() {
        assert(!exists|i: int| 0 <= i < j && #[trigger] data[i].0@ == data[j].0@);
        lemma_unique_has_no_duplicate(data, j + 1);
    }
}


/// `data` with `key` set to `value`: the entry under an equal key is
/// replaced in place, else the entry is appended.
pub open spec fn data_with(data: Seq<(String, ExtValue)>, key: String, value: ExtValue) -> Seq<
    (String, ExtValue),
> {
    match key_index(data, key@) {
        Some(i) => data.update(i, (key, value)),
        None => data.push((key, value)),
    }
}

fn find_key(data: &Vec<(String, ExtValue)>, key: &str) -> (r: Option<usize>)
    requires
        keys_unique(data@),
    ensures
        match r {
            Some(i) => i < data@.len() && data@[i as int].0@ == key@ && key_index(data@, key@)
                == Some(i as int),
            None => key_index(data@, key@) is None,
        },
{
    let mut i: usize = 0;
    while i < data.len()
        invariant
            i <= data@.len(),
            keys_unique(data@),
            forall|a: int| 0 <= a < i ==> #[trigger] data@[a].0@ != key@,
        decreases data@.len() - i,
    {
        if str_eq(data[i].0.as_str(), key) {
            proof {
                let c = choose|c: int| 0 <= c < data@.len() && #[trigger] data@[c].0@ == key@;
                if c != i {
                    if c < i {
                    } else {
                        assert(data@[i as int].0@ != data@[c].0@);
                    }
                }
            }
            return Some(i);
        }
        i = i + 1;
    }
    None
}

/// The issue of one top-level entry on its own.
pub open spec fn entry_issue(e: (String, ExtValue)) -> Option<ExtIssue> {
    if is_reserved_key(e.0@) {
        Some((ExtIssueKind::Reserved, e.0@, 0, 0))
    } else {
        match key_issue(e.0@) {
            Some(x) => Some(x),
            None => value_issue(e.1, 1),
        }
    }
}

proof fn lemma_entries_none_iff(data: Seq<(String, ExtValue)>, i: int)
    requires
        0 <= i <= data.len(),
    ensures
        data_entries_issue(data, i) is None <==> forall|k: int|
            i <= k < data.len() ==> entry_issue(#[trigger] data[k]) is None,
    decreases data.len() - i,
{
    if i < data.len() {
        lemma_entries_none_iff(data, i + 1);
    }
}

proof fn lemma_remove_keeps_valid(data: Seq<(String, ExtValue)>, i: int)
    requires
        0 <= i < data.len(),
        keys_unique(data),
        data_issue(data) is None,
    ensures
        keys_unique(data.remove(i)),
        data_issue(data.remove(i)) is None,
{
    let r = data.remove(i);
    lemma_entries_none_iff(data, 0);
    lemma_entries_none_iff(r, 0);
    assert forall|k: int| 0 <= k < r.len() implies entry_issue(#[trigger] r[k]) is None by {
        if k < i {
            assert(r[k] == data[k]);
        } else {
            assert(r[k] == data[k + 1]);
        }
    }
    assert forall|a: int, b: int| 0 <= a < b < r.len() implies r[a].0@ != r[b].0@ by {
        let a2 = if a < i {
            a
        } else {
            a + 1
        };
        let b2 = if b < i {
            b
        } else {
            b + 1
        };
        assert(r[a] == data[a2]);
        assert(r[b] == data[b2]);
    }
}

/// The data entries as a map from key to value.
pub open spec fn data_map(data: Seq<(String, ExtValue)>) -> Map<Seq<char>, ExtValue> {
    Map::new(|k: Seq<char>| key_index(data, k) is Some, |k: Seq<char>| data[key_index(data, k).unwrap()].1)
}

proof fn lemma_key_index_of_entry(data: Seq<(String, ExtValue)>, j: int)
    requires
        keys_unique(data),
        0 <= j < data.len(),
    ensures
        key_index(data, data[j].0@) == Some(j),
{
    let k = data[j].0@;
    assert(data[j].0@ == k);
    let c = choose|i: int| 0 <= i < data.len() && #[trigger] data[i].0@ == k;
    if c < j {
        assert(data[c].0@ != data[j].0@);
    } else if c > j {
        assert(data[j].0@ != data[c].0@);
    }
}

/// Inserting is a map update: when the keys of `data` are unique, the keys
/// of `data_with(data, key, value)` are unique too, its map is `data`'s
/// map with `key` bound to `value`, and it holds one more entry exactly
/// when `key` was absent.
pub proof fn lemma_insert_is_map_update(data: Seq<(String, ExtValue)>, key: String, value: ExtValue)
    requires
        keys_unique(data),
    ensures
        keys_unique(data_with(data, key, value)),
        data_map(data_with(data, key, value)) == data_map(data).insert(key@, value),
        data_with(data, key, value).len() == data.len() + (if data_map(data).contains_key(key@) {
            0int
        } else {
            1int
        }),
{
    let next = data_with(data, key, value);
    match key_index(data, key@) {
        Some(i) => {
            assert(0 <= i < data.len() && data[i].0@ == key@);
            assert forall|a: int, b: int| 0 <= a < b < next.len() implies next[a].0@ != next[b].0@ by {
                if a == i {
                    assert(next[b] == data[b]);
                } else if b == i {
                    assert(next[a] == data[a]);
                } else {
                    assert(next[a] == data[a]);
                    assert(next[b] == data[b]);
                }
            }
        },
        None => {
            assert forall|a: int, b: int| 0 <= a < b < next.len() implies next[a].0@ != next[b].0@ by {
                assert(next[a] == data[a]);
                if b == data.len() {
                    if data[a].0@ == key@ {
                        assert(exists|i: int| 0 <= i < data.len() && #[trigger] data[i].0@ == key@);
                    }
                } else {
                    assert(next[b] == data[b]);
                }
            }
        },
    }
    assert forall|k: Seq<char>| #[trigger] data_map(next).contains_key(k) <==> data_map(data).insert(key@, value).contains_key(k) by {
        if data_map(data).contains_key(k) {
            let j = key_index(data, k).unwrap();
            assert(0 <= j < data.len() && data[j].0@ == k);
            assert(next[j].0@ == k);
        }
        if data_map(next).contains_key(k) {
            let j = key_index(next, k).unwrap();
            assert(0 <= j < next.len() && next[j].0@ == k);
            if k != key@ {
                assert(next[j] == data[j]);
            }
        }
        if k == key@ {
            let j = match key_index(data, key@) {
                Some(i) => i,
                None => data.len() as int,
            };
            assert(next[j].0@ == key@);
        }
    }
    assert forall|k: Seq<char>| #[trigger] data_map(next).contains_key(k) implies data_map(next)[k] == data_map(data).insert(key@, value)[k] by {
        let j = key_index(next, k).unwrap();
        assert(0 <= j < next.len() && next[j].0@ == k);
        lemma_key_index_of_entry(next, j);
        if k == key@ {
            let i = match key_index(data, key@) {
                Some(i) => i,
                None => data.len() as int,
            };
            assert(next[i].0@ == key@);
            lemma_key_index_of_entry(next, i);
        } else {
            assert(next[j] == data[j]);
            lemma_key_index_of_entry(data, j);
        }
    }
    assert(data_map(next) =~= data_map(data).insert(key@, value));
}

/// The data bounds spelled out: extension data has no issue exactly when,
/// counting `version`, it has at most [`MAX_GROUP_EXTENSIONS_PROPERTIES`]
/// properties and every entry has a key other than `version` of at most
/// [`MAX_GROUP_EXTENSIONS_KEY_CHARS`] characters and a value within the
/// nesting and nested-key bounds.
pub proof fn lemma_data_issue_none_iff_bounds(data: Seq<(String, ExtValue)>)
    ensures
        data_issue(data) is None <==> (data.len() + 1 <= MAX_GROUP_EXTENSIONS_PROPERTIES && forall|
            k: int,
        |
            0 <= k < data.len() ==> !is_reserved_key(#[trigger] data[k].0@) && data[k].0@.len()
                <= MAX_GROUP_EXTENSIONS_KEY_CHARS && value_issue(data[k].1, 1) is None),
{
    lemma_entries_none_iff(data, 0);
    if data.len() + 1 <= MAX_GROUP_EXTENSIONS_PROPERTIES {
        assert forall|k: int| 0 <= k < data.len() implies (entry_issue(#[trigger] data[k]) is None
            <==> (!is_reserved_key(data[k].0@) && data[k].0@.len() <= MAX_GROUP_EXTENSIONS_KEY_CHARS
            && value_issue(data[k].1, 1) is None)) by {}
    }
}

/// How deeply `v` nests: a scalar counts one level; an array or an object
/// counts one level more than its deepest item or entry value (one when
/// empty).
pub open spec fn ext_depth(v: ExtValue) -> nat
    decreases v, 0nat,
{
    match v {
        ExtValue::Object(entries) => 1 + entries_depth(entries@, 0),
        ExtValue::Array(items) => 1 + items_depth(items@, 0),
        _ => 1,
    }
}

/// The deepest nesting among the values of `es[i..]` (zero when none).
pub open spec fn entries_depth(es: Seq<(String, ExtValue)>, i: int) -> nat
    decreases es, es.len() - i,
{
    if i < 0 || i >= es.len() {
        0
    } else {
        let a = ext_depth(es[i].1);
        let b = entries_depth(es, i + 1);
        if a >= b {
            a
        } else {
            b
        }
    }
}

/// The deepest nesting among `xs[i..]` (zero when none).
pub open spec fn items_depth(xs: Seq<ExtValue>, i: int) -> nat
    decreases xs, xs.len() - i,
{
    if i < 0 || i >= xs.len() {
        0
    } else {
        let a = ext_depth(xs[i]);
        let b = items_depth(xs, i + 1);
        if a >= b {
            a
        } else {
            b
        }
    }
}

proof fn lemma_entries_depth_bound(es: Seq<(String, ExtValue)>, i: int, depth: nat)
    requires
        depth <= MAX_GROUP_EXTENSIONS_NESTED_DEPTH,
    ensures
        entries_issue(es, i, depth) is None ==> depth + 1 + entries_depth(es, i)
            <= MAX_GROUP_EXTENSIONS_NESTED_DEPTH + 1,
    decreases es, es.len() - i,
{
    if 0 <= i < es.len() {
        lemma_value_depth_bound(es[i].1, depth + 1);
        lemma_entries_depth_bound(es, i + 1, depth);
    }
}

proof fn lemma_items_depth_bound(xs: Seq<ExtValue>, i: int, depth: nat)
    requires
        depth <= MAX_GROUP_EXTENSIONS_NESTED_DEPTH,
    ensures
        items_issue(xs, i, depth) is None ==> depth + 1 + items_depth(xs, i)
            <= MAX_GROUP_EXTENSIONS_NESTED_DEPTH + 1,
    decreases xs, xs.len() - i,
{
    if 0 <= i < xs.len() {
        lemma_value_depth_bound(xs[i], depth + 1);
        lemma_items_depth_bound(xs, i + 1, depth);
    }
}

/// The depth bound counts every level of nesting, objects and arrays
/// alike: a value found at depth `depth` passes the walk only if its
/// deepest scalar sits at depth at most
/// [`MAX_GROUP_EXTENSIONS_NESTED_DEPTH`], that is
/// `depth + ext_depth(v) - 1 <= MAX_GROUP_EXTENSIONS_NESTED_DEPTH`.
pub proof fn lemma_value_depth_bound(v: ExtValue, depth: nat)
    ensures
        value_issue(v, depth) is None ==> depth + ext_depth(v)
            <= MAX_GROUP_EXTENSIONS_NESTED_DEPTH + 1,
    decreases v, 0nat,
{
    if depth <= MAX_GROUP_EXTENSIONS_NESTED_DEPTH {
        match v {
            ExtValue::Object(entries) => lemma_entries_depth_bound(entries@, 0, depth),
            ExtValue::Array(items) => lemma_items_depth_bound(items@, 0, depth),
            _ => {},
        }
    }
}

/// Accepted extension data nests at most
/// [`MAX_GROUP_EXTENSIONS_NESTED_DEPTH`] levels deep: every top-level
/// value, counted from depth one, has a depth within the bound.
pub proof fn lemma_accepted_data_within_depth(data: Seq<(String, ExtValue)>)
    requires
        data_issue(data) is None,
    ensures
        forall|k: int|
            0 <= k < data.len() ==> #[trigger] ext_depth(data[k].1)
                <= MAX_GROUP_EXTENSIONS_NESTED_DEPTH,
{
    lemma_data_issue_none_iff_bounds(data);
    assert forall|k: int| 0 <= k < data.len() implies #[trigger] ext_depth(data[k].1)
        <= MAX_GROUP_EXTENSIONS_NESTED_DEPTH by {
        assert(!is_reserved_key(data[k].0@));
        lemma_value_depth_bound(data[k].1, 1);
    }
}

} // verus!
