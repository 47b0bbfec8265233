//! Bounded collection types for wire-level list constraints.

use crate::ipc::limits::{MAX_HISTORICAL_MESSAGES, MAX_SELF_IMPROVEMENT_LIST_ITEMS};
use crate::ipc::message::bounded_text::ListItemText;
use crate::ipc::message::shared::HistoricalMessage;
use crate::text::{decimal_seq, push_decimal, push_str};
use vstd::prelude::*;

verus! {

/// Error returned when a bounded collection exceeds its max length.
#[derive(Debug, Clone, Copy, PartialEq, Eq)]
pub struct BoundedCollectionError {
    /// Maximum allowed number of entries.
    pub max: usize,
    /// Actual number of entries supplied.
    pub actual: usize,
}

impl BoundedCollectionError {
    /// The display text: `collection length <actual> exceeds maximum <max>`.
    pub fn message(&self) -> (s: String)
        ensures
            s@ == "collection length "@ + decimal_seq(self.actual as nat) + " exceeds maximum "@
                + decimal_seq(self.max as nat),
    {
        let mut s = String::new();
        push_str(&mut s, "collection length ");
        push_decimal(&mut s, self.actual as u64);
        push_str(&mut s, " exceeds maximum ");
        push_decimal(&mut s, self.max as u64);
        s
    }
}

/// The messages of an `init` context or a `messages` follow-up: at most
/// 256 entries.
#[derive(Debug, PartialEq, Eq)]
pub struct HistoricalMessages(Vec<HistoricalMessage>);

impl View for HistoricalMessages {
    type V = Seq<HistoricalMessage>;

    closed spec fn view(&self) -> Seq<HistoricalMessage> {
        self.0@
    }
}

impl HistoricalMessages {
    /// Maximum allowed number of entries.
    pub const MAX_LEN: usize = MAX_HISTORICAL_MESSAGES;

    /// Never more than [`Self::MAX_LEN`] entries.
    #[verifier::type_invariant]
    pub open spec fn wf(self) -> bool {
        self@.len() <= MAX_HISTORICAL_MESSAGES
    }

    /// Construct a validated bounded collection.
    pub fn new(values: Vec<HistoricalMessage>) -> (r: Result<Self, BoundedCollectionError>)
        ensures
            r is Ok <==> values@.len() <= MAX_HISTORICAL_MESSAGES,
            r matches Ok(c) ==> c@ == values@,
            r matches Err(e) ==> e.max == MAX_HISTORICAL_MESSAGES && e.actual == values@.len(),
    {
        let actual = values.len();
        if actual > MAX_HISTORICAL_MESSAGES {
            return Err(BoundedCollectionError { max: MAX_HISTORICAL_MESSAGES, actual });
        }
        Ok(HistoricalMessages(values))
    }

    /// An empty collection.
    pub fn empty() -> (r: Self)
        ensures
            r@.len() == 0,
    {
        HistoricalMessages(Vec::new())
    }

    /// Number of items in the collection.
    pub fn len(&self) -> (n: usize)
        ensures
            n == self@.len(),
            n <= MAX_HISTORICAL_MESSAGES,
    {
        proof {
            use_type_invariant(self);
        }
        self.0.len()
    }

    /// Returns `true` when empty.
    pub fn is_empty(&self) -> (b: bool)
        ensures
            b == (self@.len() == 0),
    {
        self.0.len() == 0
    }

    /// Borrow as a slice.
    pub fn as_slice(&self) -> (s: &[HistoricalMessage])
        ensures
            s@ == self@,
    {
        self.0.as_slice()
    }

    /// Consume into the underlying vector.
    pub fn into_vec(self) -> (v: Vec<HistoricalMessage>)
        ensures
            v@ == self@,
    {
        self.0
    }
}

impl Clone for HistoricalMessages {
    fn clone(&self) -> (r: Self)
        ensures
            r@.len() == self@.len(),
    {
        proof {
            use_type_invariant(self);
        }
        HistoricalMessages(self.0.clone())
    }
}

impl Default for HistoricalMessages {
    fn default() -> (r: Self)
        ensures
            r@.len() == 0,
    {
        HistoricalMessages(Vec::new())
    }
}

/// Scope or acceptance-test list of a self-improvement dispatch: at most
/// 64 entries.
#[derive(Debug, PartialEq, Eq)]
pub struct SelfImprovementListItems(Vec<ListItemText>);

impl View for SelfImprovementListItems {
    type V = Seq<ListItemText>;

    closed spec fn view(&self) -> Seq<ListItemText> {
        self.0@
    }
}

impl SelfImprovementListItems {
    /// Maximum allowed number of entries.
    pub const MAX_LEN: usize = MAX_SELF_IMPROVEMENT_LIST_ITEMS;

    /// Never more than [`Self::MAX_LEN`] entries.
    #[verifier::type_invariant]
    pub open spec fn wf(self) -> bool {
        self@.len() <= MAX_SELF_IMPROVEMENT_LIST_ITEMS
    }

    /// Construct a validated bounded collection.
    pub fn new(values: Vec<ListItemText>) -> (r: Result<Self, BoundedCollectionError>)
        ensures
            r is Ok <==> values@.len() <= MAX_SELF_IMPROVEMENT_LIST_ITEMS,
            r matches Ok(c) ==> c@ == values@,
            r matches Err(e) ==> e.max == MAX_SELF_IMPROVEMENT_LIST_ITEMS && e.actual
                == values@.len(),
    {
        let actual = values.len();
        if actual > MAX_SELF_IMPROVEMENT_LIST_ITEMS {
            return Err(BoundedCollectionError { max: MAX_SELF_IMPROVEMENT_LIST_ITEMS, actual });
        }
        Ok(SelfImprovementListItems(values))
    }

    /// An empty collection.
    pub fn empty() -> (r: Self)
        ensures
            r@.len() == 0,
    {
        SelfImprovementListItems(Vec::new())
    }

    /// Number of items in the collection.
    pub fn len(&self) -> (n: usize)
        ensures
            n == self@.len(),
            n <= MAX_SELF_IMPROVEMENT_LIST_ITEMS,
    {
        proof {
            use_type_invariant(self);
        }
        self.0.len()
    }

    /// Returns `true` when empty.
    pub fn is_empty(&self) -> (b: bool)
        ensures
            b == (self@.len() == 0),
    {
        self.0.len() == 0
    }

    /// Borrow as a slice.
    pub fn as_slice(&self) -> (s: &[ListItemText])
        ensures
            s@ == self@,
    {
        self.0.as_slice()
    }

    /// Consume into the underlying vector.
    pub fn into_vec(self) -> (v: Vec<ListItemText>)
        ensures
            v@ == self@,
    {
        self.0
    }
}

impl Clone for SelfImprovementListItems {
    fn clone(&self) -> (r: Self)
        ensures
            r@.len() == self@.len(),
    {
        proof {
            use_type_invariant(self);
        }
        SelfImprovementListItems(self.0.clone())
    }
}

impl Default for SelfImprovementListItems {
    fn default() -> (r: Self)
        ensures
            r@.len() == 0,
    {
        SelfImprovementListItems(Vec::new())
    }
}

} // verus!
