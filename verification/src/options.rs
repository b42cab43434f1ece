//! Paginated option lists and their rows.

use vstd::prelude::*;

verus! {

/// A displayable value paired with its absolute index in the unpaged
/// source list; the index is the stable identity used for checked-state
/// lookups.
#[derive(Clone, Debug, PartialEq, Eq)]
pub struct ListOption {
    /// Absolute index of this option in the full list.
    pub index: usize,
    /// The text shown for this option.
    pub value: String,
}

impl ListOption {
    pub fn new(index: usize, value: &str) -> (r: Self)
        ensures
            r.index == index,
            r.value@ == value@,
    {
        ListOption { index, value: value.to_owned() }
    }
}

/// A bounded window over an ordered option list.
#[derive(Clone, Debug, PartialEq, Eq)]
pub struct Page<T> {
    /// Whether this page starts at list index 0.
    pub first: bool,
    /// Whether this page ends at the list's final index.
    pub last: bool,
    /// The rows of this page, in order.
    pub content: Vec<T>,
    /// Index into `content` marking the highlighted row, if any.
    pub cursor: Option<usize>,
    /// Size of the full underlying list, used for index-prefix width.
    pub total: usize,
}

} // verus!
