use vstd::prelude::*;

verus! {

/// Why a card record could not be decoded.
#[derive(Debug, Clone, Copy, PartialEq, Eq, Structural)]
pub enum DecodeError {
    /// A requested bit window lies (partly) outside the buffer.
    OutOfRange,
    /// A tag field holds a value that has no known variant.
    UnsupportedVariant,
    /// A calendar value cannot be represented as an instant.
    InvalidCalendarValue,
}

/// The error of a record decode, if any: a buffer too short for the
/// record's layout comes first, then a tag without a variant, then a day and
/// time that no instant stands for.
pub open spec fn first_failure(fits: bool, tags_known: bool, dates_valid: bool) -> Option<DecodeError> {
    if !fits {
        Some(DecodeError::OutOfRange)
    } else if !tags_known {
        Some(DecodeError::UnsupportedVariant)
    } else if !dates_valid {
        Some(DecodeError::InvalidCalendarValue)
    } else {
        None
    }
}

/// A field stored twice, for one traveller and for a group: the group's
/// value wins unless it is zero.
pub open spec fn group_or_single(single: int, group: int) -> int {
    if group > 0 {
        group
    } else {
        single
    }
}

} // verus!
