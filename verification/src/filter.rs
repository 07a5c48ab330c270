//! Per-character input filtering for the editable box.

use vstd::prelude::*;

verus! {

/// Which typed characters an editable box accepts.
///
/// Filtering is purely per character: under [`CharFilter::Numbers`] a decimal
/// digit, `.` or `-` is accepted and every other character is silently
/// dropped, with no validation of the resulting string as a whole.
#[derive(Clone, Copy, Debug, PartialEq, Eq, Structural)]
pub enum CharFilter {
    /// Every character is accepted.
    AllChars,
    /// Only ASCII decimal digits, `.` and `-` are accepted.
    Numbers,
}

/// Whether the filter accepts the character.
pub open spec fn char_passes(f: CharFilter, c: char) -> bool {
    match f {
        CharFilter::AllChars => true,
        CharFilter::Numbers => ('0' as u32 <= c as u32 && c as u32 <= '9' as u32) || c == '.'
            || c == '-',
    }
}

/// Tests a typed character against the filter.
pub fn allows(f: CharFilter, c: char) -> (r: bool)
    ensures
        r == char_passes(f, c),
{
    match f {
        CharFilter::AllChars => true,
        CharFilter::Numbers => ('0' as u32 <= c as u32 && c as u32 <= '9' as u32) || c == '.'
            || c == '-',
    }
}

} // verus!
