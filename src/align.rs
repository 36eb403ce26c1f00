//! Vertical alignment of the fact column against the art block.

use vstd::prelude::*;

verus! {

/// The upward bias subtracted from the art's half height.
pub const BIAS: i64 = 6;

/// Signed shift from a registry index to the art row that shows it:
/// entry `k` stands on row `k + offset`.
pub open spec fn offset_of(lines: int) -> int {
    lines / 2 - BIAS
}

/// The registry index shown on art row `row`, when there is one.
pub open spec fn slot_of(row: int, offset: int, len: int) -> Option<int> {
    if 0 <= row - offset < len {
        Some(row - offset)
    } else {
        None
    }
}

/// Offset for an art block of `lines` rows: half its height, rounded down,
/// less the bias.
pub fn offset(lines: usize) -> (r: i64)
    ensures
        r == offset_of(lines as int),
{
    let half = lines / 2;
    assert(half <= i64::MAX);
    half as i64 - BIAS
}

/// Registry index for art row `row` under `offset`, for a registry of `len`
/// entries; `None` when the row falls before the first entry or after the
/// last one.
pub fn registry_index(row: usize, offset: i64, len: usize) -> (r: Option<usize>)
    ensures
        r is Some <==> slot_of(row as int, offset as int, len as int) is Some,
        r is Some ==> r->0 as int == slot_of(row as int, offset as int, len as int)->0,
{
    let k: i128 = row as i128 - offset as i128;
    if 0 <= k && k < len as i128 {
        Some(k as usize)
    } else {
        None
    }
}

} // verus!
