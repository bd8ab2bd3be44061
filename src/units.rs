use vstd::prelude::*;

verus! {

/// How far the level moves in one tick, in tenths of a degree.
pub const TEMPERATURE_RATE: i64 = 1;

/// Below this level (one degree, in tenths) a burner that is switched off
/// counts as cooled down.
pub const COOLED_THRESHOLD: i64 = 10;

/// A temperature in tenths of a degree, rounded to whole degrees with
/// halves rounded away from zero.
pub open spec fn spec_rounded_degrees(tenths: int) -> int {
    if tenths >= 0 {
        (tenths + 5) / 10
    } else {
        -((-tenths + 5) / 10)
    }
}

/// Rounds a temperature in tenths of a degree to whole degrees, halves away
/// from zero.
pub fn rounded_degrees(tenths: i64) -> (r: i64)
    ensures
        r == spec_rounded_degrees(tenths as int),
{
    let magnitude: u64 = if tenths >= 0 {
        tenths as u64
    } else {
        (-(tenths + 1)) as u64 + 1
    };
    let whole: u64 = magnitude / 10;
    let rounded: u64 = if magnitude % 10 >= 5 {
        whole + 1
    } else {
        whole
    };
    assert(rounded == (magnitude + 5) / 10) by (nonlinear_arith)
        requires
            whole == magnitude / 10,
            rounded == (if magnitude % 10 >= 5 { whole + 1 } else { whole as int }),
    ;
    assert(rounded <= 1_000_000_000_000_000_000) by (nonlinear_arith)
        requires
            rounded == (magnitude + 5) / 10,
            magnitude <= 9_223_372_036_854_775_808,
    ;
    if tenths >= 0 {
        rounded as i64
    } else {
        -(rounded as i64)
    }
}

} // verus!
