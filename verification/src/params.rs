//! Validation of the run's configuration, and the layout rule for the
//! result listing: how many keys stand on one printed row for a given bit
//! width.

use vstd::prelude::*;

verus! {

/// Why a configuration is rejected before generation starts.
#[derive(Clone, Copy, Debug, PartialEq, Eq, Structural)]
pub enum ParamError {
    /// The minimum Hamming distance does not lie below the bit width.
    MinDistanceNotBelowWidth,
    /// The minimum Hamming distance does not lie below the maximum.
    MinDistanceNotBelowMax,
}

/// Accepts a configuration exactly when the minimum Hamming distance lies
/// below both the bit width and the maximum distance; a too-large minimum
/// against the width is reported first.
pub fn validate_params(bits: usize, bits_min: usize, bits_max: usize) -> (r: Result<
    (),
    ParamError,
>)
    ensures
        r is Ok <==> bits_min < bits && bits_min < bits_max,
        r == Result::<(), ParamError>::Err(ParamError::MinDistanceNotBelowWidth) <==> bits_min
            >= bits,
        r == Result::<(), ParamError>::Err(ParamError::MinDistanceNotBelowMax) <==> (bits_min
            < bits && bits_min >= bits_max),
{
    if bits_min >= bits {
        Err(ParamError::MinDistanceNotBelowWidth)
    } else if bits_min >= bits_max {
        Err(ParamError::MinDistanceNotBelowMax)
    } else {
        Ok(())
    }
}

/// How many keys the result listing puts on one row: a single key per row
/// above 255 bits, growing to sixteen keys per row at 15 bits or fewer.
pub fn keys_per_row(bits: usize) -> (r: usize)
    ensures
        r == (if bits > 255 {
            1int
        } else if bits > 127 {
            2int
        } else if bits > 63 {
            4int
        } else if bits > 31 {
            8int
        } else if bits > 15 {
            12int
        } else {
            16int
        }),
{
    if bits > 255 {
        1
    } else if bits > 127 {
        2
    } else if bits > 63 {
        4
    } else if bits > 31 {
        8
    } else if bits > 15 {
        12
    } else {
        16
    }
}

} // verus!
