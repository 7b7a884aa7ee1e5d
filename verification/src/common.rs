//! Values shared by the configuration and the predictor: the native flag
//! type and the numeric precisions that the engine's accelerators accept.

use vstd::prelude::*;

verus! {

/// The engine's two-valued flag: zero is false, anything else is true.
#[allow(non_camel_case_types)]
pub type PD_Bool = i8;

/// The flag that the engine reads as true.
pub const TRUE: PD_Bool = 1;

/// The flag that the engine reads as false.
pub const FALSE: PD_Bool = 0;

/// The native flag that stands for `value`.
pub open spec fn flag_of(value: bool) -> PD_Bool {
    if value {
        TRUE
    } else {
        FALSE
    }
}

/// What the engine reads from `flag`.
pub open spec fn flag_is_set(flag: PD_Bool) -> bool {
    flag != FALSE
}

/// Maps a `bool` to the native flag, `true` to [`TRUE`] and `false` to
/// [`FALSE`].
pub fn to_pd_bool(value: bool) -> (flag: PD_Bool)
    ensures
        flag == flag_of(value),
        flag_is_set(flag) == value,
{
    if value {
        TRUE
    } else {
        FALSE
    }
}

/// Reads a native flag as the engine does.
pub fn from_pd_bool(flag: PD_Bool) -> (value: bool)
    ensures
        value == flag_is_set(flag),
{
    flag != FALSE
}

/// The numeric precision that an accelerated subgraph computes in.
#[derive(Debug, Clone, Copy, PartialEq, Eq, Structural)]
pub enum PrecisionType {
    /// 32-bit floating point.
    Float32,
    /// 8-bit integers, after calibration.
    Int8,
    /// 16-bit floating point.
    Half,
}

} // verus!
