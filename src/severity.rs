//! Report levels, lowest verbosity first, and the policy over them.
use vstd::prelude::*;

verus! {

pub const DEBUG5: i32 = 10;
pub const DEBUG4: i32 = 11;
pub const DEBUG3: i32 = 12;
pub const DEBUG2: i32 = 13;
pub const DEBUG1: i32 = 14;
pub const LOG: i32 = 15;
pub const INFO: i32 = 17;
pub const NOTICE: i32 = 18;
pub const WARNING: i32 = 19;
pub const ERROR: i32 = 20;
pub const FATAL: i32 = 21;
pub const PANIC: i32 = 22;

/// A report at this level abandons the normal return path.
pub open spec fn diverting(level: i32) -> bool {
    level >= ERROR
}

/// A report at this level is worth building when the engine shows levels from
/// `current_min` up. A diverting report is never suppressed: it decides where
/// control goes, not only what is shown.
pub open spec fn visible(level: i32, current_min: i32) -> bool {
    level >= current_min || diverting(level)
}

/// Whether a report at `level` diverts control flow.
pub fn is_diverting(level: i32) -> (r: bool)
    ensures
        r == diverting(level),
{
    level >= ERROR
}

/// Whether a report at `level` is built at all, given the lowest level shown.
pub fn is_visible(level: i32, current_min: i32) -> (r: bool)
    ensures
        r == visible(level, current_min),
{
    level >= current_min || is_diverting(level)
}

} // verus!
