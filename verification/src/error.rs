//! Conditions under which the bridge refuses a host call.

use vstd::prelude::*;

verus! {

/// The closed sets of integer codes that cross the host boundary.
#[derive(Clone, Copy, Debug, PartialEq, Eq, Structural)]
pub enum Domain {
    /// Input keys.
    Key,
    /// Initial position of the brake handle.
    InitPosition,
    /// Sound directives.
    Sound,
    /// Horn types.
    Horn,
    /// Constant-speed directives.
    ConstantSpeed,
}

/// Why a host call was not carried out.
///
/// Every condition is fatal: a caller that receives one must stop the
/// simulation instead of going on with control values that may be wrong.
#[derive(Clone, Copy, Debug, PartialEq, Eq, Structural)]
pub enum BridgeError {
    /// The host passed an integer that is no member of the named domain.
    /// `value` is that integer, unchanged.
    InvalidDomainCode { domain: Domain, value: i32 },
    /// An earlier call failed; the controller can no longer be trusted to be
    /// in a consistent state, so nothing more is delivered to it.
    ReentrantFailure,
    /// The memory behind a panel or sound buffer is declared with `declared`
    /// slots, fewer than the fixed capacity of a buffer.
    BufferBoundsViolation { declared: usize },
}

} // verus!
