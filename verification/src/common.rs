//! Shared primitive types of the routing model: locations, travel
//! measures, schedules and the violation signal returned by constraints.

use vstd::prelude::*;

verus! {

/// A location identifier, resolved only through the transport matrix.
pub type Location = usize;

/// A travel distance measure, in integral distance units.
pub type Distance = i64;

/// A travel duration measure, in integral time units.
pub type Duration = i64;

/// A point on the time axis, in integral time units.
pub type Timestamp = i64;

/// A key into a route's state cache.
pub type StateKey = usize;

/// A stable numeric code which diagnoses a constraint failure.
pub type ViolationCode = i32;

/// The largest travel measure a single matrix entry may hold; keeps every
/// insertion delta (a sum of three entries) far away from `i64` overflow.
pub const MAX_TRAVEL: i64 = 0x100_0000_0000;

/// The largest magnitude a cached route total may hold; keeps the sum of a
/// cached total and an insertion delta far away from `i64` overflow.
pub const MAX_TOTAL: i64 = 0x1000_0000_0000_0000;

/// A control signal from the constraint pipeline: the move is infeasible.
///
/// When `stopped` is true, insertion enumeration must not try any later
/// position in the same route; otherwise it may skip to the next position.
#[derive(Clone, Copy, Debug, PartialEq, Eq, Structural)]
pub struct ConstraintViolation {
    /// A stable numeric code for diagnostics.
    pub code: ViolationCode,
    /// True when no later position in the route needs to be tried.
    pub stopped: bool,
}

impl ConstraintViolation {
    /// A hard failure: no later position in this route can succeed.
    pub fn fail(code: ViolationCode) -> (r: Option<ConstraintViolation>)
        ensures
            r == Some(ConstraintViolation { code, stopped: true }),
    {
        Some(ConstraintViolation { code, stopped: true })
    }

    /// A soft failure: enumeration may advance to the next position.
    pub fn skip(code: ViolationCode) -> (r: Option<ConstraintViolation>)
        ensures
            r == Some(ConstraintViolation { code, stopped: false }),
    {
        Some(ConstraintViolation { code, stopped: false })
    }

    /// The feasible verdict.
    pub fn success() -> (r: Option<ConstraintViolation>)
        ensures
            r == None::<ConstraintViolation>,
    {
        None
    }
}

} // verus!
