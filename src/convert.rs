use vstd::prelude::*;
use crate::location::Location;
use crate::validate::Plan;

verus! {

/// The value that a planned conversion builds: the variant it selects (none for a
/// record), the source value it wraps, and the position at which it was invoked.
pub struct Converted<T> {
    pub variant: Option<usize>,
    pub source: T,
    pub location: Location,
}

/// What converting `value` by `plan`, invoked at `at`, builds.
pub open spec fn conversion<T>(plan: Plan, value: T, at: Location) -> Converted<T> {
    Converted { variant: plan.variant, source: value, location: at }
}

/// Performs a planned conversion. `at` is the position of the call expression that
/// asked for it, captured where that expression stands.
pub fn convert<T>(plan: &Plan, value: T, at: Location) -> (r: Converted<T>)
    ensures
        r == conversion(*plan, value, at),
{
    Converted { variant: plan.variant, source: value, location: at }
}

} // verus!
