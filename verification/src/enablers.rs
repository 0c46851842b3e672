//! Shared helpers of the construction features: the schedule state keys
//! and the travel delta of a candidate insertion.

use vstd::prelude::*;
use crate::common::{Distance, Duration, MAX_TRAVEL};
use crate::state::ActivityContext;
use crate::transport::Transport;

verus! {

/// The state-cache keys under which schedule totals of a route are kept.
#[derive(Clone, Debug)]
pub struct ScheduleKeys {
    /// The key of the cached total travelled distance of the route.
    pub total_distance: crate::common::StateKey,
    /// The key of the cached total travelled duration of the route.
    pub total_duration: crate::common::StateKey,
}

/// Every location read by the activity context lies inside the matrix.
pub open spec fn activity_ctx_in_range(activity_ctx: ActivityContext, transport: Transport) -> bool {
    &&& activity_ctx.prev.location < transport.size
    &&& activity_ctx.target.location < transport.size
    &&& activity_ctx.next is Some ==> activity_ctx.next->0.location < transport.size
}

/// The change in total travelled distance caused by inserting the target
/// between its neighbours: the two new legs minus the removed leg, or a
/// single new leg when the target ends the tour.
pub open spec fn spec_travel_delta_distance(transport: Transport, activity_ctx: ActivityContext) -> int {
    let prev = activity_ctx.prev.location;
    let target = activity_ctx.target.location;
    match activity_ctx.next {
        Some(next) => transport.spec_distance(prev, target) + transport.spec_distance(
            target,
            next.location,
        ) - transport.spec_distance(prev, next.location),
        None => transport.spec_distance(prev, target) as int,
    }
}

/// The change in total travelled duration caused by inserting the target
/// between its neighbours.
pub open spec fn spec_travel_delta_duration(transport: Transport, activity_ctx: ActivityContext) -> int {
    let prev = activity_ctx.prev.location;
    let target = activity_ctx.target.location;
    match activity_ctx.next {
        Some(next) => transport.spec_duration(prev, target) + transport.spec_duration(
            target,
            next.location,
        ) - transport.spec_duration(prev, next.location),
        None => transport.spec_duration(prev, target) as int,
    }
}

/// Computes the distance and duration deltas of inserting the context's
/// target activity between its neighbouring activities.
pub fn calculate_travel_delta(activity_ctx: &ActivityContext, transport: &Transport) -> (r: (
    Distance,
    Duration,
))
    requires
        transport.wf(),
        activity_ctx_in_range(*activity_ctx, *transport),
    ensures
        r.0 == spec_travel_delta_distance(*transport, *activity_ctx),
        r.1 == spec_travel_delta_duration(*transport, *activity_ctx),
        -2 * MAX_TRAVEL <= r.0 <= 2 * MAX_TRAVEL,
        -2 * MAX_TRAVEL <= r.1 <= 2 * MAX_TRAVEL,
{
    let prev = activity_ctx.prev.location;
    let target = activity_ctx.target.location;
    match &activity_ctx.next {
        Some(next) => {
            let distance = transport.distance(prev, target) + transport.distance(
                target,
                next.location,
            ) - transport.distance(prev, next.location);
            let duration = transport.duration(prev, target) + transport.duration(
                target,
                next.location,
            ) - transport.duration(prev, next.location);
            (distance, duration)
        },
        None => (transport.distance(prev, target), transport.duration(prev, target)),
    }
}

} // verus!
