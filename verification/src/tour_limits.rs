//! Features which put extra limits on a tour: a cap on the number of job
//! activities, a cap on the number of distinct locations, and caps on the
//! total travelled distance and duration. All are hard constraints.

use vstd::prelude::*;
use crate::common::{
    ConstraintViolation, Distance, Duration, Location, StateKey, ViolationCode, MAX_TOTAL,
    MAX_TRAVEL,
};
use crate::enablers::{
    activity_ctx_in_range, calculate_travel_delta, spec_travel_delta_distance,
    spec_travel_delta_duration, ScheduleKeys,
};
use crate::feature::{
    Feature, FeatureBuilder, FeatureConstraintVariant, FeatureStateVariant, GenericError,
};
use crate::location_set::{location_set_contents, LocationSet};
use crate::models::{Activity, Job, JobPlace, Single};
use crate::state::{
    ActivityContext, MoveContext, RouteContext, RouteState, SolutionContext,
};
use crate::transport::Transport;

verus! {

/// Combines all keys needed for tour limits feature usage.
#[derive(Clone, Debug)]
pub struct TourLimitKeys {
    /// A key under which the actor's duration limit is published.
    pub duration_key: StateKey,
    /// The keys of the cached schedule totals of a route.
    pub schedule_keys: ScheduleKeys,
    /// The violation code of the distance limit.
    pub distance_code: ViolationCode,
    /// The violation code of the duration limit.
    pub duration_code: ViolationCode,
}

/// The verdict of the activity-count limit: a hard failure exactly when
/// the tour's job activities plus the candidate job's activities would
/// exceed the actor's limit.
pub open spec fn activity_limit_verdict(
    code: ViolationCode,
    limit: Option<usize>,
    tour_activities: nat,
    job_activities: nat,
) -> Option<ConstraintViolation> {
    match limit {
        Some(limit) => if tour_activities + job_activities > limit {
            Some(ConstraintViolation { code, stopped: true })
        } else {
            None
        },
        None => None,
    }
}

/// The distinct locations of a sequence of activities.
pub open spec fn spec_activity_locations(acts: Seq<Activity>) -> Set<Location>
    decreases acts.len(),
{
    if acts.len() == 0 {
        Set::empty()
    } else {
        spec_activity_locations(acts.drop_last()).insert(acts.last().location)
    }
}

/// The distinct declared locations of a sequence of job places; a place
/// without a location contributes nothing.
pub open spec fn spec_place_locations(places: Seq<JobPlace>) -> Set<Location>
    decreases places.len(),
{
    if places.len() == 0 {
        Set::empty()
    } else {
        match places.last().location {
            Some(location) => spec_place_locations(places.drop_last()).insert(location),
            None => spec_place_locations(places.drop_last()),
        }
    }
}

/// The distinct declared locations of a single job.
pub open spec fn spec_single_locations(single: Single) -> Set<Location> {
    spec_place_locations(single.places@)
}

/// The distinct declared locations over a sequence of single jobs.
pub open spec fn spec_singles_locations(singles: Seq<Single>) -> Set<Location>
    decreases singles.len(),
{
    if singles.len() == 0 {
        Set::empty()
    } else {
        spec_singles_locations(singles.drop_last()).union(spec_single_locations(singles.last()))
    }
}

/// The distinct declared locations of a job.
pub open spec fn spec_job_locations(job: Job) -> Set<Location> {
    match job {
        Job::Single(single) => spec_single_locations(single),
        Job::Multi(multi) => spec_singles_locations(multi.jobs@),
    }
}

/// The verdict of the location-uniqueness limit: a hard failure exactly
/// when the union of the tour's locations and the candidate job's
/// locations holds more members than the actor's limit.
pub open spec fn location_limit_verdict(
    code: ViolationCode,
    limit: Option<usize>,
    tour_locations: Set<Location>,
    job_locations: Set<Location>,
) -> Option<ConstraintViolation> {
    match limit {
        Some(limit) => if tour_locations.union(job_locations).len() > limit {
            Some(ConstraintViolation { code, stopped: true })
        } else {
            None
        },
        None => None,
    }
}

/// The cached schedule total under `key`, defaulting to zero where the
/// cache holds nothing.
pub open spec fn spec_cached_total(state: RouteState, key: StateKey) -> int {
    match state.spec_get(key) {
        Some(value) => value as int,
        None => 0,
    }
}

/// Both cached schedule totals stay within the range that keeps the sum
/// with an insertion delta inside the machine integer range.
pub open spec fn travel_state_bounded(route_ctx: RouteContext, limit_keys: TourLimitKeys) -> bool {
    &&& -MAX_TOTAL <= spec_cached_total(route_ctx.state, limit_keys.schedule_keys.total_distance)
        <= MAX_TOTAL
    &&& -MAX_TOTAL <= spec_cached_total(route_ctx.state, limit_keys.schedule_keys.total_duration)
        <= MAX_TOTAL
}

/// The verdict of the travel limit at an insertion position: the distance
/// check fires first, then the duration check; each allows skipping to
/// the next position rather than stopping the route.
pub open spec fn travel_limit_verdict(
    constraint: TravelLimitConstraint,
    route_ctx: RouteContext,
    activity_ctx: ActivityContext,
) -> Option<ConstraintViolation> {
    let limits = route_ctx.route.actor.limits;
    let keys = constraint.limit_keys;
    let change_distance = spec_travel_delta_distance(constraint.transport, activity_ctx);
    let change_duration = spec_travel_delta_duration(constraint.transport, activity_ctx);
    let total_distance = spec_cached_total(route_ctx.state, keys.schedule_keys.total_distance)
        + change_distance;
    let total_duration = spec_cached_total(route_ctx.state, keys.schedule_keys.total_duration)
        + change_duration;
    if limits.max_distance is Some && (limits.max_distance->0 as int) < total_distance {
        Some(ConstraintViolation { code: keys.distance_code, stopped: false })
    } else if limits.max_duration is Some && (limits.max_duration->0 as int) < total_duration {
        Some(ConstraintViolation { code: keys.duration_code, stopped: false })
    } else {
        None
    }
}

/// A limit on the number of job activities in a tour.
#[derive(Clone, Debug)]
pub struct ActivityLimitConstraint {
    /// The violation code reported when the limit is exceeded.
    pub code: ViolationCode,
}

/// What the activity-count limit answers for a move context.
pub open spec fn spec_activity_limit_evaluate(
    constraint: ActivityLimitConstraint,
    move_ctx: MoveContext,
) -> Option<ConstraintViolation> {
    match move_ctx {
        MoveContext::Route { route_ctx, job } => activity_limit_verdict(
            constraint.code,
            route_ctx.route.actor.limits.max_activities,
            crate::models::spec_job_activity_count(route_ctx.route.tour.activities@),
            job.spec_activity_count(),
        ),
        MoveContext::Activity { .. } => None,
    }
}

impl ActivityLimitConstraint {
    /// Evaluates the activity-count limit: a route-level move fails hard
    /// exactly when the enlarged tour would exceed the actor's limit;
    /// activity-level moves are always feasible.
    pub fn evaluate(&self, move_ctx: &MoveContext) -> (r: Option<ConstraintViolation>)
        ensures
            r == spec_activity_limit_evaluate(*self, *move_ctx),
    {
        match move_ctx {
            MoveContext::Route { route_ctx, job } => {
                match route_ctx.route().actor.limits.max_activities {
                    Some(limit) => {
                        let tour_activities = route_ctx.route().tour.job_activity_count();
                        let job_activities: usize = match job {
                            Job::Single(_) => 1,
                            Job::Multi(multi) => multi.jobs.len(),
                        };
                        if job_activities > limit || tour_activities > limit - job_activities {
                            ConstraintViolation::fail(self.code)
                        } else {
                            ConstraintViolation::success()
                        }
                    },
                    None => ConstraintViolation::success(),
                }
            },
            MoveContext::Activity { .. } => ConstraintViolation::success(),
        }
    }

    /// Folds feature-specific job data when two jobs are coalesced; this
    /// constraint keeps the source job unchanged.
    pub fn merge(&self, source: Job, _candidate: Job) -> (r: Result<Job, ViolationCode>)
        ensures
            r == Ok::<Job, ViolationCode>(source),
    {
        Ok(source)
    }
}

/// A limit on the number of distinct locations in a tour.
#[derive(Clone, Debug)]
pub struct LocationLimitConstraint {
    /// The violation code reported when the limit is exceeded.
    pub code: ViolationCode,
}

/// What the location-uniqueness limit answers for a move context.
pub open spec fn spec_location_limit_evaluate(
    constraint: LocationLimitConstraint,
    move_ctx: MoveContext,
) -> Option<ConstraintViolation> {
    match move_ctx {
        MoveContext::Route { route_ctx, job } => location_limit_verdict(
            constraint.code,
            route_ctx.route.actor.limits.max_unique_locations,
            spec_activity_locations(route_ctx.route.tour.activities@),
            spec_job_locations(*job),
        ),
        MoveContext::Activity { .. } => None,
    }
}

/// Adds the locations of every activity in `acts` to the set.
fn insert_activity_locations(set: &mut LocationSet, acts: &Vec<Activity>)
    ensures
        location_set_contents(*final(set)) == location_set_contents(*old(set)).union(
            spec_activity_locations(acts@),
        ),
{
    proof {
        assert(location_set_contents(*set).union(Set::<Location>::empty()) =~= location_set_contents(
            *set,
        ));
    }
    let mut i: usize = 0;
    while i < acts.len()
        invariant
            i <= acts@.len(),
            location_set_contents(*set) == location_set_contents(*old(set)).union(
                spec_activity_locations(acts@.take(i as int)),
            ),
        decreases acts@.len() - i,
    {
        proof {
            assert(acts@.take(i + 1).drop_last() =~= acts@.take(i as int));
            assert(acts@.take(i + 1).last() == acts@[i as int]);
        }
        set.insert(acts[i].location);
        proof {
            assert(location_set_contents(*old(set)).union(
                spec_activity_locations(acts@.take(i as int)),
            ).insert(acts@[i as int].location) =~= location_set_contents(*old(set)).union(
                spec_activity_locations(acts@.take(i + 1)),
            ));
        }
        i = i + 1;
    }
    proof {
        assert(acts@.take(acts@.len() as int) =~= acts@);
    }
}

/// Adds the declared locations of every place in `places` to the set.
fn insert_place_locations(set: &mut LocationSet, places: &Vec<JobPlace>)
    ensures
        location_set_contents(*final(set)) == location_set_contents(*old(set)).union(
            spec_place_locations(places@),
        ),
{
    proof {
        assert(location_set_contents(*set).union(Set::<Location>::empty()) =~= location_set_contents(
            *set,
        ));
    }
    let mut i: usize = 0;
    while i < places.len()
        invariant
            i <= places@.len(),
            location_set_contents(*set) == location_set_contents(*old(set)).union(
                spec_place_locations(places@.take(i as int)),
            ),
        decreases places@.len() - i,
    {
        proof {
            assert(places@.take(i + 1).drop_last() =~= places@.take(i as int));
            assert(places@.take(i + 1).last() == places@[i as int]);
        }
        match places[i].location {
            Some(location) => {
                set.insert(location);
                proof {
                    assert(location_set_contents(*old(set)).union(
                        spec_place_locations(places@.take(i as int)),
                    ).insert(location) =~= location_set_contents(*old(set)).union(
                        spec_place_locations(places@.take(i + 1)),
                    ));
                }
            },
            None => {
                proof {
                    assert(spec_place_locations(places@.take(i + 1)) == spec_place_locations(
                        places@.take(i as int),
                    ));
                }
            },
        }
        i = i + 1;
    }
    proof {
        assert(places@.take(places@.len() as int) =~= places@);
    }
}

/// Adds the declared locations of a job to the set.
fn insert_job_locations(set: &mut LocationSet, job: &Job)
    ensures
        location_set_contents(*final(set)) == location_set_contents(*old(set)).union(
            spec_job_locations(*job),
        ),
{
    match job {
        Job::Single(single) => {
            insert_place_locations(set, &single.places);
        },
        Job::Multi(multi) => {
            proof {
                assert(location_set_contents(*set).union(Set::<Location>::empty())
                    =~= location_set_contents(*set));
            }
            let mut i: usize = 0;
            while i < multi.jobs.len()
                invariant
                    i <= multi.jobs@.len(),
                    location_set_contents(*set) == location_set_contents(*old(set)).union(
                        spec_singles_locations(multi.jobs@.take(i as int)),
                    ),
                decreases multi.jobs@.len() - i,
            {
                proof {
                    assert(multi.jobs@.take(i + 1).drop_last() =~= multi.jobs@.take(i as int));
                    assert(multi.jobs@.take(i + 1).last() == multi.jobs@[i as int]);
                }
                insert_place_locations(set, &multi.jobs[i].places);
                proof {
                    assert(location_set_contents(*old(set)).union(
                        spec_singles_locations(multi.jobs@.take(i as int)),
                    ).union(spec_single_locations(multi.jobs@[i as int]))
                        =~= location_set_contents(*old(set)).union(
                        spec_singles_locations(multi.jobs@.take(i + 1)),
                    ));
                }
                i = i + 1;
            }
            proof {
                assert(multi.jobs@.take(multi.jobs@.len() as int) =~= multi.jobs@);
            }
        },
    }
}

impl LocationLimitConstraint {
    /// Evaluates the location-uniqueness limit: a route-level move fails
    /// hard exactly when the union of the tour's locations and the job's
    /// declared locations holds more members than the actor's limit;
    /// activity-level moves are always feasible.
    pub fn evaluate(&self, move_ctx: &MoveContext) -> (r: Option<ConstraintViolation>)
        ensures
            r == spec_location_limit_evaluate(*self, *move_ctx),
    {
        match move_ctx {
            MoveContext::Route { route_ctx, job } => {
                match route_ctx.route().actor.limits.max_unique_locations {
                    Some(limit) => {
                        let mut unique_places = LocationSet::new();
                        insert_activity_locations(
                            &mut unique_places,
                            &route_ctx.route().tour.activities,
                        );
                        insert_job_locations(&mut unique_places, job);
                        proof {
                            assert(Set::<Location>::empty().union(
                                spec_activity_locations(route_ctx.route.tour.activities@),
                            ).union(spec_job_locations(**job)) =~= spec_activity_locations(
                                route_ctx.route.tour.activities@,
                            ).union(spec_job_locations(**job)));
                        }
                        let total_unique_places = unique_places.len();
                        if total_unique_places > limit {
                            ConstraintViolation::fail(self.code)
                        } else {
                            ConstraintViolation::success()
                        }
                    },
                    None => ConstraintViolation::success(),
                }
            },
            MoveContext::Activity { .. } => ConstraintViolation::success(),
        }
    }

    /// Folds feature-specific job data when two jobs are coalesced; this
    /// constraint keeps the source job unchanged.
    pub fn merge(&self, source: Job, _candidate: Job) -> (r: Result<Job, ViolationCode>)
        ensures
            r == Ok::<Job, ViolationCode>(source),
    {
        Ok(source)
    }
}

/// A limit on the total travelled distance and/or duration of a tour.
#[derive(Clone, Debug)]
pub struct TravelLimitConstraint {
    /// The transport matrix behind travel deltas.
    pub transport: Transport,
    /// The state keys and violation codes of the limits.
    pub limit_keys: TourLimitKeys,
}

/// What the travel limit demands of a move context before it can be
/// evaluated: an activity-level move must read a well-formed matrix
/// within its range, against bounded cached totals.
pub open spec fn spec_travel_limit_requires(
    constraint: TravelLimitConstraint,
    move_ctx: MoveContext,
) -> bool {
    match move_ctx {
        MoveContext::Route { .. } => true,
        MoveContext::Activity { route_ctx, activity_ctx } => {
            &&& constraint.transport.wf()
            &&& activity_ctx_in_range(*activity_ctx, constraint.transport)
            &&& travel_state_bounded(*route_ctx, constraint.limit_keys)
        },
    }
}

/// What the travel limit answers for a move context.
pub open spec fn spec_travel_limit_evaluate(
    constraint: TravelLimitConstraint,
    move_ctx: MoveContext,
) -> Option<ConstraintViolation> {
    match move_ctx {
        MoveContext::Route { .. } => None,
        MoveContext::Activity { route_ctx, activity_ctx } => travel_limit_verdict(
            constraint,
            *route_ctx,
            *activity_ctx,
        ),
    }
}

impl TravelLimitConstraint {
    /// Computes the travel delta of the candidate insertion position.
    pub fn calculate_travel(
        &self,
        _route_ctx: &RouteContext,
        activity_ctx: &ActivityContext,
    ) -> (r: (Distance, Duration))
        requires
            self.transport.wf(),
            activity_ctx_in_range(*activity_ctx, self.transport),
        ensures
            r.0 == spec_travel_delta_distance(self.transport, *activity_ctx),
            r.1 == spec_travel_delta_duration(self.transport, *activity_ctx),
            -2 * MAX_TRAVEL <= r.0 <= 2 * MAX_TRAVEL,
            -2 * MAX_TRAVEL <= r.1 <= 2 * MAX_TRAVEL,
    {
        calculate_travel_delta(activity_ctx, &self.transport)
    }

    /// Evaluates the travel limit: at an activity-level move, the cached
    /// route total plus the insertion's travel delta must not exceed the
    /// actor's distance limit, then its duration limit; a failure allows
    /// skipping to the next position. Route-level moves are feasible.
    pub fn evaluate(&self, move_ctx: &MoveContext) -> (r: Option<ConstraintViolation>)
        requires
            spec_travel_limit_requires(*self, *move_ctx),
        ensures
            r == spec_travel_limit_evaluate(*self, *move_ctx),
    {
        match move_ctx {
            MoveContext::Route { .. } => ConstraintViolation::success(),
            MoveContext::Activity { route_ctx, activity_ctx } => {
                let tour_distance_limit = route_ctx.route().actor.limits.max_distance;
                let tour_duration_limit = route_ctx.route().actor.limits.max_duration;
                if tour_distance_limit.is_some() || tour_duration_limit.is_some() {
                    let (change_distance, change_duration) = self.calculate_travel(
                        route_ctx,
                        activity_ctx,
                    );
                    match tour_distance_limit {
                        Some(distance_limit) => {
                            let curr_dis = match route_ctx.state().get_route_state(
                                self.limit_keys.schedule_keys.total_distance,
                            ) {
                                Some(value) => value,
                                None => 0,
                            };
                            let total_distance = curr_dis + change_distance;
                            if distance_limit < total_distance {
                                return ConstraintViolation::skip(self.limit_keys.distance_code);
                            }
                        },
                        None => {},
                    }
                    match tour_duration_limit {
                        Some(duration_limit) => {
                            let curr_dur = match route_ctx.state().get_route_state(
                                self.limit_keys.schedule_keys.total_duration,
                            ) {
                                Some(value) => value,
                                None => 0,
                            };
                            let total_duration = curr_dur + change_duration;
                            if duration_limit < total_duration {
                                return ConstraintViolation::skip(self.limit_keys.duration_code);
                            }
                        },
                        None => {},
                    }
                }
                ConstraintViolation::success()
            },
        }
    }

    /// Folds feature-specific job data when two jobs are coalesced; this
    /// constraint keeps the source job unchanged.
    pub fn merge(&self, source: Job, _candidate: Job) -> (r: Result<Job, ViolationCode>)
        ensures
            r == Ok::<Job, ViolationCode>(source),
    {
        Ok(source)
    }
}

/// The state updater of the travel limit: it publishes the actor's
/// duration limit into the route state cache.
#[derive(Clone, Debug)]
pub struct TravelLimitState {
    /// The key under which the duration limit is published.
    pub duration_key: StateKey,
    /// The keys this updater depends on; it depends on none.
    pub state_keys: Vec<StateKey>,
}

/// How a route context looks after the travel-limit state updater ran:
/// the route itself is untouched; where the actor declares a duration
/// limit it is published under the updater's key and every other cache
/// entry is kept, and where it declares none the cache is untouched.
pub open spec fn travel_state_accepted(
    state: TravelLimitState,
    before: RouteContext,
    after: RouteContext,
) -> bool {
    &&& after.route == before.route
    &&& match before.route.actor.limits.max_duration {
        Some(limit_duration) => {
            &&& after.state.spec_get(state.duration_key) == Some(limit_duration)
            &&& forall|other: StateKey|
                other != state.duration_key ==> after.state.spec_get(other) == before.state.spec_get(
                    other,
                )
        },
        None => after.state == before.state,
    }
}

impl TravelLimitState {
    /// An insertion changes no whole-solution state of this feature.
    pub fn accept_insertion(
        &self,
        solution_ctx: &mut SolutionContext,
        _route_index: usize,
        _job: &Job,
    )
        ensures
            *final(solution_ctx) == *old(solution_ctx),
    {
    }

    /// Re-establishes the cache entry of the route: where the actor
    /// declares a duration limit, it is published under this updater's
    /// key.
    pub fn accept_route_state(&self, route_ctx: &mut RouteContext)
        requires
            self.duration_key < usize::MAX,
        ensures
            travel_state_accepted(*self, *old(route_ctx), *final(route_ctx)),
    {
        let limit = route_ctx.route.actor.limits.max_duration;
        match limit {
            Some(limit_duration) => {
                route_ctx.state.put_route_state(self.duration_key, limit_duration);
            },
            None => {},
        }
    }

    /// An acceptance round changes no whole-solution state of this
    /// feature.
    pub fn accept_solution_state(&self, solution_ctx: &mut SolutionContext)
        ensures
            *final(solution_ctx) == *old(solution_ctx),
    {
    }

    /// The state keys this updater depends on.
    pub fn state_keys(&self) -> (r: &Vec<StateKey>)
        ensures
            r == &self.state_keys,
    {
        &self.state_keys
    }
}

/// What a feature constraint demands of a move context.
pub open spec fn spec_constraint_requires(
    constraint: FeatureConstraintVariant,
    move_ctx: MoveContext,
) -> bool {
    match constraint {
        FeatureConstraintVariant::ActivityLimit(_) => true,
        FeatureConstraintVariant::LocationLimit(_) => true,
        FeatureConstraintVariant::TravelLimit(travel) => spec_travel_limit_requires(
            travel,
            move_ctx,
        ),
    }
}

/// What a feature constraint answers for a move context.
pub open spec fn spec_constraint_evaluate(
    constraint: FeatureConstraintVariant,
    move_ctx: MoveContext,
) -> Option<ConstraintViolation> {
    match constraint {
        FeatureConstraintVariant::ActivityLimit(activity) => spec_activity_limit_evaluate(
            activity,
            move_ctx,
        ),
        FeatureConstraintVariant::LocationLimit(location) => spec_location_limit_evaluate(
            location,
            move_ctx,
        ),
        FeatureConstraintVariant::TravelLimit(travel) => spec_travel_limit_evaluate(
            travel,
            move_ctx,
        ),
    }
}

/// Feature purity: the verdict of a constraint evaluation is a function
/// of the constraint and the move context alone, so evaluating the same
/// constraint twice against the same context yields the same verdict.
pub proof fn lemma_constraint_evaluate_pure(
    constraint: FeatureConstraintVariant,
    move_ctx: MoveContext,
    first: Option<ConstraintViolation>,
    second: Option<ConstraintViolation>,
)
    requires
        first == spec_constraint_evaluate(constraint, move_ctx),
        second == spec_constraint_evaluate(constraint, move_ctx),
    ensures
        first == second,
{
}

/// Creates a limit for activity amount in a tour. This is a hard
/// constraint.
pub fn create_activity_limit_feature(name: &str, code: ViolationCode) -> (r: Result<
    Feature,
    GenericError,
>)
    ensures
        r is Ok,
        r->Ok_0.name@ == name@,
        r->Ok_0.constraint == Some(
            FeatureConstraintVariant::ActivityLimit(ActivityLimitConstraint { code }),
        ),
        r->Ok_0.state is None,
{
    FeatureBuilder::default().with_name(name).with_constraint(
        FeatureConstraintVariant::ActivityLimit(ActivityLimitConstraint { code }),
    ).build()
}

/// Creates a limit for location amount in a tour. This is a hard
/// constraint.
pub fn create_location_limit_feature(name: &str, code: ViolationCode) -> (r: Result<
    Feature,
    GenericError,
>)
    ensures
        r is Ok,
        r->Ok_0.name@ == name@,
        r->Ok_0.constraint == Some(
            FeatureConstraintVariant::LocationLimit(LocationLimitConstraint { code }),
        ),
        r->Ok_0.state is None,
{
    FeatureBuilder::default().with_name(name).with_constraint(
        FeatureConstraintVariant::LocationLimit(LocationLimitConstraint { code }),
    ).build()
}

/// Creates a travel limits such as distance and/or duration. This is a
/// hard constraint with a state updater.
pub fn create_travel_limit_feature(
    name: &str,
    transport: Transport,
    limit_keys: TourLimitKeys,
) -> (r: Result<Feature, GenericError>)
    ensures
        r is Ok,
        r->Ok_0.name@ == name@,
        r->Ok_0.constraint == Some(
            FeatureConstraintVariant::TravelLimit(
                TravelLimitConstraint { transport, limit_keys },
            ),
        ),
        r->Ok_0.state is Some,
        r->Ok_0.state->0 matches FeatureStateVariant::TravelLimit(state)
            && state.duration_key == limit_keys.duration_key && state.state_keys@.len() == 0,
{
    let duration_key = limit_keys.duration_key;
    FeatureBuilder::default().with_name(name).with_constraint(
        FeatureConstraintVariant::TravelLimit(TravelLimitConstraint { transport, limit_keys }),
    ).with_state(
        FeatureStateVariant::TravelLimit(TravelLimitState { duration_key, state_keys: Vec::new() }),
    ).build()
}

} // verus!
