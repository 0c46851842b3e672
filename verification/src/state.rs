//! The per-route state cache and the contexts a constraint is evaluated
//! against: a route context with its cache, and the activity-level view of
//! a candidate insertion position.

use vstd::prelude::*;
use crate::common::StateKey;
use crate::models::{Activity, Job, Route};

verus! {

/// A keyed cache attached to a route, re-populated by feature state
/// updaters after the tour is mutated. Keys are dense small integers.
#[derive(Clone, Debug)]
pub struct RouteState {
    /// The cached value under each key, absent where nothing was stored.
    pub values: Vec<Option<i64>>,
}

impl RouteState {
    /// The value the cache associates with `key`, if any.
    pub open spec fn spec_get(self, key: StateKey) -> Option<i64> {
        if key < self.values@.len() {
            self.values@[key as int]
        } else {
            None
        }
    }

    /// Creates an empty cache.
    pub fn new() -> (r: RouteState)
        ensures
            forall|key: StateKey| r.spec_get(key) == None::<i64>,
    {
        RouteState { values: Vec::new() }
    }

    /// Reads the cached value under `key`.
    pub fn get_route_state(&self, key: StateKey) -> (r: Option<i64>)
        ensures
            r == self.spec_get(key),
    {
        if key < self.values.len() {
            self.values[key]
        } else {
            None
        }
    }

    /// Stores `value` under `key`, leaving every other key unchanged.
    pub fn put_route_state(&mut self, key: StateKey, value: i64)
        requires
            key < usize::MAX,
        ensures
            final(self).spec_get(key) == Some(value),
            forall|other: StateKey|
                other != key ==> final(self).spec_get(other) == old(self).spec_get(other),
    {
        while self.values.len() <= key
            invariant
                key < usize::MAX,
                forall|other: StateKey| self.spec_get(other) == old(self).spec_get(other),
            decreases key + 1 - self.values@.len(),
        {
            self.values.push(None);
        }
        self.values.set(key, Some(value));
    }
}

/// A route together with its state cache.
#[derive(Clone, Debug)]
pub struct RouteContext {
    /// The route under evaluation.
    pub route: Route,
    /// The state cache of the route.
    pub state: RouteState,
}

impl RouteContext {
    /// The route under evaluation.
    pub fn route(&self) -> (r: &Route)
        ensures
            r == &self.route,
    {
        &self.route
    }

    /// The state cache of the route.
    pub fn state(&self) -> (r: &RouteState)
        ensures
            r == &self.state,
    {
        &self.state
    }
}

/// The whole-solution view: the routes built so far and the jobs left
/// unassigned, each with the last violation code observed for it.
#[derive(Clone, Debug)]
pub struct SolutionContext {
    /// The routes of the solution, each with its state cache.
    pub routes: Vec<RouteContext>,
    /// The unassigned jobs, each with its last observed violation code.
    pub unassigned: Vec<(Job, crate::common::ViolationCode)>,
}

/// The activity-level view of one candidate insertion position: the
/// activity before the position, the candidate activity, and the activity
/// after the position (absent when inserting at the open end of the tour).
#[derive(Clone, Debug)]
pub struct ActivityContext {
    /// The insertion position index within the tour.
    pub index: usize,
    /// The activity preceding the candidate.
    pub prev: Activity,
    /// The candidate activity being inserted.
    pub target: Activity,
    /// The activity following the candidate, if any.
    pub next: Option<Activity>,
}

/// The context a constraint is evaluated against: either a route-level
/// check of a whole job against a route, or an activity-level check of one
/// insertion position.
pub enum MoveContext<'a> {
    /// A route-level check: may this job enter this route at all?
    Route {
        /// The route the job would enter.
        route_ctx: &'a RouteContext,
        /// The job to be inserted.
        job: &'a Job,
    },
    /// An activity-level check of one insertion position.
    Activity {
        /// The route the activity would enter.
        route_ctx: &'a RouteContext,
        /// The insertion position under evaluation.
        activity_ctx: &'a ActivityContext,
    },
}

} // verus!
