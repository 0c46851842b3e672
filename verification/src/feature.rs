//! The feature framework: a feature bundles an optional constraint and an
//! optional state updater, and is assembled through a builder.

use vstd::prelude::*;
use vstd::string::StringExecFns;
use crate::common::{ConstraintViolation, ViolationCode};
use crate::models::Job;
use crate::state::{MoveContext, RouteContext};
use crate::tour_limits::{
    spec_constraint_evaluate, spec_constraint_requires, ActivityLimitConstraint,
    LocationLimitConstraint, TravelLimitConstraint, TravelLimitState,
};

verus! {

/// An error of the feature framework itself: a feature was misassembled.
pub type GenericError = String;

/// The constraint capability of a feature: one of the known constraint
/// kinds.
#[derive(Clone, Debug)]
pub enum FeatureConstraintVariant {
    /// Limits the number of job activities on a tour.
    ActivityLimit(ActivityLimitConstraint),
    /// Limits the number of distinct locations on a tour.
    LocationLimit(LocationLimitConstraint),
    /// Limits the total travelled distance and/or duration of a tour.
    TravelLimit(TravelLimitConstraint),
}

impl FeatureConstraintVariant {
    /// Evaluates the constraint against a move context. The verdict is a
    /// function of the constraint and the context alone.
    pub fn evaluate(&self, move_ctx: &MoveContext) -> (r: Option<ConstraintViolation>)
        requires
            spec_constraint_requires(*self, *move_ctx),
        ensures
            r == spec_constraint_evaluate(*self, *move_ctx),
    {
        match self {
            FeatureConstraintVariant::ActivityLimit(constraint) => constraint.evaluate(move_ctx),
            FeatureConstraintVariant::LocationLimit(constraint) => constraint.evaluate(move_ctx),
            FeatureConstraintVariant::TravelLimit(constraint) => constraint.evaluate(move_ctx),
        }
    }

    /// Folds feature-specific data of two coalesced jobs; every known
    /// constraint keeps the source job unchanged.
    pub fn merge(&self, source: Job, candidate: Job) -> (r: Result<Job, ViolationCode>)
        ensures
            r == Ok::<Job, ViolationCode>(source),
    {
        match self {
            FeatureConstraintVariant::ActivityLimit(constraint) => constraint.merge(
                source,
                candidate,
            ),
            FeatureConstraintVariant::LocationLimit(constraint) => constraint.merge(
                source,
                candidate,
            ),
            FeatureConstraintVariant::TravelLimit(constraint) => constraint.merge(
                source,
                candidate,
            ),
        }
    }
}

/// The state capability of a feature: one of the known state updaters.
#[derive(Clone, Debug)]
pub enum FeatureStateVariant {
    /// Publishes the actor's duration limit into the route state cache.
    TravelLimit(TravelLimitState),
}

impl FeatureStateVariant {
    /// Re-establishes the state cache entries of a route after its tour
    /// was mutated.
    pub fn accept_route_state(&self, route_ctx: &mut RouteContext)
        requires
            match *self {
                FeatureStateVariant::TravelLimit(state) => state.duration_key < usize::MAX,
            },
        ensures
            match *self {
                FeatureStateVariant::TravelLimit(state) => crate::tour_limits::travel_state_accepted(
                    state,
                    *old(route_ctx),
                    *final(route_ctx),
                ),
            },
    {
        match self {
            FeatureStateVariant::TravelLimit(state) => state.accept_route_state(route_ctx),
        }
    }
}

/// The verdict of a constraint pipeline: the first violation any of its
/// constraints reports, in order, or feasibility when every one agrees.
pub open spec fn spec_pipeline_evaluate(
    constraints: Seq<FeatureConstraintVariant>,
    move_ctx: MoveContext,
) -> Option<ConstraintViolation>
    decreases constraints.len(),
{
    if constraints.len() == 0 {
        None
    } else {
        match spec_constraint_evaluate(constraints.first(), move_ctx) {
            Some(violation) => Some(violation),
            None => spec_pipeline_evaluate(constraints.drop_first(), move_ctx),
        }
    }
}

proof fn lemma_pipeline_skip(
    constraints: Seq<FeatureConstraintVariant>,
    move_ctx: MoveContext,
    i: int,
)
    requires
        0 <= i <= constraints.len(),
        forall|j: int|
            0 <= j < i ==> spec_constraint_evaluate(#[trigger] constraints[j], move_ctx) is None,
    ensures
        spec_pipeline_evaluate(constraints.skip(i), move_ctx) == spec_pipeline_evaluate(
            constraints,
            move_ctx,
        ),
    decreases i,
{
    if i > 0 {
        lemma_pipeline_skip(constraints, move_ctx, i - 1);
        assert(constraints.skip(i - 1).drop_first() =~= constraints.skip(i));
        assert(constraints.skip(i - 1).first() == constraints[i - 1]);
        assert(spec_constraint_evaluate(constraints[i - 1], move_ctx) is None);
    } else {
        assert(constraints.skip(0) =~= constraints);
    }
}

/// Evaluates a pipeline of constraints against a move context in order,
/// short-circuiting on the first violation.
pub fn evaluate_pipeline(
    constraints: &Vec<FeatureConstraintVariant>,
    move_ctx: &MoveContext,
) -> (r: Option<ConstraintViolation>)
    requires
        forall|i: int|
            0 <= i < constraints@.len() ==> spec_constraint_requires(
                #[trigger] constraints@[i],
                *move_ctx,
            ),
    ensures
        r == spec_pipeline_evaluate(constraints@, *move_ctx),
{
    let mut i: usize = 0;
    while i < constraints.len()
        invariant
            i <= constraints@.len(),
            forall|j: int|
                0 <= j < constraints@.len() ==> spec_constraint_requires(
                    #[trigger] constraints@[j],
                    *move_ctx,
                ),
            forall|j: int|
                0 <= j < i ==> spec_constraint_evaluate(
                    #[trigger] constraints@[j],
                    *move_ctx,
                ) is None,
        decreases constraints@.len() - i,
    {
        let verdict = constraints[i].evaluate(move_ctx);
        match verdict {
            Some(violation) => {
                proof {
                    lemma_pipeline_skip(constraints@, *move_ctx, i as int);
                    assert(constraints@.skip(i as int).first() == constraints@[i as int]);
                }
                return Some(violation);
            },
            None => {
                i = i + 1;
            },
        }
    }
    proof {
        lemma_pipeline_skip(constraints@, *move_ctx, i as int);
        assert(constraints@.skip(i as int) =~= Seq::<FeatureConstraintVariant>::empty());
    }
    None
}

/// A composable unit of solver behaviour: an optional constraint and an
/// optional state updater under a name.
#[derive(Clone, Debug)]
pub struct Feature {
    /// The name of the feature.
    pub name: String,
    /// The constraint capability, if any.
    pub constraint: Option<FeatureConstraintVariant>,
    /// The state capability, if any.
    pub state: Option<FeatureStateVariant>,
}

/// Assembles a feature; building fails when no name was given or when the
/// feature would carry no capability at all.
#[derive(Clone, Debug)]
pub struct FeatureBuilder {
    /// The name given so far, if any.
    pub name: Option<String>,
    /// The constraint given so far, if any.
    pub constraint: Option<FeatureConstraintVariant>,
    /// The state updater given so far, if any.
    pub state: Option<FeatureStateVariant>,
}

impl Default for FeatureBuilder {
    /// An empty builder: nothing was given yet.
    fn default() -> (r: FeatureBuilder)
        ensures
            r.name is None,
            r.constraint is None,
            r.state is None,
    {
        FeatureBuilder { name: None, constraint: None, state: None }
    }
}

impl FeatureBuilder {
    /// Sets the feature's name.
    pub fn with_name(self, name: &str) -> (r: FeatureBuilder)
        ensures
            r.name is Some && r.name->0@ == name@,
            r.constraint == self.constraint,
            r.state == self.state,
    {
        FeatureBuilder { name: Some(String::from_str(name)), ..self }
    }

    /// Sets the feature's constraint capability.
    pub fn with_constraint(self, constraint: FeatureConstraintVariant) -> (r: FeatureBuilder)
        ensures
            r.name == self.name,
            r.constraint == Some(constraint),
            r.state == self.state,
    {
        FeatureBuilder { constraint: Some(constraint), ..self }
    }

    /// Sets the feature's state capability.
    pub fn with_state(self, state: FeatureStateVariant) -> (r: FeatureBuilder)
        ensures
            r.name == self.name,
            r.constraint == self.constraint,
            r.state == Some(state),
    {
        FeatureBuilder { state: Some(state), ..self }
    }

    /// Builds the feature. Fails exactly when no name was given or when
    /// neither a constraint nor a state updater was given.
    pub fn build(self) -> (r: Result<Feature, GenericError>)
        ensures
            r is Ok <==> (self.name is Some && (self.constraint is Some || self.state is Some)),
            r is Ok ==> r->Ok_0 == (Feature {
                name: self.name->0,
                constraint: self.constraint,
                state: self.state,
            }),
    {
        match self.name {
            None => Err(String::from_str("feature name is not set")),
            Some(name) => {
                if self.constraint.is_none() && self.state.is_none() {
                    Err(String::from_str("feature has no constraint and no state"))
                } else {
                    Ok(Feature { name, constraint: self.constraint, state: self.state })
                }
            },
        }
    }
}

} // verus!
