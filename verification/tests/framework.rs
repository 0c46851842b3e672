use vrp_core::common::ConstraintViolation;
use vrp_core::feature::{evaluate_pipeline, FeatureBuilder, FeatureConstraintVariant, FeatureStateVariant};
use vrp_core::mdp::{ActionStrategy, Agent, LearningStrategy, State, TerminationStrategy};
use vrp_core::models::{Activity, Actor, ActorLimits, Job, JobPlace, Route, Schedule, Single, Tour};
use vrp_core::state::{MoveContext, RouteContext, RouteState};
use vrp_core::enablers::ScheduleKeys;
use vrp_core::tour_limits::{
    create_activity_limit_feature, create_location_limit_feature, create_travel_limit_feature,
    TourLimitKeys, TravelLimitState,
};
use vrp_core::transport::Transport;

fn no_limits() -> ActorLimits {
    ActorLimits {
        max_activities: None,
        max_unique_locations: None,
        max_distance: None,
        max_duration: None,
    }
}

fn route_ctx_with_limits(limits: ActorLimits) -> RouteContext {
    RouteContext {
        route: Route {
            actor: Actor { vehicle_id: 0, limits },
            tour: Tour {
                activities: vec![Activity {
                    location: 0,
                    schedule: Schedule { arrival: 0, departure: 0 },
                    job: None,
                }],
            },
        },
        state: RouteState::new(),
    }
}

fn small_transport() -> Transport {
    Transport { size: 2, distances: vec![0, 1, 1, 0], durations: vec![0, 1, 1, 0] }
}

fn keys() -> TourLimitKeys {
    TourLimitKeys {
        duration_key: 2,
        schedule_keys: ScheduleKeys { total_distance: 0, total_duration: 1 },
        distance_code: 4,
        duration_code: 5,
    }
}

#[test]
fn route_state_stores_and_returns_values() {
    let mut state = RouteState::new();
    assert_eq!(state.get_route_state(0), None);
    state.put_route_state(3, 42);
    assert_eq!(state.get_route_state(3), Some(42));
    assert_eq!(state.get_route_state(0), None);
    assert_eq!(state.get_route_state(7), None);
    state.put_route_state(3, -7);
    assert_eq!(state.get_route_state(3), Some(-7));
}

#[test]
fn transport_answers_matrix_entries() {
    let transport = small_transport();
    assert_eq!(transport.distance(0, 1), 1);
    assert_eq!(transport.distance(1, 1), 0);
    assert_eq!(transport.duration(1, 0), 1);
}

#[test]
fn builder_without_name_is_refused() {
    let result = FeatureBuilder::default().build();
    assert_eq!(result.unwrap_err(), "feature name is not set");
}

#[test]
fn builder_without_any_capability_is_refused() {
    let result = FeatureBuilder::default().with_name("empty").build();
    assert_eq!(result.unwrap_err(), "feature has no constraint and no state");
}

#[test]
fn create_activity_limit_feature_builds_a_constraint_only_feature() {
    let feature = create_activity_limit_feature("activity_limit", 3).unwrap();
    assert_eq!(feature.name, "activity_limit");
    assert!(feature.state.is_none());
    match feature.constraint {
        Some(FeatureConstraintVariant::ActivityLimit(constraint)) => {
            assert_eq!(constraint.code, 3)
        },
        _ => panic!("expected an activity limit constraint"),
    }
}

#[test]
fn create_location_limit_feature_builds_a_constraint_only_feature() {
    let feature = create_location_limit_feature("location_limit", 6).unwrap();
    assert_eq!(feature.name, "location_limit");
    assert!(feature.state.is_none());
    match feature.constraint {
        Some(FeatureConstraintVariant::LocationLimit(constraint)) => {
            assert_eq!(constraint.code, 6)
        },
        _ => panic!("expected a location limit constraint"),
    }
}

#[test]
fn create_travel_limit_feature_builds_constraint_and_state() {
    let feature = create_travel_limit_feature("travel_limit", small_transport(), keys()).unwrap();
    assert_eq!(feature.name, "travel_limit");
    match &feature.constraint {
        Some(FeatureConstraintVariant::TravelLimit(constraint)) => {
            assert_eq!(constraint.limit_keys.distance_code, 4);
            assert_eq!(constraint.limit_keys.duration_code, 5);
            assert_eq!(constraint.transport.size, 2);
        },
        _ => panic!("expected a travel limit constraint"),
    }
    match &feature.state {
        Some(FeatureStateVariant::TravelLimit(state)) => {
            assert_eq!(state.duration_key, 2);
            assert!(state.state_keys().is_empty());
        },
        _ => panic!("expected a travel limit state"),
    }
}

#[test]
fn built_feature_evaluates_through_its_constraint() {
    let feature = create_activity_limit_feature("activity_limit", 3).unwrap();
    let ctx = route_ctx_with_limits(ActorLimits { max_activities: Some(0), ..no_limits() });
    let job = Job::Single(Single { places: vec![JobPlace { location: Some(1) }] });
    let constraint = feature.constraint.unwrap();
    let verdict = constraint.evaluate(&MoveContext::Route { route_ctx: &ctx, job: &job });
    assert_eq!(verdict, Some(ConstraintViolation { code: 3, stopped: true }));
}

#[test]
fn merge_keeps_the_source_job() {
    let feature = create_location_limit_feature("location_limit", 6).unwrap();
    let source = Job::Single(Single { places: vec![JobPlace { location: Some(1) }] });
    let candidate = Job::Single(Single { places: vec![JobPlace { location: Some(2) }] });
    let constraint = feature.constraint.unwrap();
    match constraint.merge(source, candidate) {
        Ok(Job::Single(merged)) => assert_eq!(merged.places[0].location, Some(1)),
        _ => panic!("expected the source job back"),
    }
}

#[test]
fn accept_route_state_publishes_the_duration_limit() {
    let state = TravelLimitState { duration_key: 2, state_keys: vec![] };
    let mut ctx = route_ctx_with_limits(ActorLimits { max_duration: Some(9), ..no_limits() });
    ctx.state.put_route_state(0, 11);
    state.accept_route_state(&mut ctx);
    assert_eq!(ctx.state.get_route_state(2), Some(9));
    assert_eq!(ctx.state.get_route_state(0), Some(11));
}

#[test]
fn accept_route_state_without_duration_limit_changes_nothing() {
    let state = TravelLimitState { duration_key: 2, state_keys: vec![] };
    let mut ctx = route_ctx_with_limits(no_limits());
    state.accept_route_state(&mut ctx);
    assert_eq!(ctx.state.get_route_state(2), None);
}

/// A walk towards a goal: the state is a position, the actions are unit
/// steps, and the reward grows towards the goal.
#[derive(Clone)]
struct WalkState {
    position: i64,
}

impl State for WalkState {
    type Action = i64;

    fn actions(&self) -> Option<Vec<i64>> {
        if self.position >= 3 {
            None
        } else {
            Some(vec![1])
        }
    }

    fn reward(&self) -> i64 {
        self.position
    }
}

struct WalkAgent {
    state: WalkState,
}

impl Agent<WalkState> for WalkAgent {
    fn get_state(&self) -> &WalkState {
        &self.state
    }

    fn take_action(&mut self, action: &i64) {
        self.state = WalkState { position: self.state.position + action };
    }
}

struct AveragingStrategy;

impl LearningStrategy<WalkState> for AveragingStrategy {
    fn value(
        &self,
        reward_value: i64,
        old_value: Option<i64>,
        _next_actions_values: Option<&Vec<(i64, i64)>>,
    ) -> i64 {
        let old = old_value.unwrap_or(0);
        old + (reward_value - old) / 2
    }
}

struct GreedyStrategy;

impl ActionStrategy<WalkState> for GreedyStrategy {
    fn select(&self, actions_values: &Vec<(i64, i64)>) -> i64 {
        let mut best = actions_values[0];
        for candidate in actions_values.iter() {
            if candidate.1 > best.1 {
                best = *candidate;
            }
        }
        best.0
    }
}

struct GoalReached;

impl TerminationStrategy<WalkState> for GoalReached {
    fn is_termination(&self, state: &WalkState) -> bool {
        state.position >= 3
    }
}

#[test]
fn mdp_traits_drive_a_walk_to_its_goal() {
    let mut agent = WalkAgent { state: WalkState { position: 0 } };
    let learning = AveragingStrategy;
    let action_strategy = GreedyStrategy;
    let termination = GoalReached;
    let mut estimate: Option<i64> = None;
    let mut steps = 0;
    while !termination.is_termination(agent.get_state()) {
        let actions = agent.get_state().actions().expect("a non-terminal state offers actions");
        let values: Vec<(i64, i64)> = actions.iter().map(|a| (*a, 0)).collect();
        let action = action_strategy.select(&values);
        agent.take_action(&action);
        estimate = Some(learning.value(agent.get_state().reward(), estimate, Some(&values)));
        steps += 1;
    }
    assert_eq!(steps, 3);
    assert_eq!(agent.get_state().position, 3);
    assert!(agent.get_state().actions().is_none());
    assert_eq!(estimate, Some(2));
}

#[test]
fn pipeline_short_circuits_on_the_first_violation() {
    let activity = create_activity_limit_feature("activity_limit", 3).unwrap();
    let location = create_location_limit_feature("location_limit", 6).unwrap();
    let constraints: Vec<FeatureConstraintVariant> =
        vec![activity.constraint.unwrap(), location.constraint.unwrap()];
    // Both limits are exceeded; the first constraint's code is reported.
    let ctx = route_ctx_with_limits(ActorLimits {
        max_activities: Some(0),
        max_unique_locations: Some(0),
        ..no_limits()
    });
    let job = Job::Single(Single { places: vec![JobPlace { location: Some(1) }] });
    let verdict = evaluate_pipeline(&constraints, &MoveContext::Route { route_ctx: &ctx, job: &job });
    assert_eq!(verdict, Some(ConstraintViolation { code: 3, stopped: true }));
}

#[test]
fn pipeline_is_feasible_when_every_constraint_agrees() {
    let activity = create_activity_limit_feature("activity_limit", 3).unwrap();
    let location = create_location_limit_feature("location_limit", 6).unwrap();
    let constraints: Vec<FeatureConstraintVariant> =
        vec![activity.constraint.unwrap(), location.constraint.unwrap()];
    let ctx = route_ctx_with_limits(ActorLimits {
        max_activities: Some(2),
        max_unique_locations: Some(2),
        ..no_limits()
    });
    let job = Job::Single(Single { places: vec![JobPlace { location: Some(1) }] });
    let verdict = evaluate_pipeline(&constraints, &MoveContext::Route { route_ctx: &ctx, job: &job });
    assert_eq!(verdict, None);
    assert_eq!(evaluate_pipeline(&Vec::new(), &MoveContext::Route { route_ctx: &ctx, job: &job }), None);
}
