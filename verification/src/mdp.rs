//! The Markov-decision-process interfaces behind the adaptive operator
//! selector: states with actions and rewards, agents, and the pluggable
//! learning, action-selection and termination strategies.
//!
//! Rewards and action values are integral reward units.

use vstd::prelude::*;

verus! {

/// Represents a state in the decision process.
pub trait State: Sized {
    /// Action type associated with the state.
    type Action;

    /// Returns actions associated with the state. If no actions are
    /// associated, then the state is considered as terminal.
    fn actions(&self) -> Option<Vec<Self::Action>>;

    /// Returns the reward of being in this state, in reward units.
    fn reward(&self) -> i64;
}

/// Represents an agent in the decision process.
pub trait Agent<S: State>: Sized {
    /// Returns the current state of the agent.
    fn get_state(&self) -> &S;

    /// Takes the action in the current agent's state; potentially changes
    /// the agent's state.
    fn take_action(&mut self, action: &S::Action);
}

/// A learning strategy for the decision process: estimates an action
/// value from the received reward, the current value, and the action
/// values of the next state.
pub trait LearningStrategy<S: State>: Sized {
    /// Estimates an action value.
    fn value(
        &self,
        reward_value: i64,
        old_value: Option<i64>,
        next_actions_values: Option<&Vec<(S::Action, i64)>>,
    ) -> i64;
}

/// An action selection strategy.
pub trait ActionStrategy<S: State>: Sized {
    /// Selects an action from the action-values list.
    fn select(&self, actions_values: &Vec<(S::Action, i64)>) -> S::Action;
}

/// A termination strategy.
pub trait TerminationStrategy<S: State>: Sized {
    /// Returns true if the state is terminal.
    fn is_termination(&self, state: &S) -> bool;
}

} // verus!
