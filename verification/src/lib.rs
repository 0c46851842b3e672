//! A verified core of a Vehicle Routing Problem solver: the tour-limit
//! constraint features, the route contexts and state cache they read, the
//! transport matrix behind travel deltas, and the Markov-decision-process
//! interfaces of the adaptive operator selector.

pub mod common;
pub mod models;
pub mod state;
pub mod transport;
pub mod enablers;
mod location_set;
pub mod feature;
pub mod tour_limits;
pub mod mdp;
