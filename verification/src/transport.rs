//! The transport cost oracle: a symmetric-shape matrix of distances and
//! durations, indexed by a pair of locations.

use vstd::prelude::*;
use crate::common::{Distance, Duration, Location, MAX_TRAVEL};

verus! {

/// A time-independent transport matrix over `size` locations; entry
/// `from * size + to` holds the travel measure from `from` to `to`.
#[derive(Clone, Debug)]
pub struct Transport {
    /// The number of locations the matrix covers.
    pub size: usize,
    /// The distance entries, row by row.
    pub distances: Vec<Distance>,
    /// The duration entries, row by row.
    pub durations: Vec<Duration>,
}

impl Transport {
    /// A well-formed matrix: both tables are square over `size` locations
    /// and every entry is a bounded, non-negative travel measure.
    pub open spec fn wf(self) -> bool {
        &&& self.distances@.len() == self.size * self.size
        &&& self.durations@.len() == self.size * self.size
        &&& forall|i: int|
            0 <= i < self.distances@.len() ==> 0 <= #[trigger] self.distances@[i] <= MAX_TRAVEL
        &&& forall|i: int|
            0 <= i < self.durations@.len() ==> 0 <= #[trigger] self.durations@[i] <= MAX_TRAVEL
    }

    /// The distance entry from `from` to `to`.
    pub open spec fn spec_distance(self, from: Location, to: Location) -> Distance {
        self.distances@[from * self.size + to]
    }

    /// The duration entry from `from` to `to`.
    pub open spec fn spec_duration(self, from: Location, to: Location) -> Duration {
        self.durations@[from * self.size + to]
    }

    proof fn lemma_index_in_range(self, from: Location, to: Location)
        requires
            self.wf(),
            from < self.size,
            to < self.size,
        ensures
            from * self.size + to < self.distances@.len(),
            from * self.size + to < self.durations@.len(),
    {
        assert(from * self.size + to < self.size * self.size) by (nonlinear_arith)
            requires
                from < self.size,
                to < self.size,
        ;
    }

    /// The distance of travelling from `from` to `to`.
    pub fn distance(&self, from: Location, to: Location) -> (r: Distance)
        requires
            self.wf(),
            from < self.size,
            to < self.size,
        ensures
            r == self.spec_distance(from, to),
            0 <= r <= MAX_TRAVEL,
    {
        let _n = self.distances.len();
        proof {
            self.lemma_index_in_range(from, to);
        }
        self.distances[from * self.size + to]
    }

    /// The duration of travelling from `from` to `to`.
    pub fn duration(&self, from: Location, to: Location) -> (r: Duration)
        requires
            self.wf(),
            from < self.size,
            to < self.size,
        ensures
            r == self.spec_duration(from, to),
            0 <= r <= MAX_TRAVEL,
    {
        let _n = self.durations.len();
        proof {
            self.lemma_index_in_range(from, to);
        }
        self.durations[from * self.size + to]
    }
}

} // verus!
