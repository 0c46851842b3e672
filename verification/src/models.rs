//! The problem and solution model: jobs with their candidate places,
//! actors with their tour limits, activities, tours and routes.

use vstd::prelude::*;
use crate::common::{Distance, Duration, Location, Timestamp};

verus! {

/// A candidate place of a single job: an alternative location where the
/// job's service may be performed. A place may leave the location open.
#[derive(Clone, Debug)]
pub struct JobPlace {
    /// The location of the place, absent when any location is acceptable.
    pub location: Option<Location>,
}

/// A single job: a service at one of several candidate places.
#[derive(Clone, Debug)]
pub struct Single {
    /// The candidate places of the job.
    pub places: Vec<JobPlace>,
}

/// A multi job: an ordered bag of singles which must share a route.
#[derive(Clone, Debug)]
pub struct Multi {
    /// The singles of the multi job, in their declared order.
    pub jobs: Vec<Single>,
}

/// A job of the problem: either a single or a multi job.
#[derive(Clone, Debug)]
pub enum Job {
    /// A job with one service.
    Single(Single),
    /// A job whose services must all share a route, in order.
    Multi(Multi),
}

impl Job {
    /// How many activities an insertion of this job adds to a tour:
    /// one for a single job, one per sub-job for a multi job.
    pub open spec fn spec_activity_count(self) -> nat {
        match self {
            Job::Single(_) => 1,
            Job::Multi(multi) => multi.jobs@.len(),
        }
    }
}

/// The limits an actor puts on any tour it executes; an absent limit
/// leaves the corresponding dimension unconstrained.
#[derive(Clone, Debug)]
pub struct ActorLimits {
    /// The largest number of job activities allowed on the tour.
    pub max_activities: Option<usize>,
    /// The largest number of distinct locations allowed on the tour.
    pub max_unique_locations: Option<usize>,
    /// The largest total travelled distance allowed on the tour.
    pub max_distance: Option<Distance>,
    /// The largest total travelled duration allowed on the tour.
    pub max_duration: Option<Duration>,
}

/// An actor: a vehicle-driver pair eligible to execute a route, together
/// with the tour limits its configuration declares.
#[derive(Clone, Debug)]
pub struct Actor {
    /// An identifier of the vehicle behind the actor.
    pub vehicle_id: usize,
    /// The tour limits declared for the actor.
    pub limits: ActorLimits,
}

/// A schedule of an activity: when it is reached and when it is left.
#[derive(Clone, Copy, Debug, PartialEq, Eq, Structural)]
pub struct Schedule {
    /// The arrival time at the activity's location.
    pub arrival: Timestamp,
    /// The departure time from the activity's location.
    pub departure: Timestamp,
}

/// A concrete execution of a job place at a definite location, or a
/// start/end marker of the tour (for which `job` is absent).
#[derive(Clone, Debug)]
pub struct Activity {
    /// The definite location of the activity.
    pub location: Location,
    /// The schedule of the activity.
    pub schedule: Schedule,
    /// The single behind the activity; absent for start and end markers.
    pub job: Option<Single>,
}

/// An ordered sequence of activities, beginning with a start marker and
/// optionally ending with an end marker.
#[derive(Clone, Debug)]
pub struct Tour {
    /// The activities of the tour, markers included.
    pub activities: Vec<Activity>,
}

/// How many of the activities in `acts` are job activities, markers
/// excluded.
pub open spec fn spec_job_activity_count(acts: Seq<Activity>) -> nat
    decreases acts.len(),
{
    if acts.len() == 0 {
        0
    } else {
        spec_job_activity_count(acts.drop_last()) + (if acts.last().job is Some {
            1nat
        } else {
            0nat
        })
    }
}

impl Tour {
    /// Counts the job activities of the tour, start/end markers excluded.
    pub fn job_activity_count(&self) -> (r: usize)
        ensures
            r == spec_job_activity_count(self.activities@),
    {
        let mut count: usize = 0;
        let mut i: usize = 0;
        while i < self.activities.len()
            invariant
                i <= self.activities@.len(),
                count == spec_job_activity_count(self.activities@.take(i as int)),
                count <= i,
            decreases self.activities@.len() - i,
        {
            proof {
                assert(self.activities@.take(i + 1).drop_last() =~= self.activities@.take(
                    i as int,
                ));
                assert(self.activities@.take(i + 1).last() == self.activities@[i as int]);
            }
            if self.activities[i].job.is_some() {
                count = count + 1;
            }
            i = i + 1;
        }
        proof {
            assert(self.activities@.take(self.activities@.len() as int) =~= self.activities@);
        }
        count
    }
}

/// A route: an actor together with the tour it executes.
#[derive(Clone, Debug)]
pub struct Route {
    /// The actor which executes the tour.
    pub actor: Actor,
    /// The tour of the route.
    pub tour: Tour,
}

} // verus!
