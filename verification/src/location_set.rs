//! A set of distinct locations, backed by hashbrown's hash set. The
//! location-uniqueness constraint counts distinct tour and job locations
//! through it.

use vstd::prelude::*;
use crate::common::Location;

verus! {

/// The distinct locations a location set holds.
pub uninterp spec fn location_set_contents(s: LocationSet) -> Set<Location>;

/// A collection of distinct locations. The backing hash set is opaque to
/// the verifier; its contents are tracked through `location_set_contents`
/// by the contracts of the methods below.
#[verifier::external_body]
pub struct LocationSet {
    inner: hashbrown::HashSet<Location>,
}

impl LocationSet {
    /// Relies on hashbrown::HashSet::new: the new set holds nothing.
    #[verifier::external_body]
    pub fn new() -> (r: LocationSet)
        ensures
            location_set_contents(r) == Set::<Location>::empty(),
    {
        LocationSet { inner: hashbrown::HashSet::new() }
    }

    /// Relies on hashbrown::HashSet::insert: afterwards the set holds the
    /// given value beside everything it held before, and the call reports
    /// whether the value was new.
    #[verifier::external_body]
    pub fn insert(&mut self, value: Location) -> (r: bool)
        ensures
            location_set_contents(*final(self)) == location_set_contents(*old(self)).insert(
                value,
            ),
            r == !location_set_contents(*old(self)).contains(value),
    {
        self.inner.insert(value)
    }

    /// Relies on hashbrown::HashSet::len: how many distinct values the set
    /// holds.
    #[verifier::external_body]
    pub fn len(&self) -> (r: usize)
        ensures
            r == location_set_contents(*self).len(),
    {
        self.inner.len()
    }
}

} // verus!
