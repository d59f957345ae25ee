//! The ride store kept in memory.
//!
//! The store maps the identifier of a ride to the ride. It is a plain value:
//! whoever shares it between tasks puts it behind a lock.

use std::collections::HashMap;
use vstd::prelude::*;

use crate::error::{CoreError, CoreErrorView, CoreResult};
use crate::model::{Ride, RideView};

verus! {

broadcast use vstd::std_specs::hash::group_hash_axioms;

/// Rides by their identifier.
pub struct InMemoryRideRepository {
    rides: HashMap<u128, Ride>,
}

impl View for InMemoryRideRepository {
    type V = Map<u128, RideView>;

    /// The stored rides by identifier.
    closed spec fn view(&self) -> Map<u128, RideView> {
        self.rides@.map_values(|ride: Ride| ride@)
    }
}

impl InMemoryRideRepository {
    /// An empty store.
    pub fn new() -> (repository: Self)
        ensures
            repository@ == Map::<u128, RideView>::empty(),
    {
        let repository = Self { rides: HashMap::new() };
        assert(repository@ =~= Map::<u128, RideView>::empty());
        repository
    }

    /// Stores a new ride under its identifier. Where a ride is stored under
    /// that identifier already, the result is `AlreadyExists` and the store
    /// stays as it is.
    pub fn create_ride(&mut self, ride: Ride) -> (created: CoreResult<()>)
        ensures
            created is Ok <==> !old(self)@.contains_key(ride.id),
            created is Ok ==> final(self)@ == old(self)@.insert(ride.id, ride@),
            created matches Err(e) ==> final(self)@ == old(self)@ && e@
                == CoreErrorView::AlreadyExists,
    {
        if self.rides.contains_key(&ride.id) {
            return Err(CoreError::AlreadyExists);
        }
        self.rides.insert(ride.id, ride);
        assert(self@ =~= old(self)@.insert(ride.id, ride@));
        Ok(())
    }

    /// A copy of the ride stored under `id`, or `NotFound`.
    pub fn get_ride(&self, id: &u128) -> (found: CoreResult<Ride>)
        ensures
            match found {
                Ok(ride) => self@.contains_key(*id) && ride@ == self@[*id],
                Err(e) => !self@.contains_key(*id) && e@ == CoreErrorView::NotFound,
            },
    {
        match self.rides.get(id) {
            Some(ride) => Ok(ride.clone()),
            None => Err(CoreError::NotFound),
        }
    }

    /// Replaces the ride stored under the identifier of `ride`. Where none
    /// is stored under it, the result is `NotFound` and the store stays as it
    /// is: an update never adds a ride.
    pub fn update_ride(&mut self, ride: Ride) -> (updated: CoreResult<()>)
        ensures
            updated is Ok <==> old(self)@.contains_key(ride.id),
            updated is Ok ==> final(self)@ == old(self)@.insert(ride.id, ride@),
            updated matches Err(e) ==> final(self)@ == old(self)@ && e@
                == CoreErrorView::NotFound,
    {
        if !self.rides.contains_key(&ride.id) {
            return Err(CoreError::NotFound);
        }
        self.rides.insert(ride.id, ride);
        assert(self@ =~= old(self)@.insert(ride.id, ride@));
        Ok(())
    }

    /// A ride that was created can be read back until it is replaced.
    pub proof fn created_ride_is_found(before: Map<u128, RideView>, ride: RideView)
        ensures
            before.insert(ride.id, ride).contains_key(ride.id),
            before.insert(ride.id, ride)[ride.id] == ride,
    {
    }

    /// Neither creating nor updating changes how many rides there are under
    /// other identifiers, nor what they are.
    pub proof fn other_rides_stay(before: Map<u128, RideView>, ride: RideView, other: u128)
        requires
            other != ride.id,
        ensures
            before.insert(ride.id, ride).contains_key(other) == before.contains_key(other),
            before.contains_key(other) ==> before.insert(ride.id, ride)[other] == before[other],
    {
    }
}

impl Default for InMemoryRideRepository {
    fn default() -> (repository: Self)
        ensures
            repository@ == Map::<u128, RideView>::empty(),
    {
        Self::new()
    }
}

} // verus!
