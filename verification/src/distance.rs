//! The distance of a trip, and the limit on what a pilot may ride.
//!
//! The great-circle distance between two coordinates is trigonometry on real
//! numbers and is computed by the caller. What this module decides is when
//! that figure is used at all, what is reported in its place, and whether the
//! result is within the limit.

use vstd::prelude::*;

use crate::error::{CoreErrorView, CoreResult};
use crate::model::RideLocation;

verus! {

/// The distance reported where a coordinate is missing: two miles.
pub const FALLBACK_MILES: i64 = 2_000_000;

/// The shortest distance ever reported: one mile.
pub const MINIMUM_MILES: i64 = 1_000_000;

/// The longest trip a pilot may ride: ten miles.
pub const PILOT_LIMIT_MILES: i64 = 10_000_000;

/// The distance of a trip in millionths of a mile, given the great-circle
/// distance between its ends: the fallback where either end is missing,
/// else the great-circle distance, but no less than the minimum.
pub open spec fn estimated_miles(
    pickup: RideLocation,
    dropoff: RideLocation,
    great_circle_miles: i64,
) -> i64 {
    if pickup.is_missing() || dropoff.is_missing() {
        FALLBACK_MILES
    } else if great_circle_miles < MINIMUM_MILES {
        MINIMUM_MILES
    } else {
        great_circle_miles
    }
}

/// Whether a trip of this length is too long for a pilot. A trip of exactly
/// the limit is not.
pub open spec fn exceeds_pilot_limit(distance_miles: i64) -> bool {
    distance_miles > PILOT_LIMIT_MILES
}

/// Whether the great-circle distance between two coordinates is needed to
/// estimate the trip between them.
pub fn needs_great_circle(pickup: &RideLocation, dropoff: &RideLocation) -> (needed: bool)
    ensures
        needed == !(pickup.is_missing() || dropoff.is_missing()),
{
    !(pickup.lat == 0 || pickup.lng == 0 || dropoff.lat == 0 || dropoff.lng == 0)
}

/// Estimates the distance of a trip. `great_circle_miles` is the haversine
/// distance between the two coordinates on a sphere of radius 3959 miles; it
/// is not looked at where a coordinate is missing.
pub fn estimate_distance_miles(
    pickup: &RideLocation,
    dropoff: &RideLocation,
    great_circle_miles: i64,
) -> (miles: i64)
    ensures
        miles == estimated_miles(*pickup, *dropoff, great_circle_miles),
{
    if !needs_great_circle(pickup, dropoff) {
        return FALLBACK_MILES;
    }
    if great_circle_miles < MINIMUM_MILES {
        MINIMUM_MILES
    } else {
        great_circle_miles
    }
}

/// Enforces the limit on the length of a trip. A trip over the limit is
/// reported with its distance, never shortened.
pub fn enforce_pilot_distance(distance_miles: i64) -> (checked: CoreResult<()>)
    ensures
        checked is Ok <==> !exceeds_pilot_limit(distance_miles),
        checked matches Err(e) ==> e@ == CoreErrorView::PilotLimitExceeded(distance_miles),
{
    if distance_miles > PILOT_LIMIT_MILES {
        Err(crate::error::CoreError::PilotLimitExceeded(distance_miles))
    } else {
        Ok(())
    }
}

/// The estimate does not depend on which end of the trip is named first, as
/// long as the great-circle distance does not.
pub proof fn estimate_is_symmetric(a: RideLocation, b: RideLocation, great_circle_miles: i64)
    ensures
        estimated_miles(a, b, great_circle_miles) == estimated_miles(b, a, great_circle_miles),
{
}

/// A trip from a coordinate to itself, whose great-circle distance is zero,
/// is estimated at exactly one mile; so is every trip of less than a mile
/// between coordinates that are not missing.
pub proof fn short_trip_is_one_mile(a: RideLocation, b: RideLocation, great_circle_miles: i64)
    requires
        !a.is_missing(),
        !b.is_missing(),
        great_circle_miles <= MINIMUM_MILES,
    ensures
        estimated_miles(a, b, great_circle_miles) == MINIMUM_MILES,
        estimated_miles(a, a, 0) == MINIMUM_MILES,
{
}

/// With an end at latitude zero and longitude zero the estimate is exactly
/// two miles, whatever the other end and the great-circle distance.
pub proof fn origin_gives_fallback(other: RideLocation, great_circle_miles: i64)
    ensures
        estimated_miles(RideLocation { lat: 0, lng: 0 }, other, great_circle_miles)
            == FALLBACK_MILES,
        estimated_miles(other, RideLocation { lat: 0, lng: 0 }, great_circle_miles)
            == FALLBACK_MILES,
{
}

/// A trip between two coordinates that are not missing, whose great-circle
/// distance is over one mile and at most ten, is estimated at that distance
/// and is within the limit.
pub proof fn trip_up_to_ten_miles_passes(
    a: RideLocation,
    b: RideLocation,
    great_circle_miles: i64,
)
    requires
        !a.is_missing(),
        !b.is_missing(),
        MINIMUM_MILES < great_circle_miles <= PILOT_LIMIT_MILES,
    ensures
        estimated_miles(a, b, great_circle_miles) == great_circle_miles,
        !exceeds_pilot_limit(estimated_miles(a, b, great_circle_miles)),
{
}

/// An estimate is never under one mile.
pub proof fn estimate_is_at_least_minimum(
    a: RideLocation,
    b: RideLocation,
    great_circle_miles: i64,
)
    ensures
        estimated_miles(a, b, great_circle_miles) >= MINIMUM_MILES,
{
}

} // verus!
