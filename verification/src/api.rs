//! Booking a ride: what a request for a ride turns into.
//!
//! A request is planned into a ride, the ride is stored, the pilot index is
//! searched around the pickup, and where a pilot is found the ride is
//! accepted for that pilot, the pilot is marked assigned and the ride is
//! stored again. The steps here decide; storing and searching are done by the
//! caller, who hands each outcome to the next step.

use vstd::prelude::*;

use crate::dispatch::{DispatchCandidate, DispatchCandidateView};
use crate::distance;
use crate::error::{text_view, CoreError, CoreErrorView, CoreResult};
use crate::fsm::{RideEvent, RideStatus, RideStatusMachine};
use crate::model::{clone_text, hyphenated, is_random_id, Ride, RideLocation, RideView};

verus! {

/// The price of every ride, in cents.
pub const FLAT_PRICE_CENTS: i64 = 5000;

/// How far from the pickup a pilot is searched for: fifteen miles.
pub const SEARCH_RADIUS_MILES: i64 = 15_000_000;

/// How many pilots a search asks for.
pub const SEARCH_LIMIT: usize = 1;

/// What a rider asks for.
#[derive(Debug)]
pub struct RideRequest {
    pub rider_id: String,
    pub pickup: RideLocation,
    pub dropoff: RideLocation,
    pub bike_type: Option<String>,
    pub notes: Option<String>,
    pub rider_phone: Option<String>,
}

/// What the rider is told of the ride.
#[derive(Debug)]
pub struct RideResponse {
    pub id: u128,
    pub status: String,
    pub driver_id: Option<String>,
}

/// A response with its texts as sequences of characters.
pub struct RideResponseView {
    pub id: u128,
    pub status: Seq<char>,
    pub driver_id: Option<Seq<char>>,
}

impl View for RideResponse {
    type V = RideResponseView;

    open spec fn view(&self) -> RideResponseView {
        RideResponseView {
            id: self.id,
            status: self.status@,
            driver_id: text_view(self.driver_id),
        }
    }
}

/// What a response tells of a ride.
pub open spec fn response_of(ride: RideView) -> RideResponseView {
    RideResponseView { id: ride.id, status: ride.status, driver_id: ride.driver_id }
}

impl From<&Ride> for RideResponse {
    fn from(ride: &Ride) -> (response: Self)
        ensures
            response@ == response_of(ride@),
    {
        Self { id: ride.id, status: ride.status.clone(), driver_id: clone_text(&ride.driver_id) }
    }
}

impl vstd::std_specs::convert::FromSpecImpl<&Ride> for RideResponse {
    open spec fn obeys_from_spec() -> bool {
        true
    }

    open spec fn from_spec(ride: &Ride) -> Self {
        RideResponse { id: ride.id, status: ride.status, driver_id: ride.driver_id }
    }
}

/// Why a request to the API is turned down.
#[derive(Debug)]
pub enum ApiError {
    Core(CoreError),
    BadRequest(String),
}

/// A refusal with its texts as sequences of characters.
pub enum ApiErrorView {
    Core(CoreErrorView),
    BadRequest(Seq<char>),
}

impl View for ApiError {
    type V = ApiErrorView;

    open spec fn view(&self) -> ApiErrorView {
        match self {
            ApiError::Core(error) => ApiErrorView::Core(error@),
            ApiError::BadRequest(reason) => ApiErrorView::BadRequest(reason@),
        }
    }
}

impl From<CoreError> for ApiError {
    fn from(error: CoreError) -> (wrapped: Self)
        ensures
            wrapped@ == ApiErrorView::Core(error@),
    {
        ApiError::Core(error)
    }
}

impl vstd::std_specs::convert::FromSpecImpl<CoreError> for ApiError {
    open spec fn obeys_from_spec() -> bool {
        true
    }

    open spec fn from_spec(error: CoreError) -> Self {
        ApiError::Core(error)
    }
}

impl ApiError {
    /// The HTTP status that the refusal is answered with.
    pub open spec fn status_of(error: ApiErrorView) -> u16 {
        match error {
            ApiErrorView::Core(CoreErrorView::InvalidStatusTransition { .. }) => 400,
            ApiErrorView::Core(CoreErrorView::InvalidLocation(_)) => 400,
            ApiErrorView::Core(CoreErrorView::PilotLimitExceeded(_)) => 400,
            ApiErrorView::Core(CoreErrorView::NotFound) => 404,
            ApiErrorView::BadRequest(_) => 400,
            ApiErrorView::Core(_) => 500,
        }
    }

    pub fn status_code(&self) -> (status: u16)
        ensures
            status == Self::status_of(self@),
    {
        match self {
            ApiError::Core(CoreError::InvalidStatusTransition { .. }) => 400,
            ApiError::Core(CoreError::InvalidLocation(_)) => 400,
            ApiError::Core(CoreError::PilotLimitExceeded(_)) => 400,
            ApiError::Core(CoreError::NotFound) => 404,
            ApiError::BadRequest(_) => 400,
            ApiError::Core(_) => 500,
        }
    }
}

/// The first step: the ride for a request, or the refusal of a trip that is
/// too long. `great_circle_miles` is the great-circle distance between pickup
/// and dropoff. The ride is new: requested, without a pilot, at the flat
/// price, with the estimated distance and a fresh identifier.
pub fn plan_ride(request: RideRequest, great_circle_miles: i64) -> (planned: Result<Ride, ApiError>)
    ensures
        ({
            let miles = distance::estimated_miles(
                request.pickup,
                request.dropoff,
                great_circle_miles,
            );
            if distance::exceeds_pilot_limit(miles) {
                planned matches Err(e) && e@ == ApiErrorView::Core(
                    CoreErrorView::PilotLimitExceeded(miles),
                )
            } else {
                planned matches Ok(ride) && is_random_id(ride.id) && ride@ == (RideView {
                    id: ride.id,
                    rider_id: request.rider_id@,
                    pickup: request.pickup,
                    dropoff: request.dropoff,
                    status: RideStatus::Requested.code(),
                    bike_type: text_view(request.bike_type),
                    notes: text_view(request.notes),
                    rider_phone: text_view(request.rider_phone),
                    distance_miles: miles,
                    price_cents: FLAT_PRICE_CENTS,
                    driver_id: None,
                })
            }
        }),
{
    let miles = distance::estimate_distance_miles(
        &request.pickup,
        &request.dropoff,
        great_circle_miles,
    );
    match distance::enforce_pilot_distance(miles) {
        Err(e) => Err(ApiError::Core(e)),
        Ok(_) => Ok(
            Ride::new(
                request.rider_id,
                request.pickup,
                request.dropoff,
                request.bike_type,
                request.notes,
                request.rider_phone,
                miles,
                FLAT_PRICE_CENTS,
            ),
        ),
    }
}

/// The pilot that a search gives: the last candidate of the list, or none
/// where the list is empty or the search failed. A failed search does not
/// fail the booking.
pub open spec fn chosen_pilot(found: CoreResult<Vec<DispatchCandidate>>) -> Option<
    DispatchCandidateView,
> {
    match found {
        Ok(candidates) => if candidates@.len() > 0 {
            Some(candidates@.last()@)
        } else {
            None
        },
        Err(_) => None,
    }
}

/// The second step, once the pilot index has answered the search.
pub fn choose_pilot(found: CoreResult<Vec<DispatchCandidate>>) -> (chosen: Option<
    DispatchCandidate,
>)
    ensures
        match chosen_pilot(found) {
            Some(candidate) => chosen matches Some(c) && c@ == candidate,
            None => chosen is None,
        },
{
    match found {
        Ok(candidates) => {
            let mut candidates = candidates;
            candidates.pop()
        },
        Err(_) => None,
    }
}

/// The third step, where a pilot was chosen: the ride accepted for that
/// pilot. Its status is what accepting makes of a requested ride.
pub fn assign_pilot(ride: Ride, candidate: &DispatchCandidate) -> (assigned: Result<
    Ride,
    ApiError,
>)
    ensures
        assigned matches Ok(accepted) && accepted@ == (RideView {
            driver_id: Some(candidate.pilot_id@),
            status: RideStatus::Accepted.code(),
            ..ride@
        }),
{
    let status = match RideStatusMachine::apply_event(RideStatus::Requested, RideEvent::Accept) {
        Ok(status) => status,
        Err(e) => {
            return Err(ApiError::Core(e));
        },
    };
    let mut ride = ride;
    ride.driver_id = Some(candidate.pilot_id.clone());
    ride.status = status.to_string();
    Ok(ride)
}

/// What a status request is answered with, once the store has answered the
/// lookup: the response for the ride, or the failure of the lookup.
pub fn ride_status(found: CoreResult<Ride>) -> (answer: Result<RideResponse, ApiError>)
    ensures
        match found {
            Ok(ride) => answer matches Ok(response) && response@ == response_of(ride@),
            Err(e) => answer matches Err(refusal) && refusal@ == ApiErrorView::Core(e@),
        },
{
    match found {
        Ok(ride) => Ok(RideResponse::from(&ride)),
        Err(e) => Err(ApiError::Core(e)),
    }
}

/// A ride accepted for a pilot.
pub open spec fn accepted_for(ride: RideView, pilot_id: Seq<char>) -> RideView {
    RideView { driver_id: Some(pilot_id), status: RideStatus::Accepted.code(), ..ride }
}

/// Where a booking stands: what the caller was last asked to do, with the
/// ride as it is by now.
#[derive(Debug)]
pub enum Booking {
    /// The store was asked to take the new ride.
    Storing { ride: Ride },
    /// The pilot index was asked for pilots near the pickup.
    Searching { ride: Ride },
    /// The pilot index was asked to mark the pilot of the ride assigned.
    Assigning { ride: Ride },
    /// The store was asked to take the accepted ride.
    Updating { ride: Ride },
    /// Nothing is left to do.
    Done,
}

/// What the caller is asked to do next.
#[derive(Debug)]
pub enum BookingAction {
    CreateRide(Ride),
    FindNearbyPilots { location: RideLocation, radius_miles: i64, limit: usize },
    MarkAssigned { pilot_id: String, ride_id: String },
    UpdateRide(Ride),
    /// Answer the request with the response; the booking is over.
    Respond(RideResponse),
    /// Answer the request with the refusal; the booking is over.
    Fail(ApiError),
}

/// What came of the action that the caller was asked for.
#[derive(Debug)]
pub enum BookingOutcome {
    Stored(CoreResult<()>),
    Found(CoreResult<Vec<DispatchCandidate>>),
    Assigned(CoreResult<()>),
    Updated(CoreResult<()>),
}

impl BookingAction {
    /// Whether the action is a refusal for the failure `error`.
    pub open spec fn fails_with(self, error: CoreErrorView) -> bool {
        self matches BookingAction::Fail(refusal) && refusal@ == ApiErrorView::Core(error)
    }

    /// Whether the action is the response for `ride`.
    pub open spec fn responds_for(self, ride: RideView) -> bool {
        self matches BookingAction::Respond(response) && response@ == response_of(ride)
    }
}

impl Booking {
    /// The step of a booking: what state and action follow from a state and
    /// the outcome of the action that led to it.
    ///
    /// The new ride is stored before pilots are searched. A search that fails
    /// or finds nobody ends the booking with the ride as requested. A pilot
    /// found is marked assigned before the accepted ride is stored; if the
    /// index or the store fails on the way, the booking ends with that
    /// failure. An outcome that the state does not wait for ends the booking
    /// as a bad request.
    pub open spec fn steps_to(
        self,
        outcome: BookingOutcome,
        next: Booking,
        action: BookingAction,
    ) -> bool {
        match (self, outcome) {
            (Booking::Storing { ride }, BookingOutcome::Stored(Ok(_))) => {
                &&& next matches Booking::Searching { ride: kept }
                &&& kept@ == ride@
                &&& action == (BookingAction::FindNearbyPilots {
                    location: ride.pickup,
                    radius_miles: SEARCH_RADIUS_MILES,
                    limit: SEARCH_LIMIT,
                })
            },
            (Booking::Storing { ride }, BookingOutcome::Stored(Err(e))) => {
                next is Done && action.fails_with(e@)
            },
            (Booking::Searching { ride }, BookingOutcome::Found(found)) => match chosen_pilot(
                found,
            ) {
                Some(pilot) => {
                    &&& next matches Booking::Assigning { ride: accepted }
                    &&& accepted@ == accepted_for(ride@, pilot.pilot_id)
                    &&& action matches BookingAction::MarkAssigned { pilot_id, ride_id }
                    &&& pilot_id@ == pilot.pilot_id
                    &&& ride_id@ == hyphenated(ride.id)
                },
                None => next is Done && action.responds_for(ride@),
            },
            (Booking::Assigning { ride }, BookingOutcome::Assigned(Ok(_))) => {
                &&& next matches Booking::Updating { ride: kept }
                &&& kept@ == ride@
                &&& action matches BookingAction::UpdateRide(stored)
                &&& stored@ == ride@
            },
            (Booking::Assigning { ride }, BookingOutcome::Assigned(Err(e))) => {
                next is Done && action.fails_with(e@)
            },
            (Booking::Updating { ride }, BookingOutcome::Updated(Ok(_))) => {
                next is Done && action.responds_for(ride@)
            },
            (Booking::Updating { ride }, BookingOutcome::Updated(Err(e))) => {
                next is Done && action.fails_with(e@)
            },
            _ => {
                &&& next is Done
                &&& action matches BookingAction::Fail(refusal)
                &&& refusal@ == ApiErrorView::BadRequest("unexpected outcome"@)
            },
        }
    }

    /// Begins a booking: plans the ride and asks for it to be stored, or
    /// refuses a trip that is too long.
    pub fn begin(request: RideRequest, great_circle_miles: i64) -> (begun: (Booking, BookingAction))
        ensures
            ({
                let miles = distance::estimated_miles(
                    request.pickup,
                    request.dropoff,
                    great_circle_miles,
                );
                if distance::exceeds_pilot_limit(miles) {
                    begun.0 is Done && begun.1.fails_with(CoreErrorView::PilotLimitExceeded(miles))
                } else {
                    &&& begun.0 matches Booking::Storing { ride }
                    &&& begun.1 matches BookingAction::CreateRide(stored)
                    &&& stored@ == ride@
                    &&& is_random_id(ride.id)
                    &&& ride@ == (RideView {
                        id: ride.id,
                        rider_id: request.rider_id@,
                        pickup: request.pickup,
                        dropoff: request.dropoff,
                        status: RideStatus::Requested.code(),
                        bike_type: text_view(request.bike_type),
                        notes: text_view(request.notes),
                        rider_phone: text_view(request.rider_phone),
                        distance_miles: miles,
                        price_cents: FLAT_PRICE_CENTS,
                        driver_id: None,
                    })
                }
            }),
    {
        match plan_ride(request, great_circle_miles) {
            Err(refusal) => (Booking::Done, BookingAction::Fail(refusal)),
            Ok(ride) => {
                let stored = ride.clone();
                (Booking::Storing { ride }, BookingAction::CreateRide(stored))
            },
        }
    }

    /// Takes the outcome of the last action and says what to do next.
    pub fn advance(self, outcome: BookingOutcome) -> (next: (Booking, BookingAction))
        ensures
            self.steps_to(outcome, next.0, next.1),
    {
        match (self, outcome) {
            (Booking::Storing { ride }, BookingOutcome::Stored(Ok(_))) => {
                let search = BookingAction::FindNearbyPilots {
                    location: ride.pickup,
                    radius_miles: SEARCH_RADIUS_MILES,
                    limit: SEARCH_LIMIT,
                };
                (Booking::Searching { ride }, search)
            },
            (Booking::Storing { ride: _ }, BookingOutcome::Stored(Err(e))) => {
                (Booking::Done, BookingAction::Fail(ApiError::Core(e)))
            },
            (Booking::Searching { ride }, BookingOutcome::Found(found)) => {
                match choose_pilot(found) {
                    None => {
                        let response = RideResponse::from(&ride);
                        (Booking::Done, BookingAction::Respond(response))
                    },
                    Some(pilot) => {
                        let ride_id = ride.id_text();
                        match assign_pilot(ride, &pilot) {
                            Err(refusal) => (Booking::Done, BookingAction::Fail(refusal)),
                            Ok(accepted) => (
                                Booking::Assigning { ride: accepted },
                                BookingAction::MarkAssigned { pilot_id: pilot.pilot_id, ride_id },
                            ),
                        }
                    },
                }
            },
            (Booking::Assigning { ride }, BookingOutcome::Assigned(Ok(_))) => {
                let stored = ride.clone();
                (Booking::Updating { ride }, BookingAction::UpdateRide(stored))
            },
            (Booking::Assigning { ride: _ }, BookingOutcome::Assigned(Err(e))) => {
                (Booking::Done, BookingAction::Fail(ApiError::Core(e)))
            },
            (Booking::Updating { ride }, BookingOutcome::Updated(Ok(_))) => {
                let response = RideResponse::from(&ride);
                (Booking::Done, BookingAction::Respond(response))
            },
            (Booking::Updating { ride: _ }, BookingOutcome::Updated(Err(e))) => {
                (Booking::Done, BookingAction::Fail(ApiError::Core(e)))
            },
            _ => (
                Booking::Done,
                BookingAction::Fail(ApiError::BadRequest("unexpected outcome".to_owned())),
            ),
        }
    }

    /// A booking ends after four outcomes at most: every step moves on in the
    /// order storing, searching, assigning, updating, or ends the booking;
    /// a booking that is over stays over.
    pub proof fn booking_moves_forward(
        self,
        outcome: BookingOutcome,
        next: Booking,
        action: BookingAction,
    )
        requires
            self.steps_to(outcome, next, action),
        ensures
            next.stage() > self.stage() || (self is Done && next is Done),
            next is Done <==> (action is Respond || action is Fail),
    {
    }

    /// The ride of a booking that is under way.
    pub open spec fn ride(self) -> Option<RideView> {
        match self {
            Booking::Storing { ride } => Some(ride@),
            Booking::Searching { ride } => Some(ride@),
            Booking::Assigning { ride } => Some(ride@),
            Booking::Updating { ride } => Some(ride@),
            Booking::Done => None,
        }
    }

    /// A booking changes nothing of its ride but the status and the pilot:
    /// identifier, rider, coordinates, distance and price stay as planned.
    /// The pilot is set in one step only, when the search has found one, and
    /// with the pilot the ride becomes accepted; no step takes a pilot away.
    pub proof fn booking_keeps_its_ride(
        self,
        outcome: BookingOutcome,
        next: Booking,
        action: BookingAction,
    )
        requires
            self.steps_to(outcome, next, action),
            self.ride() is Some,
            next.ride() is Some,
        ensures
            next.ride()->0 == (RideView {
                status: next.ride()->0.status,
                driver_id: next.ride()->0.driver_id,
                ..self.ride()->0
            }),
            next.ride()->0 == self.ride()->0 || (self is Searching && next.ride()->0
                == accepted_for(self.ride()->0, next.ride()->0.driver_id->0)),
            self.ride()->0.driver_id is Some ==> next.ride()->0.driver_id is Some,
    {
    }

    /// How far a booking has come.
    pub open spec fn stage(self) -> int {
        match self {
            Booking::Storing { .. } => 0,
            Booking::Searching { .. } => 1,
            Booking::Assigning { .. } => 2,
            Booking::Updating { .. } => 3,
            Booking::Done => 4,
        }
    }
}

} // verus!
