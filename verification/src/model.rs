//! Rides and the coordinates they run between.

use vstd::prelude::*;

use crate::error::text_view;

verus! {

/// A geospatial coordinate, in millionths of a degree. Nothing limits the
/// range; a zero latitude or longitude stands for a coordinate that is
/// missing.
#[derive(Debug, Clone, Copy, PartialEq, Eq, Structural)]
pub struct RideLocation {
    pub lat: i64,
    pub lng: i64,
}

impl RideLocation {
    pub fn new(lat: i64, lng: i64) -> (location: Self)
        ensures
            location.lat == lat,
            location.lng == lng,
    {
        Self { lat, lng }
    }

    /// Whether the coordinate counts as missing: its latitude or its
    /// longitude is zero.
    pub open spec fn is_missing(self) -> bool {
        self.lat == 0 || self.lng == 0
    }
}

/// The bits that every random (version 4) identifier has in common: the
/// version in bits 76 to 79, the variant in bits 62 and 63.
pub open spec fn is_random_id(id: u128) -> bool {
    id & 0x0000_0000_0000_f000_c000_0000_0000_0000 == 0x0000_0000_0000_4000_8000_0000_0000_0000
}

/// The lowercase hexadecimal digit for `nibble`.
pub open spec fn hex_digit(nibble: int) -> char
    recommends
        0 <= nibble < 16,
{
    if nibble < 10 {
        (48 + nibble) as char
    } else {
        (87 + nibble) as char
    }
}

/// The last `digits` hexadecimal digits of `value`, lowercase.
pub open spec fn hex_text(value: nat, digits: nat) -> Seq<char>
    decreases digits,
{
    if digits == 0 {
        Seq::empty()
    } else {
        hex_text(value / 16, (digits - 1) as nat).push(hex_digit((value % 16) as int))
    }
}

/// The text of an identifier: its 32 hexadecimal digits, highest first, in
/// groups of 8, 4, 4, 4 and 12 with hyphens between them.
pub open spec fn hyphenated(id: u128) -> Seq<char> {
    let digits = hex_text(id as nat, 32);
    digits.subrange(0, 8) + seq!['-'] + digits.subrange(8, 12) + seq!['-'] + digits.subrange(
        12,
        16,
    ) + seq!['-'] + digits.subrange(16, 20) + seq!['-'] + digits.subrange(20, 32)
}

/// `uuid::Uuid::new_v4`, as the 128-bit value of `Uuid::as_u128`. The value
/// is random; the version and variant bits are what every call sets.
#[verifier::external_body]
fn fresh_id() -> (id: u128)
    ensures
        is_random_id(id),
{
    uuid::Uuid::new_v4().as_u128()
}

/// `uuid::Uuid::to_string` on `Uuid::from_u128(id)`: the hyphenated lowercase
/// form of the value.
#[verifier::external_body]
fn id_text(id: u128) -> (text: String)
    ensures
        text@ == hyphenated(id),
{
    uuid::Uuid::from_u128(id).to_string()
}

/// A ride as the dispatch and API layers see it.
#[derive(Debug)]
pub struct Ride {
    /// Globally unique, given at creation.
    pub id: u128,
    pub rider_id: String,
    pub pickup: RideLocation,
    pub dropoff: RideLocation,
    /// The code of the ride's status.
    pub status: String,
    pub bike_type: Option<String>,
    pub notes: Option<String>,
    pub rider_phone: Option<String>,
    /// In millionths of a mile.
    pub distance_miles: i64,
    pub price_cents: i64,
    /// The pilot, once one is assigned.
    pub driver_id: Option<String>,
}

/// A ride with its texts as sequences of characters.
pub struct RideView {
    pub id: u128,
    pub rider_id: Seq<char>,
    pub pickup: RideLocation,
    pub dropoff: RideLocation,
    pub status: Seq<char>,
    pub bike_type: Option<Seq<char>>,
    pub notes: Option<Seq<char>>,
    pub rider_phone: Option<Seq<char>>,
    pub distance_miles: i64,
    pub price_cents: i64,
    pub driver_id: Option<Seq<char>>,
}

impl View for Ride {
    type V = RideView;

    open spec fn view(&self) -> RideView {
        RideView {
            id: self.id,
            rider_id: self.rider_id@,
            pickup: self.pickup,
            dropoff: self.dropoff,
            status: self.status@,
            bike_type: text_view(self.bike_type),
            notes: text_view(self.notes),
            rider_phone: text_view(self.rider_phone),
            distance_miles: self.distance_miles,
            price_cents: self.price_cents,
            driver_id: text_view(self.driver_id),
        }
    }
}

/// A copy of an optional text.
pub(crate) fn clone_text(text: &Option<String>) -> (copy: Option<String>)
    ensures
        copy == *text,
{
    match text {
        Some(s) => Some(s.clone()),
        None => None,
    }
}

impl Clone for Ride {
    fn clone(&self) -> (copy: Self)
        ensures
            copy == *self,
    {
        Ride {
            id: self.id,
            rider_id: self.rider_id.clone(),
            pickup: self.pickup,
            dropoff: self.dropoff,
            status: self.status.clone(),
            bike_type: clone_text(&self.bike_type),
            notes: clone_text(&self.notes),
            rider_phone: clone_text(&self.rider_phone),
            distance_miles: self.distance_miles,
            price_cents: self.price_cents,
            driver_id: clone_text(&self.driver_id),
        }
    }
}

impl Ride {
    /// A ride that is new under the identifier `id`: status `requested`, no
    /// pilot, everything else as given.
    pub fn with_id(
        id: u128,
        rider_id: String,
        pickup: RideLocation,
        dropoff: RideLocation,
        bike_type: Option<String>,
        notes: Option<String>,
        rider_phone: Option<String>,
        distance_miles: i64,
        price_cents: i64,
    ) -> (ride: Self)
        ensures
            ride@ == (RideView {
                id,
                rider_id: rider_id@,
                pickup,
                dropoff,
                status: "requested"@,
                bike_type: text_view(bike_type),
                notes: text_view(notes),
                rider_phone: text_view(rider_phone),
                distance_miles,
                price_cents,
                driver_id: None,
            }),
    {
        Self {
            id,
            rider_id,
            pickup,
            dropoff,
            status: "requested".to_owned(),
            bike_type,
            notes,
            rider_phone,
            distance_miles,
            price_cents,
            driver_id: None,
        }
    }

    /// A new ride: a fresh random identifier, status `requested`, no pilot.
    pub fn new(
        rider_id: String,
        pickup: RideLocation,
        dropoff: RideLocation,
        bike_type: Option<String>,
        notes: Option<String>,
        rider_phone: Option<String>,
        distance_miles: i64,
        price_cents: i64,
    ) -> (ride: Self)
        ensures
            is_random_id(ride.id),
            ride@ == (RideView {
                id: ride.id,
                rider_id: rider_id@,
                pickup,
                dropoff,
                status: "requested"@,
                bike_type: text_view(bike_type),
                notes: text_view(notes),
                rider_phone: text_view(rider_phone),
                distance_miles,
                price_cents,
                driver_id: None,
            }),
    {
        Self::with_id(
            fresh_id(),
            rider_id,
            pickup,
            dropoff,
            bike_type,
            notes,
            rider_phone,
            distance_miles,
            price_cents,
        )
    }

    /// The identifier as text, as it is handed to the pilot index.
    pub fn id_text(&self) -> (text: String)
        ensures
            text@ == hyphenated(self.id),
    {
        id_text(self.id)
    }
}

/// What a status endpoint or a webhook reply tells of a ride.
#[derive(Debug)]
pub struct RideSummary {
    pub id: u128,
    pub status: String,
    pub driver_id: Option<String>,
}

/// A summary with its texts as sequences of characters.
pub struct RideSummaryView {
    pub id: u128,
    pub status: Seq<char>,
    pub driver_id: Option<Seq<char>>,
}

impl View for RideSummary {
    type V = RideSummaryView;

    open spec fn view(&self) -> RideSummaryView {
        RideSummaryView { id: self.id, status: self.status@, driver_id: text_view(self.driver_id) }
    }
}

impl RideView {
    /// What a summary tells of this ride.
    pub open spec fn summary(self) -> RideSummaryView {
        RideSummaryView { id: self.id, status: self.status, driver_id: self.driver_id }
    }
}

impl From<&Ride> for RideSummary {
    fn from(value: &Ride) -> (summary: Self)
        ensures
            summary@ == value@.summary(),
    {
        Self {
            id: value.id,
            status: value.status.clone(),
            driver_id: clone_text(&value.driver_id),
        }
    }
}

impl vstd::std_specs::convert::FromSpecImpl<&Ride> for RideSummary {
    open spec fn obeys_from_spec() -> bool {
        true
    }

    open spec fn from_spec(value: &Ride) -> Self {
        RideSummary { id: value.id, status: value.status, driver_id: value.driver_id }
    }
}

} // verus!
