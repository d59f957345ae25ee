//! The dispatch engine on a geo-indexed key-value store.
//!
//! The engine keeps two structures under its key prefix that are updated
//! independently of each other: a geo set with the last position of each
//! pilot, and a hash with each pilot's availability. A third kind of key
//! records which ride a pilot was assigned to.
//!
//! Each operation is a command or a pipeline for the store. The engine builds
//! it; the caller sends it on a connection of the engine's client and hands
//! the reply back where one is read.

use vstd::prelude::*;
use vstd::utf8::encode_utf8;

use crate::dispatch::{DispatchCandidate, DispatchCandidateView, DispatchEngineConfig};
use crate::error::{CoreError, CoreErrorView};
use crate::fixed;
use crate::model::RideLocation;
use crate::wire;

verus! {

/// The key of the geo set with the pilots' positions.
pub open spec fn geo_key(prefix: Seq<char>) -> Seq<char> {
    prefix + ":drivers:geo"@
}

/// The key of the hash with the pilots' availability.
pub open spec fn status_key(prefix: Seq<char>) -> Seq<char> {
    prefix + ":drivers:status"@
}

/// The key that records the ride of a pilot.
pub open spec fn assignment_key(prefix: Seq<char>, pilot_id: Seq<char>) -> Seq<char> {
    prefix + ":pilot:"@ + pilot_id + ":ride"@
}

/// The availability flag as the status hash holds it.
pub open spec fn availability(available: bool) -> Seq<char> {
    if available {
        "available"@
    } else {
        "busy"@
    }
}

/// `GEOADD key lng lat pilot`: puts the pilot at the position, in place of any
/// earlier one.
pub open spec fn store_location_args(
    prefix: Seq<char>,
    pilot_id: Seq<char>,
    location: RideLocation,
) -> Seq<Seq<u8>> {
    seq![
        encode_utf8("GEOADD"@),
        encode_utf8(geo_key(prefix)),
        fixed::decimal_text(location.lng as int),
        fixed::decimal_text(location.lat as int),
        encode_utf8(pilot_id),
    ]
}

/// `HSET key pilot flag`.
pub open spec fn set_status_args(prefix: Seq<char>, pilot_id: Seq<char>, available: bool) -> Seq<
    Seq<u8>,
> {
    seq![
        encode_utf8("HSET"@),
        encode_utf8(status_key(prefix)),
        encode_utf8(pilot_id),
        encode_utf8(availability(available)),
    ]
}

/// `GEORADIUS key lng lat radius km WITHDIST ASC COUNT limit`: the pilots
/// within the radius, nearest first, each with its distance, `limit` at
/// most. The radius is given in miles and sent in kilometres.
pub open spec fn find_nearby_args(
    prefix: Seq<char>,
    location: RideLocation,
    radius_miles: i64,
    limit: usize,
) -> Seq<Seq<u8>> {
    seq![
        encode_utf8("GEORADIUS"@),
        encode_utf8(geo_key(prefix)),
        fixed::decimal_text(location.lng as int),
        fixed::decimal_text(location.lat as int),
        fixed::decimal_text(fixed::saturate(fixed::kilometers_of_miles(radius_miles as int))),
        encode_utf8("km"@),
        encode_utf8("WITHDIST"@),
        encode_utf8("ASC"@),
        encode_utf8("COUNT"@),
        fixed::natural_text(limit as nat),
    ]
}

/// `SET key ride`.
pub open spec fn record_ride_args(prefix: Seq<char>, pilot_id: Seq<char>, ride_id: Seq<char>) -> Seq<
    Seq<u8>,
> {
    seq![
        encode_utf8("SET"@),
        encode_utf8(assignment_key(prefix, pilot_id)),
        encode_utf8(ride_id),
    ]
}

/// The candidate for one entry of a search reply: the pilot, and the distance
/// brought from kilometres to metres.
pub open spec fn candidate_of(entry: (String, i64)) -> DispatchCandidateView {
    DispatchCandidateView {
        pilot_id: entry.0@,
        distance_meters: Some(fixed::saturate(fixed::meters_of_kilometers(entry.1 as int)) as i64),
    }
}

/// The candidates for a search reply, entry by entry.
pub open spec fn candidates_of(reply: Seq<(String, i64)>) -> Seq<DispatchCandidateView> {
    reply.map_values(|entry: (String, i64)| candidate_of(entry))
}

/// The views of a list of candidates.
pub open spec fn candidate_views(candidates: Seq<DispatchCandidate>) -> Seq<DispatchCandidateView> {
    candidates.map_values(|candidate: DispatchCandidate| candidate@)
}

fn push_text(command: &mut redis::Cmd, text: &str)
    ensures
        wire::command_args(*final(command)) == wire::command_args(*old(command)).push(
            encode_utf8(text@),
        ),
{
    wire::push_arg(command, text.as_bytes());
}

fn push_bytes(command: &mut redis::Cmd, bytes: Vec<u8>)
    ensures
        wire::command_args(*final(command)) == wire::command_args(*old(command)).push(bytes@),
{
    wire::push_arg(command, bytes.as_slice());
}

/// The dispatch engine: a client of the store, and the key prefix.
pub struct RedisDispatchEngine {
    client: redis::Client,
    config: DispatchEngineConfig,
}

impl RedisDispatchEngine {
    pub fn new(client: redis::Client, config: DispatchEngineConfig) -> (engine: Self)
        ensures
            engine.prefix() == config.key_prefix@,
            engine.client_of() == client,
    {
        Self { client, config }
    }

    /// The key prefix that the engine was made with.
    pub closed spec fn prefix(&self) -> Seq<char> {
        self.config.key_prefix@
    }

    /// The client that the engine was made with.
    pub closed spec fn client_of(&self) -> redis::Client {
        self.client
    }

    /// The client on whose connections the engine's commands are to be sent.
    pub fn client(&self) -> (client: &redis::Client)
        ensures
            *client == self.client_of(),
    {
        &self.client
    }

    fn geo_key(&self) -> (key: String)
        ensures
            key@ == geo_key(self.prefix()),
    {
        let mut key = self.config.key_prefix.clone();
        key.append(":drivers:geo");
        key
    }

    fn status_key(&self) -> (key: String)
        ensures
            key@ == status_key(self.prefix()),
    {
        let mut key = self.config.key_prefix.clone();
        key.append(":drivers:status");
        key
    }

    fn assignment_key(&self, pilot_id: &str) -> (key: String)
        ensures
            key@ == assignment_key(self.prefix(), pilot_id@),
    {
        let mut key = self.config.key_prefix.clone();
        key.append(":pilot:");
        key.append(pilot_id);
        key.append(":ride");
        key
    }

    /// The command that stores the pilot's position. Sent again for the same
    /// pilot, it overwrites the earlier position. A reply other than an
    /// error means success.
    pub fn store_pilot_location(&self, pilot_id: &str, location: &RideLocation) -> (command:
        redis::Cmd)
        ensures
            wire::command_args(command) == store_location_args(self.prefix(), pilot_id@, *location),
    {
        let mut command = wire::command("GEOADD");
        push_text(&mut command, self.geo_key().as_str());
        push_bytes(&mut command, fixed::decimal(location.lng));
        push_bytes(&mut command, fixed::decimal(location.lat));
        push_text(&mut command, pilot_id);
        command
    }

    /// The command that sets the pilot's availability flag. It names the
    /// status hash only: the pilot's stored position is not touched.
    pub fn set_pilot_available(&self, pilot_id: &str, available: bool) -> (command: redis::Cmd)
        ensures
            wire::command_args(command) == set_status_args(self.prefix(), pilot_id@, available),
    {
        let status = if available {
            "available"
        } else {
            "busy"
        };
        let mut command = wire::command("HSET");
        push_text(&mut command, self.status_key().as_str());
        push_text(&mut command, pilot_id);
        push_text(&mut command, status);
        command
    }

    /// The command that searches the geo set for up to `limit` pilots within
    /// `radius_miles` of `location`, nearest first. The search does not look
    /// at the availability flags: whoever needs the nearest pilot that is
    /// available has to check the flag of each candidate.
    pub fn find_nearby_pilots(&self, location: &RideLocation, radius_miles: i64, limit: usize) -> (command:
        redis::Cmd)
        ensures
            wire::command_args(command) == find_nearby_args(
                self.prefix(),
                *location,
                radius_miles,
                limit,
            ),
    {
        let radius_km = fixed::miles_to_kilometers(radius_miles);
        let mut command = wire::command("GEORADIUS");
        push_text(&mut command, self.geo_key().as_str());
        push_bytes(&mut command, fixed::decimal(location.lng));
        push_bytes(&mut command, fixed::decimal(location.lat));
        push_bytes(&mut command, fixed::decimal(radius_km));
        push_text(&mut command, "km");
        push_text(&mut command, "WITHDIST");
        push_text(&mut command, "ASC");
        push_text(&mut command, "COUNT");
        push_bytes(&mut command, fixed::natural(limit as u64));
        command
    }

    /// Turns the reply of a search, pilots with their distances in
    /// kilometres, into candidates with distances in metres, in the order of
    /// the reply.
    pub fn nearby_pilots(reply: Vec<(String, i64)>) -> (candidates: Vec<DispatchCandidate>)
        ensures
            candidate_views(candidates@) == candidates_of(reply@),
    {
        let mut candidates: Vec<DispatchCandidate> = Vec::new();
        let mut i: usize = 0;
        while i < reply.len()
            invariant
                i <= reply@.len(),
                candidates@.len() == i,
                forall|j: int| 0 <= j < i ==> (#[trigger] candidates@[j])@ == candidate_of(reply@[j]),
            decreases reply@.len() - i,
        {
            let pilot_id = reply[i].0.clone();
            let distance_meters = Some(fixed::kilometers_to_meters(reply[i].1));
            candidates.push(DispatchCandidate { pilot_id, distance_meters });
            i += 1;
        }
        assert(candidate_views(candidates@) =~= candidates_of(reply@));
        candidates
    }

    /// The pipeline that marks the pilot busy and records the ride it was
    /// assigned to. The two writes travel together, the reply of the first
    /// is dropped; they are not wrapped in a transaction, so another client
    /// may see the first without the second. Of two assignments of one pilot
    /// the one that the store runs last stays: both write the same two
    /// places.
    pub fn mark_assigned(&self, pilot_id: &str, ride_id: &str) -> (pipeline: redis::Pipeline)
        ensures
            wire::pipeline_commands(pipeline) == seq![
                set_status_args(self.prefix(), pilot_id@, false),
                record_ride_args(self.prefix(), pilot_id@, ride_id@),
            ],
            wire::pipeline_ignored(pipeline) == set![0int],
            !wire::pipeline_is_atomic(pipeline),
    {
        let mut mark_busy = wire::command("HSET");
        push_text(&mut mark_busy, self.status_key().as_str());
        push_text(&mut mark_busy, pilot_id);
        push_text(&mut mark_busy, "busy");
        let mut record_ride = wire::command("SET");
        push_text(&mut record_ride, self.assignment_key(pilot_id).as_str());
        push_text(&mut record_ride, ride_id);
        assert(wire::command_args(mark_busy) =~= set_status_args(self.prefix(), pilot_id@, false));
        assert(wire::command_args(record_ride) =~= record_ride_args(
            self.prefix(),
            pilot_id@,
            ride_id@,
        ));
        let mut pipeline = wire::pipeline();
        wire::add_command(&mut pipeline, mark_busy);
        wire::ignore_last(&mut pipeline);
        wire::add_command(&mut pipeline, record_ride);
        assert(wire::pipeline_commands(pipeline) =~= seq![
            set_status_args(self.prefix(), pilot_id@, false),
            record_ride_args(self.prefix(), pilot_id@, ride_id@),
        ]);
        assert(wire::pipeline_ignored(pipeline) =~= set![0int]);
        pipeline
    }

    /// A failure of the store, with its diagnostic message. The engine
    /// neither reads the message nor tries again.
    pub fn failure(message: String) -> (error: CoreError)
        ensures
            error@ == CoreErrorView::Dispatch(message@),
    {
        CoreError::Dispatch(message)
    }
}

/// The geo set and the status hash are two keys: a command on one does not
/// name the other, so setting a pilot's availability leaves the stored
/// position alone, and storing a position leaves the availability alone.
pub proof fn geo_and_status_keys_differ(prefix: Seq<char>)
    ensures
        geo_key(prefix) != status_key(prefix),
{
    reveal_strlit(":drivers:geo");
    reveal_strlit(":drivers:status");
    assert(geo_key(prefix).len() != status_key(prefix).len());
}

/// The key that records a pilot's ride is neither the geo set nor the status
/// hash, whatever the pilot's identifier.
pub proof fn assignment_key_is_its_own(prefix: Seq<char>, pilot_id: Seq<char>)
    ensures
        assignment_key(prefix, pilot_id) != geo_key(prefix),
        assignment_key(prefix, pilot_id) != status_key(prefix),
{
    reveal_strlit(":drivers:geo");
    reveal_strlit(":drivers:status");
    reveal_strlit(":pilot:");
    reveal_strlit(":ride");
    let at = prefix.len() as int + 1;
    assert(assignment_key(prefix, pilot_id)[at] == 'p');
    assert(geo_key(prefix)[at] == 'd');
    assert(status_key(prefix)[at] == 'd');
}

/// Two assignments of one pilot write the same two places: the pilot's field
/// in the status hash, which both set to busy, and the key that records the
/// pilot's ride. So of two that race, the one that the store runs last is
/// the one that stays.
pub proof fn assignments_of_one_pilot_collide(
    prefix: Seq<char>,
    pilot_id: Seq<char>,
    first_ride: Seq<char>,
    second_ride: Seq<char>,
)
    ensures
        set_status_args(prefix, pilot_id, false)[3] == encode_utf8("busy"@),
        record_ride_args(prefix, pilot_id, first_ride)[1] == record_ride_args(
            prefix,
            pilot_id,
            second_ride,
        )[1],
        record_ride_args(prefix, pilot_id, first_ride)[2] == encode_utf8(first_ride),
        record_ride_args(prefix, pilot_id, second_ride)[2] == encode_utf8(second_ride),
{
}

/// A reply that lists pilots nearest first gives candidates nearest first.
pub proof fn candidates_keep_order(reply: Seq<(String, i64)>, i: int, j: int)
    requires
        0 <= i <= j < reply.len(),
        reply[i].1 <= reply[j].1,
    ensures
        candidates_of(reply)[i].distance_meters->0 <= candidates_of(reply)[j].distance_meters->0,
        candidates_of(reply).len() == reply.len(),
{
    fixed::meters_keep_order(reply[i].1 as int, reply[j].1 as int);
}

} // verus!
