//! What the dispatch engine is configured with, and what it hands out.

use vstd::prelude::*;

verus! {

/// The namespace of every key that the engine uses in the pilot index.
#[derive(Debug, Clone)]
pub struct DispatchEngineConfig {
    pub key_prefix: String,
}

impl Default for DispatchEngineConfig {
    fn default() -> (config: Self)
        ensures
            config.key_prefix@ == "supportcarr"@,
    {
        Self { key_prefix: "supportcarr".to_owned() }
    }
}

/// A pilot that a search found near a point.
#[derive(Debug, Clone, PartialEq)]
pub struct DispatchCandidate {
    pub pilot_id: String,
    /// The distance from the point in millionths of a metre, where the index
    /// returned one.
    pub distance_meters: Option<i64>,
}

/// A candidate with its text as a sequence of characters.
pub struct DispatchCandidateView {
    pub pilot_id: Seq<char>,
    pub distance_meters: Option<i64>,
}

impl View for DispatchCandidate {
    type V = DispatchCandidateView;

    open spec fn view(&self) -> DispatchCandidateView {
        DispatchCandidateView { pilot_id: self.pilot_id@, distance_meters: self.distance_meters }
    }
}

/// The record of a pilot assigned to a ride.
#[derive(Debug, Clone, PartialEq)]
pub struct DispatchEvent {
    pub ride_id: String,
    pub pilot_id: String,
    pub eta_minutes: Option<u32>,
}

} // verus!
