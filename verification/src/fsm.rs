//! The ride lifecycle: the states of a ride, the events that move it, and the
//! table of transitions that are legal.
//!
//! The machine holds no ride. A caller hands it the current status, and gets
//! the next status or the reason why there is none.

use vstd::prelude::*;

use crate::error::{CoreError, CoreErrorView, CoreResult};
use crate::text;

verus! {

/// The status of a ride. It is stored and sent as its lowercase code.
#[derive(Debug, Clone, Copy, PartialEq, Eq, Hash, Structural)]
pub enum RideStatus {
    Requested,
    Accepted,
    EnRoute,
    Arrived,
    InTransit,
    Completed,
    Cancelled,
    CancelledRiderNoShow,
    CancelledSafety,
    RejectedGeofence,
}

/// What can happen to a ride. Events are the sanctioned way to advance it.
#[derive(Debug, Clone, Copy, PartialEq, Eq, Structural)]
pub enum RideEvent {
    Accept,
    Depart,
    Arrive,
    BeginTransit,
    Complete,
    Cancel,
    CancelNoShow,
    CancelSafety,
    RejectGeofence,
}

impl RideStatus {
    /// The stable code of the status.
    pub open spec fn code(self) -> Seq<char> {
        match self {
            RideStatus::Requested => "requested"@,
            RideStatus::Accepted => "accepted"@,
            RideStatus::EnRoute => "en_route"@,
            RideStatus::Arrived => "arrived"@,
            RideStatus::InTransit => "in_transit"@,
            RideStatus::Completed => "completed"@,
            RideStatus::Cancelled => "cancelled"@,
            RideStatus::CancelledRiderNoShow => "cancelled_rider_noshow"@,
            RideStatus::CancelledSafety => "cancelled_safety"@,
            RideStatus::RejectedGeofence => "rejected_geofence"@,
        }
    }

    /// The status that a code names, if it names one. Codes match exactly:
    /// no trimming, no folding of case.
    pub open spec fn with_code(code: Seq<char>) -> Option<RideStatus> {
        if code == "requested"@ {
            Some(RideStatus::Requested)
        } else if code == "accepted"@ {
            Some(RideStatus::Accepted)
        } else if code == "en_route"@ {
            Some(RideStatus::EnRoute)
        } else if code == "arrived"@ {
            Some(RideStatus::Arrived)
        } else if code == "in_transit"@ {
            Some(RideStatus::InTransit)
        } else if code == "completed"@ {
            Some(RideStatus::Completed)
        } else if code == "cancelled"@ {
            Some(RideStatus::Cancelled)
        } else if code == "cancelled_rider_noshow"@ {
            Some(RideStatus::CancelledRiderNoShow)
        } else if code == "cancelled_safety"@ {
            Some(RideStatus::CancelledSafety)
        } else if code == "rejected_geofence"@ {
            Some(RideStatus::RejectedGeofence)
        } else {
            None
        }
    }

    /// A terminal status has no way out.
    pub open spec fn is_terminal(self) -> bool {
        self == RideStatus::Completed || self == RideStatus::Cancelled || self
            == RideStatus::CancelledRiderNoShow || self == RideStatus::CancelledSafety || self
            == RideStatus::RejectedGeofence
    }

    pub fn as_str(&self) -> (code: &'static str)
        ensures
            code@ == self.code(),
    {
        match self {
            RideStatus::Requested => "requested",
            RideStatus::Accepted => "accepted",
            RideStatus::EnRoute => "en_route",
            RideStatus::Arrived => "arrived",
            RideStatus::InTransit => "in_transit",
            RideStatus::Completed => "completed",
            RideStatus::Cancelled => "cancelled",
            RideStatus::CancelledRiderNoShow => "cancelled_rider_noshow",
            RideStatus::CancelledSafety => "cancelled_safety",
            RideStatus::RejectedGeofence => "rejected_geofence",
        }
    }

    /// The code as an owned string.
    pub fn to_string(&self) -> (code: String)
        ensures
            code@ == self.code(),
    {
        self.as_str().to_owned()
    }
}

impl TryFrom<&str> for RideStatus {
    type Error = CoreError;

    /// Reads a status code. A text that is no code is refused as an invalid
    /// transition from that text to nothing.
    fn try_from(value: &str) -> (parsed: Result<Self, CoreError>)
        ensures
            match RideStatus::with_code(value@) {
                Some(status) => parsed matches Ok(s) && s == status,
                None => parsed matches Err(e) && e@ == (CoreErrorView::InvalidStatusTransition {
                    from: value@,
                    to: Seq::empty(),
                }),
            },
    {
        if text::equal(value, "requested") {
            Ok(RideStatus::Requested)
        } else if text::equal(value, "accepted") {
            Ok(RideStatus::Accepted)
        } else if text::equal(value, "en_route") {
            Ok(RideStatus::EnRoute)
        } else if text::equal(value, "arrived") {
            Ok(RideStatus::Arrived)
        } else if text::equal(value, "in_transit") {
            Ok(RideStatus::InTransit)
        } else if text::equal(value, "completed") {
            Ok(RideStatus::Completed)
        } else if text::equal(value, "cancelled") {
            Ok(RideStatus::Cancelled)
        } else if text::equal(value, "cancelled_rider_noshow") {
            Ok(RideStatus::CancelledRiderNoShow)
        } else if text::equal(value, "cancelled_safety") {
            Ok(RideStatus::CancelledSafety)
        } else if text::equal(value, "rejected_geofence") {
            Ok(RideStatus::RejectedGeofence)
        } else {
            Err(CoreError::InvalidStatusTransition { from: value.to_owned(), to: String::new() })
        }
    }
}

impl vstd::std_specs::convert::TryFromSpecImpl<&str> for RideStatus {
    /// The contract of `try_from` is stated on the function itself: the error
    /// it returns owns its text, which no specification value can.
    open spec fn obeys_try_from_spec() -> bool {
        false
    }

    /// Says nothing: see `obeys_try_from_spec`.
    open spec fn try_from_spec(v: &str) -> Result<Self, CoreError> {
        arbitrary()
    }
}

impl RideEvent {
    /// The status that the event leads to, wherever it applies.
    pub open spec fn target(self) -> RideStatus {
        match self {
            RideEvent::Accept => RideStatus::Accepted,
            RideEvent::Depart => RideStatus::EnRoute,
            RideEvent::Arrive => RideStatus::Arrived,
            RideEvent::BeginTransit => RideStatus::InTransit,
            RideEvent::Complete => RideStatus::Completed,
            RideEvent::Cancel => RideStatus::Cancelled,
            RideEvent::CancelNoShow => RideStatus::CancelledRiderNoShow,
            RideEvent::CancelSafety => RideStatus::CancelledSafety,
            RideEvent::RejectGeofence => RideStatus::RejectedGeofence,
        }
    }
}

/// The ride status machine. It is stateless: every function takes the current
/// status from its caller.
pub struct RideStatusMachine;

impl RideStatusMachine {
    /// The legality table: the statuses that may follow `from`.
    pub open spec fn allowed_targets(from: RideStatus) -> Seq<RideStatus> {
        match from {
            RideStatus::Requested => seq![
                RideStatus::Accepted,
                RideStatus::Cancelled,
                RideStatus::CancelledRiderNoShow,
                RideStatus::CancelledSafety,
                RideStatus::RejectedGeofence,
            ],
            RideStatus::Accepted => seq![
                RideStatus::EnRoute,
                RideStatus::Arrived,
                RideStatus::Cancelled,
                RideStatus::CancelledRiderNoShow,
                RideStatus::CancelledSafety,
            ],
            RideStatus::EnRoute => seq![
                RideStatus::Arrived,
                RideStatus::InTransit,
                RideStatus::Completed,
                RideStatus::Cancelled,
                RideStatus::CancelledRiderNoShow,
                RideStatus::CancelledSafety,
            ],
            RideStatus::Arrived => seq![
                RideStatus::InTransit,
                RideStatus::Completed,
                RideStatus::Cancelled,
                RideStatus::CancelledRiderNoShow,
                RideStatus::CancelledSafety,
            ],
            RideStatus::InTransit => seq![
                RideStatus::Completed,
                RideStatus::Cancelled,
                RideStatus::CancelledRiderNoShow,
                RideStatus::CancelledSafety,
            ],
            RideStatus::Completed
            | RideStatus::Cancelled
            | RideStatus::CancelledRiderNoShow
            | RideStatus::CancelledSafety
            | RideStatus::RejectedGeofence => Seq::empty(),
        }
    }

    /// Whether a ride may move from `from` to `to`.
    pub open spec fn allows(from: RideStatus, to: RideStatus) -> bool {
        Self::allowed_targets(from).contains(to)
    }

    /// The event table: where `event` takes a ride that is in `current`, or
    /// `None` where the event does not apply there.
    pub open spec fn event_target(current: RideStatus, event: RideEvent) -> Option<RideStatus> {
        match (current, event) {
            (RideStatus::Requested, RideEvent::Accept) => Some(RideStatus::Accepted),
            (RideStatus::Requested, RideEvent::Cancel) => Some(RideStatus::Cancelled),
            (RideStatus::Requested, RideEvent::CancelNoShow) => Some(
                RideStatus::CancelledRiderNoShow,
            ),
            (RideStatus::Requested, RideEvent::CancelSafety) => Some(RideStatus::CancelledSafety),
            (RideStatus::Requested, RideEvent::RejectGeofence) => Some(
                RideStatus::RejectedGeofence,
            ),
            (RideStatus::Accepted, RideEvent::Depart) => Some(RideStatus::EnRoute),
            (RideStatus::Accepted, RideEvent::Arrive) => Some(RideStatus::Arrived),
            (RideStatus::Accepted, RideEvent::Cancel) => Some(RideStatus::Cancelled),
            (RideStatus::Accepted, RideEvent::CancelNoShow) => Some(
                RideStatus::CancelledRiderNoShow,
            ),
            (RideStatus::Accepted, RideEvent::CancelSafety) => Some(RideStatus::CancelledSafety),
            (RideStatus::EnRoute, RideEvent::Arrive) => Some(RideStatus::Arrived),
            (RideStatus::EnRoute, RideEvent::BeginTransit) => Some(RideStatus::InTransit),
            (RideStatus::EnRoute, RideEvent::Complete) => Some(RideStatus::Completed),
            (RideStatus::EnRoute, RideEvent::Cancel) => Some(RideStatus::Cancelled),
            (RideStatus::EnRoute, RideEvent::CancelNoShow) => Some(
                RideStatus::CancelledRiderNoShow,
            ),
            (RideStatus::EnRoute, RideEvent::CancelSafety) => Some(RideStatus::CancelledSafety),
            (RideStatus::Arrived, RideEvent::BeginTransit) => Some(RideStatus::InTransit),
            (RideStatus::Arrived, RideEvent::Complete) => Some(RideStatus::Completed),
            (RideStatus::Arrived, RideEvent::Cancel) => Some(RideStatus::Cancelled),
            (RideStatus::Arrived, RideEvent::CancelNoShow) => Some(
                RideStatus::CancelledRiderNoShow,
            ),
            (RideStatus::Arrived, RideEvent::CancelSafety) => Some(RideStatus::CancelledSafety),
            (RideStatus::InTransit, RideEvent::Complete) => Some(RideStatus::Completed),
            (RideStatus::InTransit, RideEvent::Cancel) => Some(RideStatus::Cancelled),
            (RideStatus::InTransit, RideEvent::CancelNoShow) => Some(
                RideStatus::CancelledRiderNoShow,
            ),
            (RideStatus::InTransit, RideEvent::CancelSafety) => Some(RideStatus::CancelledSafety),
            _ => None,
        }
    }

    /// The row of the legality table for `from`.
    fn targets(from: RideStatus) -> (row: Vec<RideStatus>)
        ensures
            row@ == Self::allowed_targets(from),
    {
        match from {
            RideStatus::Requested => vec![
                RideStatus::Accepted,
                RideStatus::Cancelled,
                RideStatus::CancelledRiderNoShow,
                RideStatus::CancelledSafety,
                RideStatus::RejectedGeofence,
            ],
            RideStatus::Accepted => vec![
                RideStatus::EnRoute,
                RideStatus::Arrived,
                RideStatus::Cancelled,
                RideStatus::CancelledRiderNoShow,
                RideStatus::CancelledSafety,
            ],
            RideStatus::EnRoute => vec![
                RideStatus::Arrived,
                RideStatus::InTransit,
                RideStatus::Completed,
                RideStatus::Cancelled,
                RideStatus::CancelledRiderNoShow,
                RideStatus::CancelledSafety,
            ],
            RideStatus::Arrived => vec![
                RideStatus::InTransit,
                RideStatus::Completed,
                RideStatus::Cancelled,
                RideStatus::CancelledRiderNoShow,
                RideStatus::CancelledSafety,
            ],
            RideStatus::InTransit => vec![
                RideStatus::Completed,
                RideStatus::Cancelled,
                RideStatus::CancelledRiderNoShow,
                RideStatus::CancelledSafety,
            ],
            RideStatus::Completed
            | RideStatus::Cancelled
            | RideStatus::CancelledRiderNoShow
            | RideStatus::CancelledSafety
            | RideStatus::RejectedGeofence => Vec::new(),
        }
    }

    /// Checks one step against the legality table.
    pub fn validate_transition(from: RideStatus, to: RideStatus) -> (checked: CoreResult<()>)
        ensures
            checked is Ok <==> Self::allows(from, to),
            checked matches Err(e) ==> e@ == (CoreErrorView::InvalidStatusTransition {
                from: from.code(),
                to: to.code(),
            }),
    {
        let row = Self::targets(from);
        let mut i: usize = 0;
        while i < row.len()
            invariant
                row@ == Self::allowed_targets(from),
                i <= row@.len(),
                forall|j: int| 0 <= j < i ==> row@[j] != to,
            decreases row@.len() - i,
        {
            if row[i] == to {
                return Ok(());
            }
            i += 1;
        }
        Err(CoreError::InvalidStatusTransition { from: from.to_string(), to: to.to_string() })
    }

    /// Applies an event to a ride in `current`. The target comes from the
    /// event table, and is checked against the legality table before it is
    /// returned.
    pub fn apply_event(current: RideStatus, event: RideEvent) -> (next: CoreResult<RideStatus>)
        ensures
            match Self::event_target(current, event) {
                Some(target) => next matches Ok(status) && status == target,
                None => next matches Err(e) && e@ == (CoreErrorView::InvalidStatusTransition {
                    from: current.code(),
                    to: Seq::empty(),
                }),
            },
    {
        let target = match (current, event) {
            (RideStatus::Requested, RideEvent::Accept) => RideStatus::Accepted,
            (RideStatus::Requested, RideEvent::Cancel) => RideStatus::Cancelled,
            (RideStatus::Requested, RideEvent::CancelNoShow) => RideStatus::CancelledRiderNoShow,
            (RideStatus::Requested, RideEvent::CancelSafety) => RideStatus::CancelledSafety,
            (RideStatus::Requested, RideEvent::RejectGeofence) => RideStatus::RejectedGeofence,
            (RideStatus::Accepted, RideEvent::Depart) => RideStatus::EnRoute,
            (RideStatus::Accepted, RideEvent::Arrive) => RideStatus::Arrived,
            (RideStatus::Accepted, RideEvent::Cancel) => RideStatus::Cancelled,
            (RideStatus::Accepted, RideEvent::CancelNoShow) => RideStatus::CancelledRiderNoShow,
            (RideStatus::Accepted, RideEvent::CancelSafety) => RideStatus::CancelledSafety,
            (RideStatus::EnRoute, RideEvent::Arrive) => RideStatus::Arrived,
            (RideStatus::EnRoute, RideEvent::BeginTransit) => RideStatus::InTransit,
            (RideStatus::EnRoute, RideEvent::Complete) => RideStatus::Completed,
            (RideStatus::EnRoute, RideEvent::Cancel) => RideStatus::Cancelled,
            (RideStatus::EnRoute, RideEvent::CancelNoShow) => RideStatus::CancelledRiderNoShow,
            (RideStatus::EnRoute, RideEvent::CancelSafety) => RideStatus::CancelledSafety,
            (RideStatus::Arrived, RideEvent::BeginTransit) => RideStatus::InTransit,
            (RideStatus::Arrived, RideEvent::Complete) => RideStatus::Completed,
            (RideStatus::Arrived, RideEvent::Cancel) => RideStatus::Cancelled,
            (RideStatus::Arrived, RideEvent::CancelNoShow) => RideStatus::CancelledRiderNoShow,
            (RideStatus::Arrived, RideEvent::CancelSafety) => RideStatus::CancelledSafety,
            (RideStatus::InTransit, RideEvent::Complete) => RideStatus::Completed,
            (RideStatus::InTransit, RideEvent::Cancel) => RideStatus::Cancelled,
            (RideStatus::InTransit, RideEvent::CancelNoShow) => RideStatus::CancelledRiderNoShow,
            (RideStatus::InTransit, RideEvent::CancelSafety) => RideStatus::CancelledSafety,
            _ => {
                return Err(
                    CoreError::InvalidStatusTransition {
                        from: current.to_string(),
                        to: String::new(),
                    },
                );
            },
        };
        proof {
            Self::event_target_is_allowed(current, event);
        }
        match Self::validate_transition(current, target) {
            Ok(_) => Ok(target),
            Err(e) => Err(e),
        }
    }

    /// No transition leaves a terminal status: whatever the target,
    /// `validate_transition` refuses it.
    pub proof fn terminal_status_allows_nothing(from: RideStatus, to: RideStatus)
        requires
            from.is_terminal(),
        ensures
            !Self::allows(from, to),
    {
    }

    /// The two tables agree: where the event table gives a target, the
    /// legality table allows the step to it, so `apply_event` returns that
    /// target and `validate_transition` accepts the same pair on its own.
    pub proof fn event_target_is_allowed(from: RideStatus, event: RideEvent)
        requires
            Self::event_target(from, event) is Some,
        ensures
            Self::allows(from, Self::event_target(from, event)->0),
    {
        let target = Self::event_target(from, event)->0;
        let row = Self::allowed_targets(from);
        assert(row.contains(target)) by {
            match from {
                RideStatus::Requested => {
                    assert(row[0] == RideStatus::Accepted);
                    assert(row[1] == RideStatus::Cancelled);
                    assert(row[2] == RideStatus::CancelledRiderNoShow);
                    assert(row[3] == RideStatus::CancelledSafety);
                    assert(row[4] == RideStatus::RejectedGeofence);
                },
                RideStatus::Accepted => {
                    assert(row[0] == RideStatus::EnRoute);
                    assert(row[1] == RideStatus::Arrived);
                    assert(row[2] == RideStatus::Cancelled);
                    assert(row[3] == RideStatus::CancelledRiderNoShow);
                    assert(row[4] == RideStatus::CancelledSafety);
                },
                RideStatus::EnRoute => {
                    assert(row[0] == RideStatus::Arrived);
                    assert(row[1] == RideStatus::InTransit);
                    assert(row[2] == RideStatus::Completed);
                    assert(row[3] == RideStatus::Cancelled);
                    assert(row[4] == RideStatus::CancelledRiderNoShow);
                    assert(row[5] == RideStatus::CancelledSafety);
                },
                RideStatus::Arrived => {
                    assert(row[0] == RideStatus::InTransit);
                    assert(row[1] == RideStatus::Completed);
                    assert(row[2] == RideStatus::Cancelled);
                    assert(row[3] == RideStatus::CancelledRiderNoShow);
                    assert(row[4] == RideStatus::CancelledSafety);
                },
                RideStatus::InTransit => {
                    assert(row[0] == RideStatus::Completed);
                    assert(row[1] == RideStatus::Cancelled);
                    assert(row[2] == RideStatus::CancelledRiderNoShow);
                    assert(row[3] == RideStatus::CancelledSafety);
                },
                _ => {},
            }
        }
    }

    /// Every event has one target, and it applies in exactly the states from
    /// which the legality table allows the step to that target.
    pub proof fn event_applies_where_target_allowed(from: RideStatus, event: RideEvent)
        ensures
            Self::event_target(from, event) == if Self::allows(from, event.target()) {
                Some(event.target())
            } else {
                None
            },
    {
        if Self::event_target(from, event) is Some {
            Self::event_target_is_allowed(from, event);
        } else {
            let row = Self::allowed_targets(from);
            assert forall|i: int| 0 <= i < row.len() implies row[i] != event.target() by {}
        }
    }
}

impl RideStatus {
    /// Codes round-trip: reading the code of a status gives that status back.
    pub proof fn code_round_trips(status: RideStatus)
        ensures
            RideStatus::with_code(status.code()) == Some(status),
    {
        Self::codes_are_distinct(status, RideStatus::with_code(status.code())->0);
    }

    /// A code that reads as a status is the code of that status.
    pub proof fn parsed_code_is_code(code: Seq<char>)
        requires
            RideStatus::with_code(code) is Some,
        ensures
            RideStatus::with_code(code)->0.code() == code,
    {
    }

    /// No two statuses share a code.
    pub proof fn codes_are_distinct(a: RideStatus, b: RideStatus)
        requires
            a.code() == b.code(),
        ensures
            a == b,
    {
        reveal_strlit("requested");
        reveal_strlit("accepted");
        reveal_strlit("en_route");
        reveal_strlit("arrived");
        reveal_strlit("in_transit");
        reveal_strlit("completed");
        reveal_strlit("cancelled");
        reveal_strlit("cancelled_rider_noshow");
        reveal_strlit("cancelled_safety");
        reveal_strlit("rejected_geofence");
        // Codes of one length differ in their first or second character.
        assert("requested"@.len() == 9 && "requested"@[0] == 'r');
        assert("accepted"@.len() == 8 && "accepted"@[0] == 'a');
        assert("en_route"@.len() == 8 && "en_route"@[0] == 'e');
        assert("arrived"@.len() == 7);
        assert("in_transit"@.len() == 10);
        assert("completed"@.len() == 9 && "completed"@[0] == 'c' && "completed"@[1] == 'o');
        assert("cancelled"@.len() == 9 && "cancelled"@[0] == 'c' && "cancelled"@[1] == 'a');
        assert("cancelled_rider_noshow"@.len() == 22);
        assert("cancelled_safety"@.len() == 16);
        assert("rejected_geofence"@.len() == 17);
    }
}

} // verus!
