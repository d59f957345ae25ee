use supportcarr::error::CoreError;
use supportcarr::fsm::{RideEvent, RideStatus, RideStatusMachine};

const ALL_STATUSES: [RideStatus; 10] = [
    RideStatus::Requested,
    RideStatus::Accepted,
    RideStatus::EnRoute,
    RideStatus::Arrived,
    RideStatus::InTransit,
    RideStatus::Completed,
    RideStatus::Cancelled,
    RideStatus::CancelledRiderNoShow,
    RideStatus::CancelledSafety,
    RideStatus::RejectedGeofence,
];

const ALL_EVENTS: [RideEvent; 9] = [
    RideEvent::Accept,
    RideEvent::Depart,
    RideEvent::Arrive,
    RideEvent::BeginTransit,
    RideEvent::Complete,
    RideEvent::Cancel,
    RideEvent::CancelNoShow,
    RideEvent::CancelSafety,
    RideEvent::RejectGeofence,
];

#[test]
fn valid_status_transitions_match_js_fsm() {
    let cases = vec![
        (RideStatus::Requested, RideStatus::Accepted, true),
        (RideStatus::Requested, RideStatus::Cancelled, true),
        (RideStatus::Requested, RideStatus::CancelledRiderNoShow, true),
        (RideStatus::Requested, RideStatus::RejectedGeofence, true),
        (RideStatus::Accepted, RideStatus::EnRoute, true),
        (RideStatus::Accepted, RideStatus::Arrived, true),
        (RideStatus::Accepted, RideStatus::Cancelled, true),
        (RideStatus::EnRoute, RideStatus::Arrived, true),
        (RideStatus::EnRoute, RideStatus::InTransit, true),
        (RideStatus::EnRoute, RideStatus::Completed, true),
        (RideStatus::Arrived, RideStatus::InTransit, true),
        (RideStatus::Arrived, RideStatus::Completed, true),
        (RideStatus::InTransit, RideStatus::Completed, true),
        (RideStatus::Requested, RideStatus::Completed, false),
        (RideStatus::Completed, RideStatus::Cancelled, false),
        (RideStatus::Cancelled, RideStatus::Accepted, false),
        (RideStatus::Accepted, RideStatus::Requested, false),
        (RideStatus::Completed, RideStatus::EnRoute, false),
        (RideStatus::Cancelled, RideStatus::Requested, false),
        (RideStatus::CancelledRiderNoShow, RideStatus::Requested, false),
        (RideStatus::CancelledSafety, RideStatus::Accepted, false),
        (RideStatus::RejectedGeofence, RideStatus::Requested, false),
    ];

    for (from, to, allowed) in cases {
        let result = RideStatusMachine::validate_transition(from, to);
        assert_eq!(
            result.is_ok(),
            allowed,
            "from {} to {}",
            from.to_string(),
            to.to_string()
        );
    }
}

#[test]
fn ride_status_display() {
    assert_eq!(RideStatus::Completed.to_string(), "completed");
}

#[test]
fn terminal_statuses_refuse_every_target() {
    let terminal = [
        RideStatus::Completed,
        RideStatus::Cancelled,
        RideStatus::CancelledRiderNoShow,
        RideStatus::CancelledSafety,
        RideStatus::RejectedGeofence,
    ];
    for from in terminal {
        for to in ALL_STATUSES {
            match RideStatusMachine::validate_transition(from, to) {
                Err(CoreError::InvalidStatusTransition { from: f, to: t }) => {
                    assert_eq!(f, from.as_str());
                    assert_eq!(t, to.as_str());
                }
                other => panic!("unexpected result {:?}", other),
            }
        }
        for event in ALL_EVENTS {
            assert!(RideStatusMachine::apply_event(from, event).is_err());
        }
    }
}

#[test]
fn legality_table_has_exactly_its_rows() {
    let allowed = |from: RideStatus| -> Vec<RideStatus> {
        match from {
            RideStatus::Requested => vec![
                RideStatus::Accepted,
                RideStatus::Cancelled,
                RideStatus::CancelledRiderNoShow,
                RideStatus::CancelledSafety,
                RideStatus::RejectedGeofence,
            ],
            RideStatus::Accepted => vec![
                RideStatus::EnRoute,
                RideStatus::Arrived,
                RideStatus::Cancelled,
                RideStatus::CancelledRiderNoShow,
                RideStatus::CancelledSafety,
            ],
            RideStatus::EnRoute => vec![
                RideStatus::Arrived,
                RideStatus::InTransit,
                RideStatus::Completed,
                RideStatus::Cancelled,
                RideStatus::CancelledRiderNoShow,
                RideStatus::CancelledSafety,
            ],
            RideStatus::Arrived => vec![
                RideStatus::InTransit,
                RideStatus::Completed,
                RideStatus::Cancelled,
                RideStatus::CancelledRiderNoShow,
                RideStatus::CancelledSafety,
            ],
            RideStatus::InTransit => vec![
                RideStatus::Completed,
                RideStatus::Cancelled,
                RideStatus::CancelledRiderNoShow,
                RideStatus::CancelledSafety,
            ],
            _ => vec![],
        }
    };
    for from in ALL_STATUSES {
        for to in ALL_STATUSES {
            assert_eq!(
                RideStatusMachine::validate_transition(from, to).is_ok(),
                allowed(from).contains(&to)
            );
        }
    }
}

#[test]
fn event_table_gives_the_tabulated_target() {
    let table = vec![
        (RideStatus::Requested, RideEvent::Accept, RideStatus::Accepted),
        (RideStatus::Requested, RideEvent::Cancel, RideStatus::Cancelled),
        (RideStatus::Requested, RideEvent::CancelNoShow, RideStatus::CancelledRiderNoShow),
        (RideStatus::Requested, RideEvent::CancelSafety, RideStatus::CancelledSafety),
        (RideStatus::Requested, RideEvent::RejectGeofence, RideStatus::RejectedGeofence),
        (RideStatus::Accepted, RideEvent::Depart, RideStatus::EnRoute),
        (RideStatus::Accepted, RideEvent::Arrive, RideStatus::Arrived),
        (RideStatus::Accepted, RideEvent::Cancel, RideStatus::Cancelled),
        (RideStatus::Accepted, RideEvent::CancelNoShow, RideStatus::CancelledRiderNoShow),
        (RideStatus::Accepted, RideEvent::CancelSafety, RideStatus::CancelledSafety),
        (RideStatus::EnRoute, RideEvent::Arrive, RideStatus::Arrived),
        (RideStatus::EnRoute, RideEvent::BeginTransit, RideStatus::InTransit),
        (RideStatus::EnRoute, RideEvent::Complete, RideStatus::Completed),
        (RideStatus::EnRoute, RideEvent::Cancel, RideStatus::Cancelled),
        (RideStatus::EnRoute, RideEvent::CancelNoShow, RideStatus::CancelledRiderNoShow),
        (RideStatus::EnRoute, RideEvent::CancelSafety, RideStatus::CancelledSafety),
        (RideStatus::Arrived, RideEvent::BeginTransit, RideStatus::InTransit),
        (RideStatus::Arrived, RideEvent::Complete, RideStatus::Completed),
        (RideStatus::Arrived, RideEvent::Cancel, RideStatus::Cancelled),
        (RideStatus::Arrived, RideEvent::CancelNoShow, RideStatus::CancelledRiderNoShow),
        (RideStatus::Arrived, RideEvent::CancelSafety, RideStatus::CancelledSafety),
        (RideStatus::InTransit, RideEvent::Complete, RideStatus::Completed),
        (RideStatus::InTransit, RideEvent::Cancel, RideStatus::Cancelled),
        (RideStatus::InTransit, RideEvent::CancelNoShow, RideStatus::CancelledRiderNoShow),
        (RideStatus::InTransit, RideEvent::CancelSafety, RideStatus::CancelledSafety),
    ];
    for from in ALL_STATUSES {
        for event in ALL_EVENTS {
            let expected = table
                .iter()
                .find(|(f, e, _)| *f == from && *e == event)
                .map(|(_, _, to)| *to);
            match (RideStatusMachine::apply_event(from, event), expected) {
                (Ok(next), Some(to)) => {
                    assert_eq!(next, to);
                    assert!(RideStatusMachine::validate_transition(from, to).is_ok());
                }
                (Err(CoreError::InvalidStatusTransition { from: f, to: t }), None) => {
                    assert_eq!(f, from.as_str());
                    assert_eq!(t, "");
                }
                (got, want) => panic!("{:?} on {:?}: got {:?}, want {:?}", event, from, got, want),
            }
        }
    }
}

#[test]
fn apply_event_is_deterministic() {
    for from in ALL_STATUSES {
        for event in ALL_EVENTS {
            let first = RideStatusMachine::apply_event(from, event).ok();
            let second = RideStatusMachine::apply_event(from, event).ok();
            assert_eq!(first, second);
        }
    }
}

#[test]
fn status_codes_round_trip() {
    let codes = [
        "requested",
        "accepted",
        "en_route",
        "arrived",
        "in_transit",
        "completed",
        "cancelled",
        "cancelled_rider_noshow",
        "cancelled_safety",
        "rejected_geofence",
    ];
    for (status, code) in ALL_STATUSES.iter().zip(codes) {
        assert_eq!(status.as_str(), code);
        assert_eq!(RideStatus::try_from(code).unwrap(), *status);
        assert_eq!(RideStatus::try_from(status.to_string().as_str()).unwrap(), *status);
    }
}

#[test]
fn unknown_status_code_is_an_invalid_transition() {
    for code in ["", "Requested", "requested ", "done", "en-route", "cancelled_"] {
        match RideStatus::try_from(code) {
            Err(CoreError::InvalidStatusTransition { from, to }) => {
                assert_eq!(from, code);
                assert_eq!(to, "");
            }
            other => panic!("unexpected result {:?}", other),
        }
    }
}
