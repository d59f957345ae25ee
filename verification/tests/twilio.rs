use supportcarr::error::CoreError;
use supportcarr::fsm::{RideEvent, RideStatus};
use supportcarr::model::{Ride, RideLocation};
use supportcarr::signature::{sign, signature_matches};
use supportcarr::text;
use supportcarr::twilio::{
    authorize, event_in_uppercase, event_of, move_ride, parsed_form, reply, verify_signature,
    InMemoryTwilioRideStore, Sms, SmsAction, SmsOutcome, TwilioConfig, TwilioError,
    TwilioSmsPayload,
};

const TOKEN: &str = "test-token";
const URL: &str = "https://example.com/twilio/sms";
const BODY: &[u8] = b"Body=Done&From=%2B15555551212";
const SIGNATURE: &str = "GgcDt0nELyfuJbwTZYM7roDAZEA=";

fn ride_with(status: &str, phone: Option<&str>) -> Ride {
    let mut ride = Ride::new(
        "rider-1".to_string(),
        RideLocation::new(34_052_200, -118_243_700),
        RideLocation::new(34_100_000, -118_300_000),
        None,
        None,
        phone.map(|p| p.to_string()),
        4_614_287,
        5000,
    );
    ride.status = status.to_string();
    ride
}

fn config() -> TwilioConfig {
    TwilioConfig { auth_token: TOKEN.to_string(), webhook_url: URL.to_string() }
}

#[test]
fn signature_verification_matches_hmac() {
    let token = "test-token";
    let url = "https://example.com/twilio/sms";
    let body = b"Body=Done&From=%2B15555551212";
    let signature = verify_signature(token, url, body, "invalid").unwrap();
    assert!(!signature);
}

#[test]
fn signature_is_base64_of_hmac_sha1_over_url_and_body() {
    assert_eq!(sign(TOKEN, URL, BODY).as_deref(), Some(SIGNATURE));
    assert_eq!(sign("", "", b"").as_deref(), Some("+9sdGxiqbAgyS31ktx+3Y3BpDh0="));
    assert_eq!(
        sign("key", "The quick brown fox ", b"jumps over the lazy dog").as_deref(),
        Some("3nybhbi3iqa8ino29wqQcBydtNk=")
    );
    assert!(verify_signature(TOKEN, URL, BODY, SIGNATURE).unwrap());
}

#[test]
fn signature_depends_on_token_url_and_body() {
    assert!(!verify_signature("other-token", URL, BODY, SIGNATURE).unwrap());
    assert!(!verify_signature(TOKEN, "https://example.com/other", BODY, SIGNATURE).unwrap());
    assert!(!verify_signature(TOKEN, URL, b"Body=Cancel", SIGNATURE).unwrap());
    assert!(!verify_signature(TOKEN, URL, BODY, "").unwrap());
    assert!(!verify_signature(TOKEN, URL, BODY, "GgcDt0nELyfuJbwTZYM7roDAZEA").unwrap());
    assert!(!verify_signature(TOKEN, URL, BODY, "ggcDt0nELyfuJbwTZYM7roDAZEA=").unwrap());
}

#[test]
fn signatures_are_compared_whole() {
    assert!(signature_matches("abc", "abc"));
    assert!(signature_matches("", ""));
    assert!(!signature_matches("abc", "abd"));
    assert!(!signature_matches("abc", "ab"));
    assert!(!signature_matches("abc", "abcd"));
    assert!(!signature_matches("abc", ""));
}

#[test]
fn request_without_signature_is_unauthorized() {
    assert!(matches!(authorize(&config(), None, BODY), Err(TwilioError::Unauthorized)));
}

#[test]
fn request_with_wrong_signature_is_unauthorized() {
    assert!(matches!(authorize(&config(), Some("invalid"), BODY), Err(TwilioError::Unauthorized)));
    assert!(matches!(
        authorize(&config(), Some(SIGNATURE), b"Body=Cancel"),
        Err(TwilioError::Unauthorized)
    ));
}

#[test]
fn request_with_the_expected_signature_passes() {
    assert!(authorize(&config(), Some(SIGNATURE), BODY).is_ok());
}

#[test]
fn unparsed_form_is_a_bad_request() {
    match parsed_form(None) {
        Err(TwilioError::BadRequest(reason)) => assert_eq!(reason, "invalid form payload"),
        other => panic!("unexpected result {other:?}"),
    }
    let payload = TwilioSmsPayload { from: "+15555551212".to_string(), body: "Done".to_string() };
    let parsed = parsed_form(Some(payload)).unwrap();
    assert_eq!(parsed.from, "+15555551212");
    assert_eq!(parsed.body, "Done");
}

#[test]
fn message_with_cancel_in_any_case_cancels() {
    assert_eq!(event_of("cancel"), RideEvent::Cancel);
    assert_eq!(event_of("CANCEL"), RideEvent::Cancel);
    assert_eq!(event_of("Please Cancel my ride"), RideEvent::Cancel);
    assert_eq!(event_of("xxcAnCeLLed"), RideEvent::Cancel);
    assert_eq!(event_of("Done"), RideEvent::Complete);
    assert_eq!(event_of(""), RideEvent::Complete);
    assert_eq!(event_of("cance l"), RideEvent::Complete);
    assert_eq!(event_of("CANCE"), RideEvent::Complete);
}

#[test]
fn uppercase_text_is_searched_as_it_is() {
    assert_eq!(event_in_uppercase("CANCEL"), RideEvent::Cancel);
    assert_eq!(event_in_uppercase("I CANCEL."), RideEvent::Cancel);
    assert_eq!(event_in_uppercase("cancel"), RideEvent::Complete);
    assert_eq!(event_in_uppercase("DONE"), RideEvent::Complete);
}

#[test]
fn contains_finds_a_slice_anywhere() {
    assert!(text::contains("abcabd", "abd"));
    assert!(text::contains("abc", ""));
    assert!(text::contains("", ""));
    assert!(text::contains("abc", "abc"));
    assert!(text::contains("abc", "c"));
    assert!(!text::contains("abc", "abcd"));
    assert!(!text::contains("", "a"));
    assert!(!text::contains("ababab", "aa"));
    assert!(text::contains("grüße", "üß"));
    assert!(text::equal("grüße", "grüße"));
    assert!(!text::equal("grüße", "gruße"));
    assert!(!text::equal("a", "ab"));
}

#[test]
fn completing_moves_a_ride_in_transit_to_completed() {
    let ride = ride_with("in_transit", Some("+15555551212"));
    let id = ride.id;
    let (moved, status) = move_ride(Ok(Some(ride)), RideEvent::Complete).unwrap();
    assert_eq!(status, RideStatus::Completed);
    assert_eq!(moved.status, "completed");
    assert_eq!(moved.id, id);
    assert_eq!(moved.rider_phone.as_deref(), Some("+15555551212"));
    assert_eq!(moved.distance_miles, 4_614_287);
}

#[test]
fn cancelling_moves_a_requested_ride_to_cancelled() {
    let ride = ride_with("requested", Some("+15555551212"));
    let (moved, status) = move_ride(Ok(Some(ride)), RideEvent::Cancel).unwrap();
    assert_eq!(status, RideStatus::Cancelled);
    assert_eq!(moved.status, "cancelled");
}

#[test]
fn completing_a_requested_ride_is_an_invalid_transition() {
    let ride = ride_with("requested", Some("+15555551212"));
    match move_ride(Ok(Some(ride)), RideEvent::Complete) {
        Err(TwilioError::Core(CoreError::InvalidStatusTransition { from, to })) => {
            assert_eq!(from, "requested");
            assert_eq!(to, "");
        }
        other => panic!("unexpected result {other:?}"),
    }
}

#[test]
fn moving_a_finished_ride_is_an_invalid_transition() {
    for status in ["completed", "cancelled", "cancelled_rider_noshow", "cancelled_safety", "rejected_geofence"] {
        for event in [RideEvent::Cancel, RideEvent::Complete] {
            match move_ride(Ok(Some(ride_with(status, None))), event) {
                Err(TwilioError::Core(CoreError::InvalidStatusTransition { from, to })) => {
                    assert_eq!(from, status);
                    assert_eq!(to, "");
                }
                other => panic!("unexpected result {other:?}"),
            }
        }
    }
}

#[test]
fn unreadable_status_is_an_invalid_transition() {
    match move_ride(Ok(Some(ride_with("paused", None))), RideEvent::Cancel) {
        Err(TwilioError::Core(CoreError::InvalidStatusTransition { from, to })) => {
            assert_eq!(from, "paused");
            assert_eq!(to, "");
        }
        other => panic!("unexpected result {other:?}"),
    }
}

#[test]
fn no_ride_for_the_phone_is_not_found() {
    assert!(matches!(move_ride(Ok(None), RideEvent::Cancel), Err(TwilioError::NotFound)));
}

#[test]
fn failed_lookup_is_passed_on() {
    match move_ride(Err(CoreError::Storage("down".to_string())), RideEvent::Cancel) {
        Err(TwilioError::Core(CoreError::Storage(message))) => assert_eq!(message, "down"),
        other => panic!("unexpected result {other:?}"),
    }
}

#[test]
fn reply_tells_what_happened() {
    assert_eq!(
        reply(Ok(()), RideStatus::Completed).unwrap(),
        "Thanks! Your rescue is marked complete."
    );
    assert_eq!(reply(Ok(()), RideStatus::Cancelled).unwrap(), "Your rescue has been cancelled.");
    match reply(Err(CoreError::InvalidLocation("ride missing phone".to_string())), RideStatus::Completed) {
        Err(TwilioError::Core(CoreError::InvalidLocation(reason))) => {
            assert_eq!(reason, "ride missing phone")
        }
        other => panic!("unexpected result {other:?}"),
    }
}

#[test]
fn refusals_map_to_http_statuses() {
    assert_eq!(TwilioError::Unauthorized.status_code(), 401);
    assert_eq!(TwilioError::BadRequest("x".to_string()).status_code(), 400);
    assert_eq!(TwilioError::NotFound.status_code(), 404);
    let invalid = CoreError::InvalidStatusTransition { from: "a".to_string(), to: String::new() };
    assert_eq!(TwilioError::from(invalid).status_code(), 400);
    assert_eq!(TwilioError::from(CoreError::NotFound).status_code(), 500);
    assert_eq!(TwilioError::from(CoreError::Storage("x".to_string())).status_code(), 500);
    assert_eq!(TwilioError::from(CoreError::PilotLimitExceeded(11_000_000)).status_code(), 500);
}

#[test]
fn store_finds_what_was_saved_for_a_phone() {
    let mut store = InMemoryTwilioRideStore::new();
    assert!(store.find_by_phone("+15555551212").unwrap().is_none());
    let ride = ride_with("requested", Some("+15555551212"));
    let id = ride.id;
    store.save(ride).unwrap();
    let found = store.find_by_phone("+15555551212").unwrap().unwrap();
    assert_eq!(found.id, id);
    assert_eq!(found.status, "requested");
    assert!(store.find_by_phone("+15555550000").unwrap().is_none());
}

#[test]
fn store_replaces_the_ride_of_a_phone() {
    let mut store = InMemoryTwilioRideStore::default();
    let first = ride_with("requested", Some("+15555551212"));
    let other = ride_with("accepted", Some("+15555550000"));
    let second = ride_with("cancelled", Some("+15555551212"));
    let (other_id, second_id) = (other.id, second.id);
    store.save(first).unwrap();
    store.save(other).unwrap();
    store.save(second).unwrap();
    let found = store.find_by_phone("+15555551212").unwrap().unwrap();
    assert_eq!(found.id, second_id);
    assert_eq!(found.status, "cancelled");
    let found = store.find_by_phone("+15555550000").unwrap().unwrap();
    assert_eq!(found.id, other_id);
}

#[test]
fn store_refuses_a_ride_without_phone() {
    let mut store = InMemoryTwilioRideStore::new();
    match store.save(ride_with("requested", None)) {
        Err(CoreError::InvalidLocation(reason)) => assert_eq!(reason, "ride missing phone"),
        other => panic!("unexpected result {other:?}"),
    }
    assert!(store.find_by_phone("").unwrap().is_none());
}

#[test]
fn webhook_end_to_end_cancels_a_ride() {
    let mut store = InMemoryTwilioRideStore::new();
    store.save(ride_with("accepted", Some("+15555551212"))).unwrap();
    let body = b"Body=please+cancel&From=%2B15555551212";
    let signature = sign(TOKEN, URL, body).unwrap();
    authorize(&config(), Some(signature.as_str()), body).unwrap();
    let payload = parsed_form(Some(TwilioSmsPayload {
        from: "+15555551212".to_string(),
        body: "please cancel".to_string(),
    }))
    .unwrap();
    let found = store.find_by_phone(payload.from.as_str());
    let (ride, status) = move_ride(found, event_of(payload.body.as_str())).unwrap();
    let saved = store.save(ride);
    assert_eq!(reply(saved, status).unwrap(), "Your rescue has been cancelled.");
    assert_eq!(store.find_by_phone("+15555551212").unwrap().unwrap().status, "cancelled");
}

fn handle(
    store: &mut InMemoryTwilioRideStore,
    signature: Option<&str>,
    body: &[u8],
    form: Option<(&str, &str)>,
) -> (Vec<&'static str>, Result<&'static str, TwilioError>) {
    let mut trace = Vec::new();
    let (mut handling, mut action) = Sms::receive(&config(), signature, body);
    loop {
        let outcome = match action {
            SmsAction::ParseForm => {
                trace.push("parse");
                SmsOutcome::Parsed(form.map(|(from, text)| TwilioSmsPayload {
                    from: from.to_string(),
                    body: text.to_string(),
                }))
            }
            SmsAction::FindByPhone(phone) => {
                trace.push("find");
                SmsOutcome::Found(store.find_by_phone(phone.as_str()))
            }
            SmsAction::Save(ride) => {
                trace.push("save");
                SmsOutcome::Saved(store.save(ride))
            }
            SmsAction::Reply(text) => return (trace, Ok(text)),
            SmsAction::Fail(refusal) => return (trace, Err(refusal)),
        };
        (handling, action) = handling.advance(outcome);
    }
}

#[test]
fn message_is_handled_in_three_actions() {
    let mut store = InMemoryTwilioRideStore::new();
    store.save(ride_with("in_transit", Some("+15555551212"))).unwrap();
    let (trace, result) =
        handle(&mut store, Some(SIGNATURE), BODY, Some(("+15555551212", "Done")));
    assert_eq!(trace, vec!["parse", "find", "save"]);
    assert_eq!(result.unwrap(), "Thanks! Your rescue is marked complete.");
    assert_eq!(store.find_by_phone("+15555551212").unwrap().unwrap().status, "completed");
}

#[test]
fn unsigned_message_asks_for_nothing() {
    let mut store = InMemoryTwilioRideStore::new();
    store.save(ride_with("in_transit", Some("+15555551212"))).unwrap();
    for signature in [None, Some("invalid")] {
        let (trace, result) = handle(&mut store, signature, BODY, Some(("+15555551212", "Done")));
        assert!(trace.is_empty());
        assert!(matches!(result, Err(TwilioError::Unauthorized)));
    }
    assert_eq!(store.find_by_phone("+15555551212").unwrap().unwrap().status, "in_transit");
}

#[test]
fn message_that_fails_on_the_way_stores_nothing() {
    let mut store = InMemoryTwilioRideStore::new();
    store.save(ride_with("requested", Some("+15555551212"))).unwrap();

    let (trace, result) = handle(&mut store, Some(SIGNATURE), BODY, None);
    assert_eq!(trace, vec!["parse"]);
    assert!(matches!(result, Err(TwilioError::BadRequest(m)) if m == "invalid form payload"));

    let (trace, result) = handle(&mut store, Some(SIGNATURE), BODY, Some(("+10000000000", "Done")));
    assert_eq!(trace, vec!["parse", "find"]);
    assert!(matches!(result, Err(TwilioError::NotFound)));

    let (trace, result) = handle(&mut store, Some(SIGNATURE), BODY, Some(("+15555551212", "Done")));
    assert_eq!(trace, vec!["parse", "find"]);
    assert!(matches!(
        result,
        Err(TwilioError::Core(CoreError::InvalidStatusTransition { .. }))
    ));
    assert_eq!(store.find_by_phone("+15555551212").unwrap().unwrap().status, "requested");
}

#[test]
fn outcome_out_of_turn_ends_the_handling() {
    let (handling, _) = Sms::receive(&config(), Some(SIGNATURE), BODY);
    let (handling, action) = handling.advance(SmsOutcome::Saved(Ok(())));
    assert!(matches!(handling, Sms::Done));
    assert!(matches!(action, SmsAction::Fail(TwilioError::BadRequest(m)) if m == "unexpected outcome"));
    let (handling, action) = handling.advance(SmsOutcome::Parsed(None));
    assert!(matches!(handling, Sms::Done));
    assert!(matches!(action, SmsAction::Fail(TwilioError::BadRequest(_))));
}
