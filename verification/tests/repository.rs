use supportcarr::error::CoreError;
use supportcarr::model::{Ride, RideLocation};
use supportcarr::repository::InMemoryRideRepository;

fn ride(rider: &str) -> Ride {
    Ride::new(
        rider.to_string(),
        RideLocation::new(34_052_200, -118_243_700),
        RideLocation::new(34_100_000, -118_300_000),
        None,
        None,
        None,
        4_614_287,
        5000,
    )
}

#[test]
fn created_ride_is_found_by_its_identifier() {
    let mut repository = InMemoryRideRepository::new();
    let first = ride("rider-1");
    let second = ride("rider-2");
    let (first_id, second_id) = (first.id, second.id);
    assert!(repository.create_ride(first).is_ok());
    assert!(repository.create_ride(second).is_ok());
    assert_eq!(repository.get_ride(&first_id).unwrap().rider_id, "rider-1");
    assert_eq!(repository.get_ride(&second_id).unwrap().rider_id, "rider-2");
}

#[test]
fn unknown_identifier_is_not_found() {
    let repository = InMemoryRideRepository::default();
    assert!(matches!(repository.get_ride(&7), Err(CoreError::NotFound)));
    let mut repository = repository;
    repository.create_ride(ride("rider-1")).unwrap();
    assert!(matches!(repository.get_ride(&7), Err(CoreError::NotFound)));
}

#[test]
fn update_replaces_a_stored_ride() {
    let mut repository = InMemoryRideRepository::new();
    let mut stored = ride("rider-1");
    let id = stored.id;
    repository.create_ride(stored.clone()).unwrap();
    stored.status = "accepted".to_string();
    stored.driver_id = Some("pilot-1".to_string());
    assert!(repository.update_ride(stored).is_ok());
    let found = repository.get_ride(&id).unwrap();
    assert_eq!(found.status, "accepted");
    assert_eq!(found.driver_id.as_deref(), Some("pilot-1"));
}

#[test]
fn update_of_an_unknown_ride_is_not_found_and_stores_nothing() {
    let mut repository = InMemoryRideRepository::new();
    let known = ride("rider-0");
    let known_id = known.id;
    repository.create_ride(known).unwrap();
    let unknown = ride("rider-1");
    let id = unknown.id;
    assert!(matches!(repository.update_ride(unknown), Err(CoreError::NotFound)));
    assert!(matches!(repository.get_ride(&id), Err(CoreError::NotFound)));
    assert_eq!(repository.get_ride(&known_id).unwrap().rider_id, "rider-0");
}

#[test]
fn create_under_a_stored_identifier_already_exists() {
    let mut repository = InMemoryRideRepository::new();
    let first = ride("rider-1");
    let mut second = ride("rider-2");
    second.id = first.id;
    let id = first.id;
    repository.create_ride(first).unwrap();
    assert!(matches!(repository.create_ride(second), Err(CoreError::AlreadyExists)));
    let stored = repository.get_ride(&id).unwrap();
    assert_eq!(stored.rider_id, "rider-1");
    assert_eq!(stored.status, "requested");
}

#[test]
fn create_after_a_refused_update_succeeds() {
    let mut repository = InMemoryRideRepository::new();
    let first = ride("rider-1");
    let id = first.id;
    assert!(matches!(repository.update_ride(first.clone()), Err(CoreError::NotFound)));
    assert!(repository.create_ride(first).is_ok());
    assert_eq!(repository.get_ride(&id).unwrap().rider_id, "rider-1");
}

#[test]
fn ride_with_a_given_identifier_is_stored_under_it() {
    let mut repository = InMemoryRideRepository::new();
    let given = Ride::with_id(
        42,
        "rider-9".to_string(),
        RideLocation::new(34_052_200, -118_243_700),
        RideLocation::new(34_100_000, -118_300_000),
        None,
        Some("gate code 7".to_string()),
        None,
        4_614_287,
        5000,
    );
    assert_eq!(given.id, 42);
    assert_eq!(given.status, "requested");
    assert_eq!(given.driver_id, None);
    assert_eq!(given.notes.as_deref(), Some("gate code 7"));
    repository.create_ride(given).unwrap();
    assert_eq!(repository.get_ride(&42).unwrap().rider_id, "rider-9");
    assert!(matches!(repository.get_ride(&43), Err(CoreError::NotFound)));
}
