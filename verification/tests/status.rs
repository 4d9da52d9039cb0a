use media_tracker::entities::Seen;
use media_tracker::media::resolver::{compute_status, MediaConsumedInput, MediaService};
use media_tracker::media::SeenStatus;
use media_tracker::enums::MediaLot;
use media_tracker::time::UtcInstant;

fn event(id: i32, progress: i32, updated: i64, user_id: i32, metadata_id: i32) -> Seen {
    Seen {
        id,
        progress,
        started_on: None,
        finished_on: None,
        last_updated_on: UtcInstant::from_timestamp(updated, 0).unwrap(),
        user_id,
        metadata_id,
        extra_information: None,
        show_information: None,
        provider_watched_on: None,
    }
}

#[test]
fn status_without_catalog_entry_is_not_in_database() {
    assert_eq!(compute_status(false, &vec![]), SeenStatus::NotInDatabase);
    assert_eq!(compute_status(false, &vec![event(1, 100, 5, 1, 1)]), SeenStatus::NotInDatabase);
}

#[test]
fn status_without_events_is_not_consumed() {
    assert_eq!(compute_status(true, &vec![]), SeenStatus::NotConsumed);
}

#[test]
fn status_of_an_unfinished_event_is_currently_underway() {
    assert_eq!(compute_status(true, &vec![event(1, 40, 5, 1, 1)]), SeenStatus::CurrentlyUnderway);
    assert_eq!(compute_status(true, &vec![event(1, 0, 5, 1, 1)]), SeenStatus::CurrentlyUnderway);
    assert_eq!(compute_status(true, &vec![event(1, 99, 5, 1, 1)]), SeenStatus::CurrentlyUnderway);
}

#[test]
fn status_of_a_finished_event_is_consumed_at_least_once() {
    assert_eq!(
        compute_status(true, &vec![event(1, 100, 5, 1, 1)]),
        SeenStatus::ConsumedAtLeastOnce
    );
}

#[test]
fn status_goes_by_the_most_recent_event() {
    let newest_first = vec![event(2, 40, 20, 1, 1), event(1, 100, 10, 1, 1)];
    assert_eq!(compute_status(true, &newest_first), SeenStatus::CurrentlyUnderway);
    let oldest_first = vec![event(1, 100, 10, 1, 1), event(2, 40, 20, 1, 1)];
    assert_eq!(compute_status(true, &oldest_first), SeenStatus::CurrentlyUnderway);
    let finished_last = vec![event(1, 40, 10, 1, 1), event(2, 100, 20, 1, 1), event(3, 10, 5, 1, 1)];
    assert_eq!(compute_status(true, &finished_last), SeenStatus::ConsumedAtLeastOnce);
}

#[test]
fn status_ties_go_to_the_smaller_id() {
    let tie = vec![event(7, 100, 10, 1, 1), event(3, 40, 10, 1, 1)];
    assert_eq!(compute_status(true, &tie), SeenStatus::CurrentlyUnderway);
    let tie = vec![event(3, 40, 10, 1, 1), event(7, 100, 10, 1, 1)];
    assert_eq!(compute_status(true, &tie), SeenStatus::CurrentlyUnderway);
    let tie = vec![event(3, 100, 10, 1, 1), event(7, 40, 10, 1, 1)];
    assert_eq!(compute_status(true, &tie), SeenStatus::ConsumedAtLeastOnce);
}

#[test]
fn status_compares_nanoseconds_too() {
    let mut early = event(1, 100, 10, 1, 1);
    early.last_updated_on = UtcInstant::from_timestamp(10, 1).unwrap();
    let mut late = event(2, 40, 10, 1, 1);
    late.last_updated_on = UtcInstant::from_timestamp(10, 2).unwrap();
    assert_eq!(compute_status(true, &vec![early, late]), SeenStatus::CurrentlyUnderway);
}

#[test]
fn media_consumed_counts_only_the_events_of_the_user_and_the_item() {
    let service = MediaService::new();
    let events = vec![
        event(1, 100, 10, 1, 5),
        event(2, 40, 30, 2, 5),
        event(3, 40, 40, 1, 6),
    ];
    let input = |identifier: &str| MediaConsumedInput {
        identifier: identifier.to_string(),
        lot: MediaLot::Movie,
    };
    let seen = service.media_consumed(1, input("tt1"), Some(5), &events);
    assert_eq!(seen.identifier, "tt1");
    assert_eq!(seen.seen, SeenStatus::ConsumedAtLeastOnce);
    assert_eq!(
        service.media_consumed(2, input("tt1"), Some(5), &events).seen,
        SeenStatus::CurrentlyUnderway
    );
    assert_eq!(
        service.media_consumed(3, input("tt1"), Some(5), &events).seen,
        SeenStatus::NotConsumed
    );
    assert_eq!(
        service.media_consumed(1, input("tt9"), None, &events).seen,
        SeenStatus::NotInDatabase
    );
}
