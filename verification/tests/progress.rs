use chrono::NaiveDate;
use media_tracker::entities::{
    NewSeen, Seen, SeenExtraInformation, SeenSeasonExtraInformation, UserToMetadata,
};
use media_tracker::enums::MediaLot;
use media_tracker::media::resolver::{
    IdObject, MediaService, NotFoundError, ProgressUpdate, ProgressUpdateAction, SeenWrite,
    ServiceError, StateError, ValidationError,
};
use media_tracker::time::{CalendarDate, UtcInstant};

fn date(year: i32, month: u32, day: u32) -> CalendarDate {
    let days = NaiveDate::from_ymd_opt(year, month, day).unwrap().to_epoch_days();
    CalendarDate::from_epoch_days(days).unwrap()
}

fn noon(year: i32, month: u32, day: u32) -> UtcInstant {
    let at = NaiveDate::from_ymd_opt(year, month, day).unwrap().and_hms_opt(12, 0, 0).unwrap();
    UtcInstant::from_timestamp(at.and_utc().timestamp(), 0).unwrap()
}

fn event(id: i32, progress: i32, user_id: i32, metadata_id: i32) -> Seen {
    Seen {
        id,
        progress,
        started_on: Some(date(2024, 1, 1)),
        finished_on: if progress == 100 { Some(date(2024, 1, 2)) } else { None },
        last_updated_on: noon(2024, 1, 2),
        user_id,
        metadata_id,
        extra_information: None,
        show_information: None,
        provider_watched_on: Some("Movary".to_string()),
    }
}

fn request(action: ProgressUpdateAction, progress: Option<i32>) -> ProgressUpdate {
    ProgressUpdate {
        metadata_id: 5,
        progress,
        action,
        date: None,
        season_number: None,
        episode_number: None,
    }
}

fn update(progress: i32) -> ProgressUpdate {
    request(ProgressUpdateAction::Update, Some(progress))
}

fn refused(write: Result<SeenWrite, ServiceError>) -> ServiceError {
    match write {
        Err(error) => error,
        Ok(write) => panic!("expected a refusal, got {:?}", write),
    }
}

fn updated(write: Result<SeenWrite, ServiceError>) -> Seen {
    match write {
        Ok(SeenWrite::Update(seen)) => seen,
        other => panic!("expected an update, got {:?}", other),
    }
}

fn inserted(write: Result<SeenWrite, ServiceError>) -> NewSeen {
    match write {
        Ok(SeenWrite::Insert(seen)) => seen,
        other => panic!("expected an insert, got {:?}", other),
    }
}

#[test]
fn update_without_underway_event_is_refused() {
    let service = MediaService::new();
    let now = noon(2024, 3, 1);
    let none: Vec<Seen> = vec![];
    assert_eq!(
        refused(service.progress_update(update(50), 1, &none, Some(MediaLot::Movie), now)),
        ServiceError::State(StateError::NoUnderwayEvent)
    );
    let finished = vec![event(1, 100, 1, 5)];
    assert_eq!(
        refused(service.progress_update(update(50), 1, &finished, Some(MediaLot::Movie), now)),
        ServiceError::State(StateError::NoUnderwayEvent)
    );
    let of_others = vec![event(1, 40, 2, 5), event(2, 40, 1, 6)];
    assert_eq!(
        refused(service.progress_update(update(50), 1, &of_others, Some(MediaLot::Movie), now)),
        ServiceError::State(StateError::NoUnderwayEvent)
    );
}

#[test]
fn update_with_two_underway_events_is_a_data_inconsistency() {
    let service = MediaService::new();
    let events = vec![event(1, 40, 1, 5), event(2, 10, 1, 5)];
    assert_eq!(
        refused(service.progress_update(update(50), 1, &events, None, noon(2024, 3, 1))),
        ServiceError::State(StateError::DataInconsistency)
    );
    let three = vec![event(1, 40, 1, 5), event(2, 100, 1, 5), event(3, 0, 1, 5), event(4, 99, 1, 5)];
    assert_eq!(
        refused(service.progress_update(update(50), 1, &three, None, noon(2024, 3, 1))),
        ServiceError::State(StateError::DataInconsistency)
    );
}

#[test]
fn update_sets_progress_and_time_of_the_underway_event() {
    let service = MediaService::new();
    let events = vec![event(1, 100, 1, 5), event(2, 40, 1, 5), event(3, 40, 2, 5)];
    let now = noon(2024, 3, 1);
    let seen = updated(service.progress_update(update(60), 1, &events, None, now));
    assert_eq!(seen.id, 2);
    assert_eq!(seen.progress, 60);
    assert_eq!(seen.last_updated_on, now);
    assert_eq!(seen.finished_on, None);
    assert_eq!(seen.started_on, Some(date(2024, 1, 1)));
    assert_eq!(seen.user_id, 1);
    assert_eq!(seen.metadata_id, 5);
    assert_eq!(seen.provider_watched_on.as_deref(), Some("Movary"));
}

#[test]
fn update_to_one_hundred_finishes_the_event_today() {
    let service = MediaService::new();
    let events = vec![event(2, 40, 1, 5)];
    let now = noon(2024, 3, 1);
    let seen = updated(service.progress_update(update(100), 1, &events, None, now));
    assert_eq!(seen.progress, 100);
    assert_eq!(seen.finished_on, Some(date(2024, 3, 1)));
    assert_eq!(seen.last_updated_on, now);
}

#[test]
fn update_needs_a_progress_between_zero_and_one_hundred() {
    let service = MediaService::new();
    let events = vec![event(2, 40, 1, 5)];
    let now = noon(2024, 3, 1);
    assert_eq!(
        refused(service.progress_update(update(101), 1, &events, None, now)),
        ServiceError::Validation(ValidationError::ProgressOutOfRange)
    );
    assert_eq!(
        refused(service.progress_update(update(-1), 1, &events, None, now)),
        ServiceError::Validation(ValidationError::ProgressOutOfRange)
    );
    assert_eq!(
        refused(service.progress_update(
            request(ProgressUpdateAction::Update, None),
            1,
            &events,
            None,
            now
        )),
        ServiceError::Validation(ValidationError::MissingProgress)
    );
    assert_eq!(updated(service.progress_update(update(0), 1, &events, None, now)).progress, 0);
}

#[test]
fn progress_does_not_go_down_and_a_finished_event_stays() {
    let service = MediaService::new();
    let mut events = vec![event(2, 10, 1, 5)];
    let mut reached = 10;
    for (step, progress) in [10, 40, 40, 75, 100].into_iter().enumerate() {
        let now = noon(2024, 3, 1 + step as u32);
        let seen = updated(service.progress_update(update(progress), 1, &events, None, now));
        assert!(seen.progress >= reached);
        reached = seen.progress;
        events[0] = seen;
    }
    assert_eq!(events[0].progress, 100);
    assert_eq!(events[0].finished_on, Some(date(2024, 3, 5)));
    for progress in [0, 50, 100] {
        assert_eq!(
            refused(service.progress_update(update(progress), 1, &events, None, noon(2024, 4, 1))),
            ServiceError::State(StateError::NoUnderwayEvent)
        );
    }
}

#[test]
fn now_creates_an_event_finished_today() {
    let service = MediaService::new();
    let now = noon(2024, 3, 1);
    let seen = inserted(service.progress_update(
        request(ProgressUpdateAction::Now, None),
        1,
        &vec![],
        Some(MediaLot::Movie),
        now,
    ));
    assert_eq!(
        seen,
        NewSeen {
            progress: 100,
            started_on: None,
            finished_on: Some(date(2024, 3, 1)),
            last_updated_on: now,
            user_id: 1,
            metadata_id: 5,
            extra_information: None,
        }
    );
}

#[test]
fn in_the_past_creates_an_event_finished_on_the_given_date() {
    let service = MediaService::new();
    let now = noon(2024, 3, 1);
    let mut input = request(ProgressUpdateAction::InThePast, None);
    input.date = Some(date(2020, 2, 29));
    let seen = inserted(service.progress_update(input, 1, &vec![], Some(MediaLot::Book), now));
    assert_eq!(seen.progress, 100);
    assert_eq!(seen.finished_on, Some(date(2020, 2, 29)));
    assert_eq!(seen.started_on, None);
    assert_eq!(seen.last_updated_on, now);
    assert_eq!(
        refused(service.progress_update(
            request(ProgressUpdateAction::InThePast, None),
            1,
            &vec![],
            Some(MediaLot::Book),
            now
        )),
        ServiceError::Validation(ValidationError::MissingDate)
    );
}

#[test]
fn just_started_creates_an_event_started_today() {
    let service = MediaService::new();
    let now = noon(2024, 3, 1);
    let mut input = request(ProgressUpdateAction::JustStarted, None);
    input.date = Some(date(2020, 2, 29));
    let seen = inserted(service.progress_update(input, 1, &vec![], Some(MediaLot::VideoGame), now));
    assert_eq!(seen.progress, 0);
    assert_eq!(seen.started_on, Some(date(2024, 3, 1)));
    assert_eq!(seen.finished_on, None);
    assert_eq!(seen.extra_information, None);
}

#[test]
fn a_show_needs_season_and_episode() {
    let service = MediaService::new();
    let now = noon(2024, 3, 1);
    for action in [
        ProgressUpdateAction::Now,
        ProgressUpdateAction::InThePast,
        ProgressUpdateAction::JustStarted,
    ] {
        let mut input = request(action, None);
        input.date = Some(date(2024, 2, 1));
        assert_eq!(
            refused(service.progress_update(input, 1, &vec![], Some(MediaLot::Show), now)),
            ServiceError::Validation(ValidationError::MissingSeasonEpisode)
        );
        input.season_number = Some(2);
        assert_eq!(
            refused(service.progress_update(input, 1, &vec![], Some(MediaLot::Show), now)),
            ServiceError::Validation(ValidationError::MissingSeasonEpisode)
        );
        input.episode_number = Some(7);
        let seen = inserted(service.progress_update(input, 1, &vec![], Some(MediaLot::Show), now));
        assert_eq!(
            seen.extra_information,
            Some(SeenExtraInformation::Show(SeenSeasonExtraInformation { season: 2, episode: 7 }))
        );
        let movie = inserted(service.progress_update(input, 1, &vec![], Some(MediaLot::Movie), now));
        assert_eq!(movie.extra_information, None);
    }
}

#[test]
fn an_unknown_media_item_is_not_found() {
    let service = MediaService::new();
    assert_eq!(
        refused(service.progress_update(
            request(ProgressUpdateAction::Now, None),
            1,
            &vec![],
            None,
            noon(2024, 3, 1)
        )),
        ServiceError::NotFound(NotFoundError::Media)
    );
}

#[test]
fn every_update_goes_with_an_association() {
    let service = MediaService::new();
    assert_eq!(
        service.association(&update(10), 9),
        UserToMetadata { user_id: 9, metadata_id: 5 }
    );
}

#[test]
fn only_the_owner_deletes_an_event() {
    let service = MediaService::new();
    let seen = event(4, 100, 1, 5);
    assert_eq!(service.delete_seen_item(Some(&seen), 1), Ok(IdObject { id: 4 }));
    assert_eq!(service.delete_seen_item(Some(&seen), 2), Err(ServiceError::Ownership));
    assert_eq!(
        service.delete_seen_item(None, 1),
        Err(ServiceError::NotFound(NotFoundError::Event))
    );
}

#[test]
fn refusals_read_as_messages() {
    assert_eq!(
        ServiceError::State(StateError::NoUnderwayEvent).message(),
        "There is no `seen` item underway"
    );
    assert_eq!(
        ServiceError::Ownership.message(),
        "This seen item does not belong to this user"
    );
    assert_eq!(
        ServiceError::NotFound(NotFoundError::Event).message(),
        "This seen item does not exist"
    );
    assert_eq!(ServiceError::NotFound(NotFoundError::Media).message(), "The record does not exit");
    let all = [
        ServiceError::Validation(ValidationError::MissingProgress),
        ServiceError::Validation(ValidationError::ProgressOutOfRange),
        ServiceError::Validation(ValidationError::MissingDate),
        ServiceError::Validation(ValidationError::MissingSeasonEpisode),
        ServiceError::State(StateError::DataInconsistency),
    ];
    for error in all {
        assert!(!error.message().is_empty());
    }
}

#[test]
fn a_show_without_season_or_episode_is_refused_whatever_the_date() {
    let service = MediaService::new();
    let now = noon(2024, 3, 1);
    let missing = ServiceError::Validation(ValidationError::MissingSeasonEpisode);
    for action in [
        ProgressUpdateAction::Now,
        ProgressUpdateAction::InThePast,
        ProgressUpdateAction::JustStarted,
    ] {
        let mut input = request(action, None);
        assert_eq!(
            refused(service.progress_update(input, 1, &vec![], Some(MediaLot::Show), now)),
            missing
        );
        input.episode_number = Some(7);
        assert_eq!(
            refused(service.progress_update(input, 1, &vec![], Some(MediaLot::Show), now)),
            missing
        );
        input.episode_number = None;
        input.season_number = Some(2);
        assert_eq!(
            refused(service.progress_update(input, 1, &vec![], Some(MediaLot::Show), now)),
            missing
        );
    }
    let mut input = request(ProgressUpdateAction::InThePast, None);
    input.season_number = Some(2);
    input.episode_number = Some(7);
    assert_eq!(
        refused(service.progress_update(input, 1, &vec![], Some(MediaLot::Show), now)),
        ServiceError::Validation(ValidationError::MissingDate)
    );
}
