//! The decisions of the media service: which status a history amounts to,
//! and which write a progress update asks of storage.

use super::SeenStatus;
use crate::entities::{
    AudioBookSpecifics, BookSpecifics, MovieSpecifics, NewSeen, Seen, SeenExtraInformation,
    SeenSeasonExtraInformation, ShowSpecifics, UserToMetadata, VideoGameSpecifics, FINISHED,
};
use crate::enums::MediaLot;
use crate::time::{CalendarDate, UtcInstant};
use vstd::prelude::*;

verus! {

/// A media item as a listing shows it.
#[derive(Debug)]
pub struct MediaSearchItem {
    pub identifier: String,
    pub title: String,
    pub description: Option<String>,
    pub author_names: Vec<String>,
    pub genres: Vec<String>,
    pub poster_images: Vec<String>,
    pub backdrop_images: Vec<String>,
    pub publish_year: Option<i32>,
    pub publish_date: Option<CalendarDate>,
    pub book_specifics: Option<BookSpecifics>,
    pub movie_specifics: Option<MovieSpecifics>,
    pub show_specifics: Option<ShowSpecifics>,
    pub video_game_specifics: Option<VideoGameSpecifics>,
    pub audio_books_specifics: Option<AudioBookSpecifics>,
}

/// One page of a listing, and how many media items the listing has.
#[derive(Debug)]
pub struct MediaSearchResults {
    pub total: i32,
    pub items: Vec<MediaSearchItem>,
}

/// A media item of the catalogue with all that is known of it.
#[derive(Debug)]
pub struct MediaDetails {
    pub id: i32,
    pub title: String,
    pub description: Option<String>,
    pub lot: MediaLot,
    pub creators: Vec<String>,
    pub genres: Vec<String>,
    pub poster_images: Vec<String>,
    pub backdrop_images: Vec<String>,
    pub publish_year: Option<i32>,
    pub publish_date: Option<CalendarDate>,
    pub book_specifics: Option<BookSpecifics>,
    pub movie_specifics: Option<MovieSpecifics>,
    pub show_specifics: Option<ShowSpecifics>,
    pub video_game_specifics: Option<VideoGameSpecifics>,
    pub audio_books_specifics: Option<AudioBookSpecifics>,
}

/// The answer to whether a media item has been consumed.
#[derive(Debug)]
pub struct MediaSeen {
    pub identifier: String,
    pub seen: SeenStatus,
}

/// What a progress update does to the user's history.
#[derive(Clone, Copy, Debug, PartialEq, Eq, Structural)]
pub enum ProgressUpdateAction {
    Update,
    Now,
    InThePast,
    JustStarted,
}

/// A request to record progress on a media item.
#[derive(Clone, Copy, Debug, PartialEq, Eq, Structural)]
pub struct ProgressUpdate {
    pub metadata_id: i32,
    pub progress: Option<i32>,
    pub action: ProgressUpdateAction,
    pub date: Option<CalendarDate>,
    pub season_number: Option<i32>,
    pub episode_number: Option<i32>,
}

/// A media item named by its lot and the identifier its provider gave it.
#[derive(Debug)]
pub struct MediaConsumedInput {
    pub identifier: String,
    pub lot: MediaLot,
}

/// One page of the media items of one lot.
#[derive(Clone, Copy, Debug, PartialEq, Eq, Structural)]
pub struct MediaListInput {
    pub page: i32,
    pub lot: MediaLot,
}

/// The number of a stored record.
#[derive(Clone, Copy, Debug, PartialEq, Eq, Structural)]
pub struct IdObject {
    pub id: i32,
}

/// A request that cannot be carried out as it stands.
#[derive(Clone, Copy, Debug, PartialEq, Eq, Structural)]
pub enum ValidationError {
    /// An update names no progress.
    MissingProgress,
    /// The progress lies outside 0 to 100.
    ProgressOutOfRange,
    /// A consumption in the past names no date.
    MissingDate,
    /// The media item is a show and the request names no season or episode.
    MissingSeasonEpisode,
}

/// A history that does not allow the request.
#[derive(Clone, Copy, Debug, PartialEq, Eq, Structural)]
pub enum StateError {
    /// An update found no event in progress.
    NoUnderwayEvent,
    /// An update found more than one event in progress: storage holds what
    /// it must never hold, and the service does not pick one.
    DataInconsistency,
}

/// What was asked for and is unknown.
#[derive(Clone, Copy, Debug, PartialEq, Eq, Structural)]
pub enum NotFoundError {
    /// No media item has the number asked for, or the record that its lot
    /// asks for is missing.
    Media,
    /// No consumption event has the number asked for.
    Event,
}

/// Why the media service refused a request.
#[derive(Clone, Copy, Debug, PartialEq, Eq, Structural)]
pub enum ServiceError {
    Validation(ValidationError),
    State(StateError),
    NotFound(NotFoundError),
    /// The event belongs to another user.
    Ownership,
}

impl ServiceError {
    /// The refusal in words.
    pub open spec fn spec_message(self) -> Seq<char> {
        match self {
            ServiceError::Validation(ValidationError::MissingProgress) => "An update needs a progress"@,
            ServiceError::Validation(ValidationError::ProgressOutOfRange) => "The progress must lie between 0 and 100"@,
            ServiceError::Validation(ValidationError::MissingDate) => "A consumption in the past needs a date"@,
            ServiceError::Validation(ValidationError::MissingSeasonEpisode) => "A show needs a season and an episode"@,
            ServiceError::State(StateError::NoUnderwayEvent) => "There is no `seen` item underway"@,
            ServiceError::State(StateError::DataInconsistency) => "There is more than one `seen` item underway"@,
            ServiceError::NotFound(NotFoundError::Media) => "The record does not exit"@,
            ServiceError::NotFound(NotFoundError::Event) => "This seen item does not exist"@,
            ServiceError::Ownership => "This seen item does not belong to this user"@,
        }
    }

    /// The refusal in words.
    pub fn message(&self) -> (text: String)
        ensures
            text@ == self.spec_message(),
    {
        match self {
            ServiceError::Validation(ValidationError::MissingProgress) => "An update needs a progress".to_owned(),
            ServiceError::Validation(ValidationError::ProgressOutOfRange) => "The progress must lie between 0 and 100".to_owned(),
            ServiceError::Validation(ValidationError::MissingDate) => "A consumption in the past needs a date".to_owned(),
            ServiceError::Validation(ValidationError::MissingSeasonEpisode) => "A show needs a season and an episode".to_owned(),
            ServiceError::State(StateError::NoUnderwayEvent) => "There is no `seen` item underway".to_owned(),
            ServiceError::State(StateError::DataInconsistency) => "There is more than one `seen` item underway".to_owned(),
            ServiceError::NotFound(NotFoundError::Media) => "The record does not exit".to_owned(),
            ServiceError::NotFound(NotFoundError::Event) => "This seen item does not exist".to_owned(),
            ServiceError::Ownership => "This seen item does not belong to this user".to_owned(),
        }
    }
}

/// The write that storage is to carry out for a progress update.
#[derive(Debug)]
pub enum SeenWrite {
    /// Store this event in place of the one with its number.
    Update(Seen),
    /// Store this event under a new number.
    Insert(NewSeen),
}

/// Whether event `a` counts as more recent than `b`: it was updated later,
/// or at the same instant and has the smaller number.
pub open spec fn more_recent(a: Seen, b: Seen) -> bool {
    ||| a.last_updated_on.is_after(b.last_updated_on)
    ||| (!b.last_updated_on.is_after(a.last_updated_on) && a.id < b.id)
}

/// Whether the event at index `i` is the most recent one: none is more
/// recent, and it is more recent than all that stand before it.
pub open spec fn is_latest(events: Seq<Seen>, i: int) -> bool {
    &&& 0 <= i < events.len()
    &&& forall|j: int| 0 <= j < events.len() ==> !more_recent(#[trigger] events[j], events[i])
    &&& forall|j: int| 0 <= j < i ==> more_recent(events[i], #[trigger] events[j])
}

/// The index of the most recent event of a history that is not empty.
pub open spec fn latest_index(events: Seq<Seen>) -> int {
    choose|i: int| is_latest(events, i)
}

/// The status that a history amounts to. In order: the media item is not in
/// the catalogue; the history is empty; the most recent event is still in
/// progress; otherwise the item was consumed at least once.
pub open spec fn spec_compute_status(catalog_hit: bool, events: Seq<Seen>) -> SeenStatus {
    if !catalog_hit {
        SeenStatus::NotInDatabase
    } else if events.len() == 0 {
        SeenStatus::NotConsumed
    } else if events[latest_index(events)].is_underway() {
        SeenStatus::CurrentlyUnderway
    } else {
        SeenStatus::ConsumedAtLeastOnce
    }
}

/// At most one index is that of the most recent event.
pub proof fn lemma_latest_is_unique(events: Seq<Seen>, i: int, j: int)
    requires
        is_latest(events, i),
        is_latest(events, j),
    ensures
        i == j,
{
    if i < j {
        assert(more_recent(events[j], events[i]));
    } else if j < i {
        assert(more_recent(events[i], events[j]));
    }
}

/// Every history that is not empty has a most recent event: the status is
/// defined for every history.
pub proof fn lemma_latest_exists(events: Seq<Seen>)
    requires
        events.len() > 0,
    ensures
        is_latest(events, latest_index(events)),
    decreases events.len(),
{
    if events.len() == 1 {
        assert(is_latest(events, 0));
    } else {
        let shorter = events.drop_last();
        lemma_latest_exists(shorter);
        let k = latest_index(shorter);
        let last = events.len() - 1;
        assert forall|j: int| 0 <= j < shorter.len() implies shorter[j] == events[j] by {}
        if more_recent(events[last], events[k]) {
            assert forall|j: int| 0 <= j < events.len() implies !more_recent(
                #[trigger] events[j],
                events[last],
            ) by {
                if j < last {
                    assert(!more_recent(shorter[j], shorter[k]));
                }
            }
            assert forall|j: int| 0 <= j < last implies more_recent(
                events[last],
                #[trigger] events[j],
            ) by {
                assert(!more_recent(shorter[j], shorter[k]));
            }
            assert(is_latest(events, last));
        } else {
            assert forall|j: int| 0 <= j < events.len() implies !more_recent(
                #[trigger] events[j],
                events[k],
            ) by {
                if j < last {
                    assert(!more_recent(shorter[j], shorter[k]));
                }
            }
            assert forall|j: int| 0 <= j < k implies more_recent(events[k], #[trigger] events[j]) by {
                assert(more_recent(shorter[k], shorter[j]));
            }
            assert(is_latest(events, k));
        }
    }
}

/// In a history ordered from the most recent event down, ties going to the
/// smaller number, the first event is the most recent one: the status can be
/// read off the head of what storage returns in that order.
pub proof fn lemma_latest_of_ordered(events: Seq<Seen>)
    requires
        events.len() > 0,
        forall|i: int, j: int|
            0 <= i < j < events.len() ==> !more_recent(#[trigger] events[j], #[trigger] events[i]),
    ensures
        latest_index(events) == 0,
{
    assert(is_latest(events, 0));
    lemma_latest_is_unique(events, 0, latest_index(events));
}

fn is_more_recent(a: &Seen, b: &Seen) -> (newer: bool)
    ensures
        newer == more_recent(*a, *b),
{
    a.last_updated_on.later_than(&b.last_updated_on) || (!b.last_updated_on.later_than(
        &a.last_updated_on,
    ) && a.id < b.id)
}

/// Derives the consumption status of a media item from whether the catalogue
/// holds it and from the user's events for it, in any order.
pub fn compute_status(catalog_hit: bool, events: &Vec<Seen>) -> (status: SeenStatus)
    ensures
        status == spec_compute_status(catalog_hit, events@),
{
    if !catalog_hit {
        return SeenStatus::NotInDatabase;
    }
    if events.len() == 0 {
        return SeenStatus::NotConsumed;
    }
    let mut best: usize = 0;
    let mut i: usize = 1;
    while i < events.len()
        invariant
            best < i <= events.len(),
            forall|j: int| 0 <= j < i ==> !more_recent(#[trigger] events@[j], events@[best as int]),
            forall|j: int| 0 <= j < best ==> more_recent(events@[best as int], #[trigger] events@[j]),
        decreases events.len() - i,
    {
        if is_more_recent(&events[i], &events[best]) {
            best = i;
        }
        i = i + 1;
    }
    proof {
        assert(is_latest(events@, best as int));
        lemma_latest_is_unique(events@, best as int, latest_index(events@));
    }
    if events[best].progress < FINISHED {
        SeenStatus::CurrentlyUnderway
    } else {
        SeenStatus::ConsumedAtLeastOnce
    }
}

/// Whether an event is one of `user_id` for `metadata_id`.
pub open spec fn concerns(event: Seen, user_id: i32, metadata_id: i32) -> bool {
    event.user_id == user_id && event.metadata_id == metadata_id
}

/// The events of `user_id` for `metadata_id`, in the order of the history.
pub open spec fn history_of(events: Seq<Seen>, user_id: i32, metadata_id: i32) -> Seq<Seen> {
    events.filter(|event: Seen| concerns(event, user_id, metadata_id))
}

/// The events of `user_id` for `metadata_id` that are still in progress.
pub open spec fn underway(events: Seq<Seen>, user_id: i32, metadata_id: i32) -> Seq<Seen> {
    events.filter(|event: Seen| concerns(event, user_id, metadata_id) && event.is_underway())
}

/// The event in progress as an update leaves it: progress and the time of
/// the last update are set, and an event that reaches 100 is finished today.
pub open spec fn updated(event: Seen, progress: i32, now: UtcInstant) -> Seen {
    Seen {
        progress,
        last_updated_on: now,
        finished_on: if progress == FINISHED {
            Some(now.spec_date_naive())
        } else {
            event.finished_on
        },
        ..event
    }
}

/// What a consumption event of a media item of this lot says beyond
/// progress and dates, if the request holds what the lot asks for.
pub open spec fn spec_extra_information(input: ProgressUpdate, lot: MediaLot) -> Result<
    Option<SeenExtraInformation>,
    ServiceError,
> {
    if lot == MediaLot::Show {
        match (input.season_number, input.episode_number) {
            (Some(season), Some(episode)) => Ok(
                Some(
                    SeenExtraInformation::Show(SeenSeasonExtraInformation { season, episode }),
                ),
            ),
            _ => Err(ServiceError::Validation(ValidationError::MissingSeasonEpisode)),
        }
    } else {
        Ok(None)
    }
}

/// The event that `Now`, `InThePast` or `JustStarted` creates.
pub open spec fn created(
    input: ProgressUpdate,
    user_id: i32,
    extra_information: Option<SeenExtraInformation>,
    now: UtcInstant,
) -> NewSeen {
    let today = now.spec_date_naive();
    NewSeen {
        progress: if input.action == ProgressUpdateAction::JustStarted {
            0
        } else {
            FINISHED
        },
        started_on: if input.action == ProgressUpdateAction::JustStarted {
            Some(today)
        } else {
            None
        },
        finished_on: match input.action {
            ProgressUpdateAction::Now => Some(today),
            ProgressUpdateAction::InThePast => input.date,
            _ => None,
        },
        last_updated_on: now,
        user_id,
        metadata_id: input.metadata_id,
        extra_information,
    }
}

/// The write that a progress update asks for, or why it is refused.
///
/// `Update` needs exactly one event in progress for the user and the media
/// item: with none the history does not allow it, with several storage is
/// inconsistent. It then needs a progress between 0 and 100. The other
/// actions need the media item to be known and, for a show, a season and an
/// episode, whatever else the request holds; `InThePast` then needs a date.
pub open spec fn spec_progress_update(
    input: ProgressUpdate,
    user_id: i32,
    events: Seq<Seen>,
    lot: Option<MediaLot>,
    now: UtcInstant,
) -> Result<SeenWrite, ServiceError> {
    if input.action == ProgressUpdateAction::Update {
        let open_events = underway(events, user_id, input.metadata_id);
        if open_events.len() == 0 {
            Err(ServiceError::State(StateError::NoUnderwayEvent))
        } else if open_events.len() > 1 {
            Err(ServiceError::State(StateError::DataInconsistency))
        } else {
            match input.progress {
                None => Err(ServiceError::Validation(ValidationError::MissingProgress)),
                Some(progress) => if 0 <= progress <= FINISHED {
                    Ok(SeenWrite::Update(updated(open_events[0], progress, now)))
                } else {
                    Err(ServiceError::Validation(ValidationError::ProgressOutOfRange))
                },
            }
        }
    } else {
        match lot {
            None => Err(ServiceError::NotFound(NotFoundError::Media)),
            Some(lot) => match spec_extra_information(input, lot) {
                Err(error) => Err(error),
                Ok(extra_information) => if input.action == ProgressUpdateAction::InThePast
                    && input.date is None {
                    Err(ServiceError::Validation(ValidationError::MissingDate))
                } else {
                    Ok(SeenWrite::Insert(created(input, user_id, extra_information, now)))
                },
            },
        }
    }
}

/// What `delete_seen_item` answers: the number of the event to delete, or
/// why it may not be deleted.
pub open spec fn spec_delete_seen_item(seen_item: Option<Seen>, user_id: i32) -> Result<
    IdObject,
    ServiceError,
> {
    match seen_item {
        None => Err(ServiceError::NotFound(NotFoundError::Event)),
        Some(item) => if item.user_id != user_id {
            Err(ServiceError::Ownership)
        } else {
            Ok(IdObject { id: item.id })
        },
    }
}

/// The status of the media item that the catalogue lookup found, if it
/// found one, by the events of `user_id` for it.
pub open spec fn spec_media_consumed(user_id: i32, media: Option<i32>, events: Seq<Seen>)
    -> SeenStatus {
    match media {
        None => SeenStatus::NotInDatabase,
        Some(metadata_id) => spec_compute_status(true, history_of(events, user_id, metadata_id)),
    }
}

/// Filtering a history one event further.
proof fn lemma_filter_step(events: Seq<Seen>, pred: spec_fn(Seen) -> bool, i: int)
    requires
        0 <= i < events.len(),
    ensures
        events.take(i + 1).filter(pred) == if pred(events[i]) {
            events.take(i).filter(pred).push(events[i])
        } else {
            events.take(i).filter(pred)
        },
{
    reveal(Seq::filter);
    assert(events.take(i + 1).drop_last() =~= events.take(i));
}

/// The media service: the rules by which requests become reads and writes
/// of storage. It holds no state of its own.
#[derive(Clone, Copy, Debug)]
pub struct MediaService {}

impl MediaService {
    pub fn new() -> (service: Self) {
        MediaService {  }
    }

    /// Counts the events in progress of one user for one media item, and
    /// finds the first of them.
    fn find_underway(events: &Vec<Seen>, user_id: i32, metadata_id: i32) -> (found: (usize, usize))
        ensures
            found.0 == underway(events@, user_id, metadata_id).len(),
            found.0 > 0 ==> found.1 < events.len() && events@[found.1 as int] == underway(
                events@,
                user_id,
                metadata_id,
            )[0],
    {
        let ghost pred = |event: Seen| concerns(event, user_id, metadata_id) && event.is_underway();
        let mut count: usize = 0;
        let mut first: usize = 0;
        let mut i: usize = 0;
        proof {
            reveal(Seq::filter);
            assert(events@.take(0).filter(pred) =~= Seq::<Seen>::empty());
        }
        while i < events.len()
            invariant
                i <= events.len(),
                count <= i,
                pred == |event: Seen| concerns(event, user_id, metadata_id) && event.is_underway(),
                count == events@.take(i as int).filter(pred).len(),
                count > 0 ==> first < i && events@[first as int] == events@.take(i as int).filter(
                    pred,
                )[0],
            decreases events.len() - i,
        {
            proof {
                lemma_filter_step(events@, pred, i as int);
            }
            let event = &events[i];
            if event.user_id == user_id && event.metadata_id == metadata_id && event.progress
                < FINISHED {
                if count == 0 {
                    first = i;
                }
                count = count + 1;
            }
            i = i + 1;
        }
        proof {
            assert(events@.take(events.len() as int) =~= events@);
        }
        (count, first)
    }

    /// The association of the user with the media item that every progress
    /// update makes sure of. Storage refuses a second association of the
    /// same two; that refusal is no error.
    pub fn association(&self, input: &ProgressUpdate, user_id: i32) -> (link: UserToMetadata)
        ensures
            link == (UserToMetadata { user_id, metadata_id: input.metadata_id }),
    {
        UserToMetadata { user_id, metadata_id: input.metadata_id }
    }

    /// Decides what a progress update does to storage.
    ///
    /// `events` is what storage holds of consumption events (those of other
    /// users and media items are passed over), `lot` the lot of the media
    /// item if the catalogue knows it, `now` the reading of the clock.
    /// Whatever the answer, the caller makes sure beforehand that the user
    /// is associated with the media item.
    pub fn progress_update(
        &self,
        input: ProgressUpdate,
        user_id: i32,
        events: &Vec<Seen>,
        lot: Option<MediaLot>,
        now: UtcInstant,
    ) -> (write: Result<SeenWrite, ServiceError>)
        ensures
            write == spec_progress_update(input, user_id, events@, lot, now),
            input.action == ProgressUpdateAction::Update && underway(
                events@,
                user_id,
                input.metadata_id,
            ).len() == 0 ==> write == Err::<SeenWrite, ServiceError>(
                ServiceError::State(StateError::NoUnderwayEvent),
            ),
            input.action == ProgressUpdateAction::Update && underway(
                events@,
                user_id,
                input.metadata_id,
            ).len() >= 2 ==> write == Err::<SeenWrite, ServiceError>(
                ServiceError::State(StateError::DataInconsistency),
            ),
            input.action != ProgressUpdateAction::Update && lot == Some(MediaLot::Show) && (
            input.season_number is None || input.episode_number is None) ==> write == Err::<
                SeenWrite,
                ServiceError,
            >(ServiceError::Validation(ValidationError::MissingSeasonEpisode)),
    {
        match input.action {
            ProgressUpdateAction::Update => {
                let (count, first) = Self::find_underway(events, user_id, input.metadata_id);
                if count == 0 {
                    return Err(ServiceError::State(StateError::NoUnderwayEvent));
                }
                if count > 1 {
                    return Err(ServiceError::State(StateError::DataInconsistency));
                }
                let progress = match input.progress {
                    Some(progress) => progress,
                    None => {
                        return Err(ServiceError::Validation(ValidationError::MissingProgress));
                    },
                };
                if progress < 0 || progress > FINISHED {
                    return Err(ServiceError::Validation(ValidationError::ProgressOutOfRange));
                }
                let mut last_seen = events[first].clone();
                last_seen.progress = progress;
                last_seen.last_updated_on = now;
                if progress == FINISHED {
                    last_seen.finished_on = Some(now.date_naive());
                }
                Ok(SeenWrite::Update(last_seen))
            },
            ProgressUpdateAction::Now
            | ProgressUpdateAction::InThePast
            | ProgressUpdateAction::JustStarted => {
                let lot = match lot {
                    Some(lot) => lot,
                    None => {
                        return Err(ServiceError::NotFound(NotFoundError::Media));
                    },
                };
                let extra_information = if lot == MediaLot::Show {
                    match (input.season_number, input.episode_number) {
                        (Some(season), Some(episode)) => Some(
                            SeenExtraInformation::Show(
                                SeenSeasonExtraInformation { season, episode },
                            ),
                        ),
                        _ => {
                            return Err(
                                ServiceError::Validation(ValidationError::MissingSeasonEpisode),
                            );
                        },
                    }
                } else {
                    None
                };
                let today = now.date_naive();
                let finished_on = match input.action {
                    ProgressUpdateAction::Now => Some(today),
                    ProgressUpdateAction::InThePast => {
                        if input.date.is_none() {
                            return Err(ServiceError::Validation(ValidationError::MissingDate));
                        }
                        input.date
                    },
                    _ => None,
                };
                let (progress, started_on) = if input.action == ProgressUpdateAction::JustStarted {
                    (0, Some(today))
                } else {
                    (FINISHED, None)
                };
                let seen_ins = NewSeen {
                    progress,
                    started_on,
                    finished_on,
                    last_updated_on: now,
                    user_id,
                    metadata_id: input.metadata_id,
                    extra_information,
                };
                Ok(SeenWrite::Insert(seen_ins))
            },
        }
    }

    /// Answers whether `user_id` has consumed the media item that `input`
    /// names. `media` is the number under which the catalogue holds the
    /// item, if it does; `events` is what storage holds of consumption
    /// events, of which only those of this user for this item count.
    pub fn media_consumed(
        &self,
        user_id: i32,
        input: MediaConsumedInput,
        media: Option<i32>,
        events: &Vec<Seen>,
    ) -> (resp: MediaSeen)
        ensures
            resp.identifier == input.identifier,
            resp.seen == spec_media_consumed(user_id, media, events@),
    {
        let seen = match media {
            Some(metadata_id) => {
                let ghost pred = |event: Seen| concerns(event, user_id, metadata_id);
                let mut filtered: Vec<Seen> = Vec::new();
                let mut i: usize = 0;
                proof {
                    reveal(Seq::filter);
                    assert(events@.take(0).filter(pred) =~= Seq::<Seen>::empty());
                }
                while i < events.len()
                    invariant
                        i <= events.len(),
                        pred == |event: Seen| concerns(event, user_id, metadata_id),
                        filtered@ == events@.take(i as int).filter(pred),
                    decreases events.len() - i,
                {
                    proof {
                        lemma_filter_step(events@, pred, i as int);
                    }
                    let event = &events[i];
                    if event.user_id == user_id && event.metadata_id == metadata_id {
                        filtered.push(event.clone());
                    }
                    i = i + 1;
                }
                proof {
                    assert(events@.take(events.len() as int) =~= events@);
                }
                compute_status(true, &filtered)
            },
            None => SeenStatus::NotInDatabase,
        };
        MediaSeen { identifier: input.identifier, seen }
    }

    /// Decides whether `user_id` may delete the event that storage found
    /// under the number asked for.
    pub fn delete_seen_item(&self, seen_item: Option<&Seen>, user_id: i32) -> (deleted: Result<
        IdObject,
        ServiceError,
    >)
        ensures
            deleted == spec_delete_seen_item(
                match seen_item {
                    Some(item) => Some(*item),
                    None => None,
                },
                user_id,
            ),
    {
        match seen_item {
            Some(item) => {
                if item.user_id != user_id {
                    return Err(ServiceError::Ownership);
                }
                Ok(IdObject { id: item.id })
            },
            None => Err(ServiceError::NotFound(NotFoundError::Event)),
        }
    }
}

/// An update as a request: the progress asked for on the media item of an
/// event.
pub open spec fn update_request(event: Seen, progress: i32) -> ProgressUpdate {
    ProgressUpdate {
        metadata_id: event.metadata_id,
        progress: Some(progress),
        action: ProgressUpdateAction::Update,
        date: None,
        season_number: None,
        episode_number: None,
    }
}

/// One event after a run of updates by its user, each made of the progress
/// asked for and the reading of the clock. The history holds this event
/// alone; an update that is refused leaves it as it was.
pub open spec fn after_updates(event: Seen, requests: Seq<(i32, UtcInstant)>) -> Seen
    decreases requests.len(),
{
    if requests.len() == 0 {
        event
    } else {
        let before = after_updates(event, requests.drop_last());
        match spec_progress_update(
            update_request(before, requests.last().0),
            before.user_id,
            seq![before],
            None,
            requests.last().1,
        ) {
            Ok(SeenWrite::Update(after)) => after,
            _ => before,
        }
    }
}

/// A history of one event, filtered.
proof fn lemma_filter_one(event: Seen, pred: spec_fn(Seen) -> bool)
    ensures
        seq![event].filter(pred) == if pred(event) {
            seq![event]
        } else {
            Seq::<Seen>::empty()
        },
{
    reveal_with_fuel(Seq::filter, 2);
    assert(seq![event].drop_last() =~= Seq::<Seen>::empty());
    assert(Seq::<Seen>::empty().push(event) =~= seq![event]);
}

/// One update of a history that holds one event: an event in progress
/// takes the progress asked for, if that lies between 0 and 100; a finished
/// event is left alone.
pub proof fn lemma_one_update(event: Seen, progress: i32, now: UtcInstant)
    ensures
        after_updates(event, seq![(progress, now)]) == if event.is_underway() && 0 <= progress
            <= FINISHED {
            updated(event, progress, now)
        } else {
            event
        },
{
    let requests = seq![(progress, now)];
    assert(requests.drop_last() =~= Seq::<(i32, UtcInstant)>::empty());
    reveal_with_fuel(after_updates, 2);
    lemma_filter_one(
        event,
        |other: Seen| concerns(other, event.user_id, event.metadata_id) && other.is_underway(),
    );
}

/// Once an event has reached 100, no run of updates changes it: it can
/// only be deleted.
pub proof fn lemma_finished_event_is_final(event: Seen, requests: Seq<(i32, UtcInstant)>)
    requires
        !event.is_underway(),
    ensures
        after_updates(event, requests) == event,
    decreases requests.len(),
{
    if requests.len() > 0 {
        lemma_finished_event_is_final(event, requests.drop_last());
        lemma_filter_one(
            event,
            |other: Seen| concerns(other, event.user_id, event.metadata_id) && other.is_underway(),
        );
    }
}

/// Under a run of updates of which none asks for less than was reached
/// before it, the progress of an event never goes down; and from the update
/// that brings it to 100 on, the event stays as that update left it.
///
/// The first condition is needed: an update sets the progress it is given,
/// so one that asks for less than was reached takes the event back.
pub proof fn lemma_progress_never_goes_down(
    event: Seen,
    requests: Seq<(i32, UtcInstant)>,
    i: int,
    j: int,
)
    requires
        0 <= i <= j <= requests.len(),
        forall|k: int|
            0 <= k < requests.len() ==> after_updates(event, requests.take(k)).progress <= (
            #[trigger] requests[k]).0,
    ensures
        after_updates(event, requests.take(i)).progress <= after_updates(
            event,
            requests.take(j),
        ).progress,
        after_updates(event, requests.take(i)).progress == FINISHED ==> after_updates(
            event,
            requests.take(j),
        ) == after_updates(event, requests.take(i)),
    decreases j - i,
{
    if i < j {
        lemma_progress_never_goes_down(event, requests, i, j - 1);
        let before = after_updates(event, requests.take(j - 1));
        assert(requests.take(j).drop_last() =~= requests.take(j - 1));
        assert(requests.take(j).last() == requests[j - 1]);
        lemma_filter_one(
            before,
            |other: Seen| concerns(other, before.user_id, before.metadata_id) && other.is_underway(),
        );
    }
}

/// An update rewrites an event that is in progress, and no other: what has
/// reached 100 is never written again.
pub proof fn lemma_update_rewrites_an_underway_event(
    input: ProgressUpdate,
    user_id: i32,
    events: Seq<Seen>,
    lot: Option<MediaLot>,
    now: UtcInstant,
)
    ensures
        spec_progress_update(input, user_id, events, lot, now) matches Ok(SeenWrite::Update(after))
            ==> exists|k: int|
            0 <= k < events.len() && (#[trigger] events[k]).is_underway() && concerns(
                events[k],
                user_id,
                input.metadata_id,
            ) && input.progress is Some && after == updated(events[k], input.progress->0, now),
{
    if spec_progress_update(input, user_id, events, lot, now) matches Ok(SeenWrite::Update(after)) {
        let pred = |event: Seen|
            concerns(event, user_id, input.metadata_id) && event.is_underway();
        let open_events = events.filter(pred);
        events.lemma_filter_pred(pred, 0);
        assert(open_events.contains(open_events[0]));
        events.lemma_filter_contains_rev(pred, open_events[0]);
        let k = choose|k: int| 0 <= k < events.len() && events[k] == open_events[0];
        assert(pred(open_events[0]));
        assert(events[k].is_underway());
    }
}

/// What a progress update writes is a well-formed event, given that the
/// history is: progress between 0 and 100, and a finishing date exactly
/// when the progress is 100.
pub proof fn lemma_write_is_well_formed(
    input: ProgressUpdate,
    user_id: i32,
    events: Seq<Seen>,
    lot: Option<MediaLot>,
    now: UtcInstant,
)
    requires
        forall|k: int| 0 <= k < events.len() ==> (#[trigger] events[k]).well_formed(),
    ensures
        match spec_progress_update(input, user_id, events, lot, now) {
            Ok(SeenWrite::Update(after)) => after.well_formed(),
            Ok(SeenWrite::Insert(new)) => new.well_formed(),
            Err(_) => true,
        },
{
    lemma_update_rewrites_an_underway_event(input, user_id, events, lot, now);
}

/// The history after storage has carried out a write: an update takes the
/// place of the event with its number, a new event comes last under the
/// number `id`.
pub open spec fn stored(events: Seq<Seen>, write: SeenWrite, id: i32) -> Seq<Seen> {
    match write {
        SeenWrite::Update(after) => Seq::new(
            events.len(),
            |k: int|
                if events[k].id == after.id {
                    after
                } else {
                    events[k]
                },
        ),
        SeenWrite::Insert(new) => events.push(Seen::numbered(new, id)),
    }
}

/// No two events have the same number.
pub open spec fn ids_are_distinct(events: Seq<Seen>) -> bool {
    forall|i: int, j: int|
        0 <= i < j < events.len() ==> (#[trigger] events[i]).id != (#[trigger] events[j]).id
}

/// At most one event passes a filter exactly when no two events do.
proof fn lemma_at_most_one(events: Seq<Seen>, pred: spec_fn(Seen) -> bool)
    ensures
        events.filter(pred).len() <= 1 <==> forall|i: int, j: int|
            0 <= i < j < events.len() ==> !(pred(#[trigger] events[i]) && pred(
                #[trigger] events[j],
            )),
        events.filter(pred).len() == 0 <==> forall|i: int|
            0 <= i < events.len() ==> !pred(#[trigger] events[i]),
    decreases events.len(),
{
    reveal(Seq::filter);
    if events.len() > 0 {
        let shorter = events.drop_last();
        lemma_at_most_one(shorter, pred);
        assert forall|i: int| 0 <= i < shorter.len() implies shorter[i] == events[i] by {}
        if events.filter(pred).len() <= 1 {
            assert forall|i: int, j: int| 0 <= i < j < events.len() implies !(pred(
                #[trigger] events[i],
            ) && pred(#[trigger] events[j])) by {
                if pred(events[i]) && pred(events[j]) {
                    assert(shorter[i] == events[i]);
                    if j < shorter.len() {
                        assert(shorter[j] == events[j]);
                    }
                }
            }
        }
        if events.filter(pred).len() == 0 {
            assert forall|i: int| 0 <= i < events.len() implies !pred(#[trigger] events[i]) by {
                if i < shorter.len() {
                    assert(shorter[i] == events[i]);
                }
            }
        }
    }
}

/// A history with at most one event in progress for a user and a media
/// item has at most one after a progress update, as long as `JustStarted`
/// is asked for only where no event is in progress: an update rewrites the
/// one event in progress, and `Now` and `InThePast` add finished events.
pub proof fn lemma_one_underway_event_at_most(
    input: ProgressUpdate,
    user_id: i32,
    events: Seq<Seen>,
    lot: Option<MediaLot>,
    now: UtcInstant,
    id: i32,
)
    requires
        ids_are_distinct(events),
        underway(events, user_id, input.metadata_id).len() <= 1,
        spec_progress_update(input, user_id, events, lot, now) is Ok,
        input.action == ProgressUpdateAction::JustStarted ==> underway(
            events,
            user_id,
            input.metadata_id,
        ).len() == 0,
    ensures
        underway(
            stored(events, spec_progress_update(input, user_id, events, lot, now)->Ok_0, id),
            user_id,
            input.metadata_id,
        ).len() <= 1,
{
    let pred = |event: Seen| concerns(event, user_id, input.metadata_id) && event.is_underway();
    let write = spec_progress_update(input, user_id, events, lot, now)->Ok_0;
    let after = stored(events, write, id);
    lemma_at_most_one(events, pred);
    lemma_at_most_one(after, pred);
    match write {
        SeenWrite::Update(changed) => {
            lemma_update_rewrites_an_underway_event(input, user_id, events, lot, now);
            let k = choose|k: int|
                0 <= k < events.len() && (#[trigger] events[k]).is_underway() && concerns(
                    events[k],
                    user_id,
                    input.metadata_id,
                ) && input.progress is Some && changed == updated(events[k], input.progress->0, now);
            assert forall|i: int, j: int| 0 <= i < j < after.len() implies !(pred(
                #[trigger] after[i],
            ) && pred(#[trigger] after[j])) by {
                if pred(after[i]) && pred(after[j]) {
                    assert(pred(events[k]));
                    if i != k {
                        assert(events[i].id != events[k].id);
                        assert(after[i] == events[i]);
                    }
                    if j != k {
                        assert(events[j].id != events[k].id);
                        assert(after[j] == events[j]);
                    }
                }
            }
        },
        SeenWrite::Insert(new) => {
            assert forall|i: int, j: int| 0 <= i < j < after.len() implies !(pred(
                #[trigger] after[i],
            ) && pred(#[trigger] after[j])) by {
                if j < events.len() {
                    assert(after[i] == events[i] && after[j] == events[j]);
                } else {
                    assert(after[i] == events[i]);
                }
            }
        },
    }
}

} // verus!
