//! The records that storage holds, as plain values.

use crate::enums::{MediaLot, MetadataImageLot};
use crate::time::{CalendarDate, UtcInstant};
use vstd::prelude::*;

verus! {

/// Progress that counts as finished.
pub const FINISHED: i32 = 100;

/// The place in a show that a consumption event is about.
#[derive(Clone, Copy, Debug, PartialEq, Eq, Structural)]
pub struct SeenSeasonExtraInformation {
    pub season: i32,
    pub episode: i32,
}

/// What a consumption event says beyond progress and dates; which variant
/// applies goes by the lot of the media item.
#[derive(Clone, Copy, Debug, PartialEq, Eq, Structural)]
pub enum SeenExtraInformation {
    Show(SeenSeasonExtraInformation),
}

/// A consumption event: one pass of one user through one media item.
#[derive(Debug)]
pub struct Seen {
    pub id: i32,
    pub progress: i32,
    pub started_on: Option<CalendarDate>,
    pub finished_on: Option<CalendarDate>,
    pub last_updated_on: UtcInstant,
    pub user_id: i32,
    pub metadata_id: i32,
    pub extra_information: Option<SeenExtraInformation>,
    pub show_information: Option<SeenSeasonExtraInformation>,
    pub provider_watched_on: Option<String>,
}

/// That a user has a media item among theirs.
#[derive(Clone, Copy, Debug, PartialEq, Eq, Structural)]
pub struct UserToMetadata {
    pub user_id: i32,
    pub metadata_id: i32,
}

/// A consumption event that storage has not numbered yet.
#[derive(Clone, Copy, Debug, PartialEq, Eq, Structural)]
pub struct NewSeen {
    pub progress: i32,
    pub started_on: Option<CalendarDate>,
    pub finished_on: Option<CalendarDate>,
    pub last_updated_on: UtcInstant,
    pub user_id: i32,
    pub metadata_id: i32,
    pub extra_information: Option<SeenExtraInformation>,
}

impl Seen {
    /// An event is in progress while its progress is below 100.
    pub open spec fn is_underway(self) -> bool {
        self.progress < FINISHED
    }

    /// Progress lies between 0 and 100, and the event has a finishing date
    /// exactly when it is finished.
    pub open spec fn well_formed(self) -> bool {
        &&& 0 <= self.progress <= FINISHED
        &&& self.finished_on is Some <==> self.progress == FINISHED
    }

    /// The event as storage holds it once it has the number `id`.
    pub open spec fn numbered(new: NewSeen, id: i32) -> Seen {
        Seen {
            id,
            progress: new.progress,
            started_on: new.started_on,
            finished_on: new.finished_on,
            last_updated_on: new.last_updated_on,
            user_id: new.user_id,
            metadata_id: new.metadata_id,
            extra_information: new.extra_information,
            show_information: None,
            provider_watched_on: None,
        }
    }
}

impl Clone for Seen {
    fn clone(&self) -> (copy: Self)
        ensures
            copy == *self,
    {
        Seen {
            id: self.id,
            progress: self.progress,
            started_on: self.started_on,
            finished_on: self.finished_on,
            last_updated_on: self.last_updated_on,
            user_id: self.user_id,
            metadata_id: self.metadata_id,
            extra_information: self.extra_information,
            show_information: self.show_information,
            provider_watched_on: match &self.provider_watched_on {
                Some(tag) => Some(tag.clone()),
                None => None,
            },
        }
    }
}

impl NewSeen {
    /// Progress lies between 0 and 100, and the event has a finishing date
    /// exactly when it is finished.
    pub open spec fn well_formed(self) -> bool {
        &&& 0 <= self.progress <= FINISHED
        &&& self.finished_on is Some <==> self.progress == FINISHED
    }
}

/// A media item of the catalogue.
#[derive(Debug)]
pub struct MetadataModel {
    pub id: i32,
    pub lot: MediaLot,
    pub title: String,
    pub description: Option<String>,
    pub publish_year: Option<i32>,
    pub publish_date: Option<CalendarDate>,
}

/// An image of a media item.
#[derive(Debug)]
pub struct MetadataImage {
    pub id: i32,
    pub url: String,
    pub lot: MetadataImageLot,
    pub metadata_id: i32,
}

/// A genre.
#[derive(Debug)]
pub struct Genre {
    pub id: i32,
    pub name: String,
}

/// Someone who made media items.
#[derive(Debug)]
pub struct Creator {
    pub id: i32,
    pub name: String,
}

/// What the catalogue holds of a book beyond what it holds of every item.
#[derive(Debug)]
pub struct Book {
    pub metadata_id: i32,
    pub identifier: String,
    pub num_pages: Option<i32>,
}

/// What the catalogue holds of a movie beyond what it holds of every item.
#[derive(Debug)]
pub struct Movie {
    pub metadata_id: i32,
    pub identifier: String,
    pub runtime: Option<i32>,
}

/// What the catalogue holds of a show beyond what it holds of every item.
#[derive(Debug)]
pub struct Show {
    pub metadata_id: i32,
    pub identifier: String,
    pub details: ShowSpecifics,
}

/// What the catalogue holds of an audio book beyond what it holds of every
/// item.
#[derive(Debug)]
pub struct AudioBook {
    pub metadata_id: i32,
    pub identifier: String,
    pub runtime: Option<i32>,
}

/// What is particular to a book.
#[derive(Clone, Copy, Debug, PartialEq, Eq, Structural)]
pub struct BookSpecifics {
    pub pages: Option<i32>,
}

/// What is particular to a movie.
#[derive(Clone, Copy, Debug, PartialEq, Eq, Structural)]
pub struct MovieSpecifics {
    pub runtime: Option<i32>,
}

/// What is particular to an audio book.
#[derive(Clone, Copy, Debug, PartialEq, Eq, Structural)]
pub struct AudioBookSpecifics {
    pub runtime: Option<i32>,
}

/// What is particular to a video game: so far, nothing is stored.
#[derive(Clone, Copy, Debug, PartialEq, Eq, Structural)]
pub struct VideoGameSpecifics {}

/// An episode of a season of a show.
#[derive(Debug)]
pub struct ShowEpisode {
    pub id: i32,
    pub episode_number: i32,
    pub name: String,
}

/// A season of a show.
#[derive(Debug)]
pub struct ShowSeason {
    pub id: i32,
    pub season_number: i32,
    pub name: String,
    pub episodes: Vec<ShowEpisode>,
}

/// What is particular to a show.
#[derive(Debug)]
pub struct ShowSpecifics {
    pub seasons: Vec<ShowSeason>,
}

} // verus!
