//! The closed vocabularies of the tracker.

use vstd::prelude::*;

verus! {

/// The category of a trackable media item.
#[derive(Clone, Copy, Debug, PartialEq, Eq, Hash, Structural)]
pub enum MediaLot {
    AudioBook,
    Book,
    Movie,
    Podcast,
    Show,
    VideoGame,
}

/// The catalogue from which the details of a media item come.
#[derive(Clone, Copy, Debug, PartialEq, Eq, Hash, Structural)]
pub enum MediaSource {
    Audible,
    Custom,
    Igdb,
    Listennotes,
    Openlibrary,
    Tmdb,
}

/// The tracker from whose export an import was made.
#[derive(Clone, Copy, Debug, PartialEq, Eq, Hash, Structural)]
pub enum ImportSource {
    Goodreads,
    MediaTracker,
    Movary,
    Trakt,
}

/// What an image of a media item shows.
#[derive(Clone, Copy, Debug, PartialEq, Eq, Hash, Structural)]
pub enum MetadataImageLot {
    Backdrop,
    Poster,
}

/// Who may read a review.
#[derive(Clone, Copy, Debug, PartialEq, Eq, Hash, Structural)]
pub enum Visibility {
    Public,
    Private,
}

/// The collections that every user has.
#[derive(Clone, Copy, Debug, PartialEq, Eq, Hash, Structural)]
pub enum DefaultCollection {
    Watchlist,
    InProgress,
    Custom,
}

impl ImportSource {
    /// The name under which events from this source are tagged.
    pub open spec fn name(self) -> Seq<char> {
        match self {
            ImportSource::Goodreads => "Goodreads"@,
            ImportSource::MediaTracker => "MediaTracker"@,
            ImportSource::Movary => "Movary"@,
            ImportSource::Trakt => "Trakt"@,
        }
    }

    /// The name under which events from this source are tagged.
    pub fn to_string(&self) -> (name: String)
        ensures
            name@ == self.name(),
    {
        match self {
            ImportSource::Goodreads => "Goodreads".to_owned(),
            ImportSource::MediaTracker => "MediaTracker".to_owned(),
            ImportSource::Movary => "Movary".to_owned(),
            ImportSource::Trakt => "Trakt".to_owned(),
        }
    }
}

impl DefaultCollection {
    /// The name of the collection.
    pub open spec fn name(self) -> Seq<char> {
        match self {
            DefaultCollection::Watchlist => "Watchlist"@,
            DefaultCollection::InProgress => "In Progress"@,
            DefaultCollection::Custom => "Custom"@,
        }
    }

    /// The name of the collection.
    pub fn to_string(&self) -> (name: String)
        ensures
            name@ == self.name(),
    {
        match self {
            DefaultCollection::Watchlist => "Watchlist".to_owned(),
            DefaultCollection::InProgress => "In Progress".to_owned(),
            DefaultCollection::Custom => "Custom".to_owned(),
        }
    }
}

} // verus!
