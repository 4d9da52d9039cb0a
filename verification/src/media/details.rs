//! What the catalogue shows of a media item: its details, its images, and
//! the listing of the items of a lot.

use super::resolver::{
    MediaDetails, MediaListInput, MediaSearchItem, MediaSearchResults, MediaService,
    NotFoundError, ServiceError,
};
use crate::entities::{
    AudioBook, AudioBookSpecifics, Book, BookSpecifics, Creator, Genre, MetadataImage,
    MetadataModel, Movie, MovieSpecifics, Seen, SeenExtraInformation, Show,
};
use crate::enums::{MediaLot, MetadataImageLot};
use crate::text::{decimal, int_to_string};
use vstd::prelude::*;

verus! {

/// What the catalogue holds of a media item beyond what it holds of every
/// item, by the lot of the item.
#[derive(Debug)]
pub enum LotSpecifics {
    AudioBook(AudioBook),
    Book(Book),
    Movie(Movie),
    Show(Show),
}

/// What `generic_metadata` gathers: the media item, the names of its
/// creators, the addresses of its posters and of its backdrops, and the
/// names of its genres.
#[derive(Debug)]
pub struct GenericMetadata {
    pub meta: MetadataModel,
    pub creators: Vec<String>,
    pub poster_images: Vec<String>,
    pub backdrop_images: Vec<String>,
    pub genres: Vec<String>,
}

/// The addresses of the images of one lot, in the order of the images.
pub open spec fn urls_of(images: Seq<MetadataImage>, lot: MetadataImageLot) -> Seq<String>
    decreases images.len(),
{
    if images.len() == 0 {
        Seq::empty()
    } else if images.last().lot == lot {
        urls_of(images.drop_last(), lot).push(images.last().url)
    } else {
        urls_of(images.drop_last(), lot)
    }
}

/// The names of the genres, in their order.
pub open spec fn genre_names(genres: Seq<Genre>) -> Seq<String> {
    Seq::new(genres.len(), |i: int| genres[i].name)
}

/// The names of the creators, in their order.
pub open spec fn creator_names(creators: Seq<Creator>) -> Seq<String> {
    Seq::new(creators.len(), |i: int| creators[i].name)
}

/// Whether the lot of a media item asks for a record beyond its own.
pub open spec fn has_specifics(lot: MediaLot) -> bool {
    lot == MediaLot::AudioBook || lot == MediaLot::Book || lot == MediaLot::Movie || lot
        == MediaLot::Show
}

/// Whether the record is the one that the lot asks for.
pub open spec fn fits(lot: MediaLot, additional: Option<LotSpecifics>) -> bool {
    match additional {
        Some(LotSpecifics::AudioBook(_)) => lot == MediaLot::AudioBook,
        Some(LotSpecifics::Book(_)) => lot == MediaLot::Book,
        Some(LotSpecifics::Movie(_)) => lot == MediaLot::Movie,
        Some(LotSpecifics::Show(_)) => lot == MediaLot::Show,
        None => !has_specifics(lot),
    }
}

/// A consumption event as the history shows it: where the event is about
/// an episode of a show, the episode is shown beside it.
pub open spec fn shown(event: Seen) -> Seen {
    match event.extra_information {
        Some(SeenExtraInformation::Show(episode)) => Seen {
            show_information: Some(episode),
            ..event
        },
        None => event,
    }
}

/// A media item as a listing shows it: under its number, with its images,
/// and without what only the details show.
pub open spec fn is_listed_as(item: MediaSearchItem, meta: MetadataModel, images: Seq<MetadataImage>)
    -> bool {
    &&& item.identifier@ == decimal(meta.id as int)
    &&& item.title == meta.title
    &&& item.description == meta.description
    &&& item.author_names@.len() == 0
    &&& item.genres@.len() == 0
    &&& item.poster_images@ == urls_of(images, MetadataImageLot::Poster)
    &&& item.backdrop_images@ == urls_of(images, MetadataImageLot::Backdrop)
    &&& item.publish_year == meta.publish_year
    &&& item.publish_date == meta.publish_date
    &&& item.book_specifics is None
    &&& item.movie_specifics is None
    &&& item.show_specifics is None
    &&& item.video_game_specifics is None
    &&& item.audio_books_specifics is None
}

impl MediaService {
    /// The addresses of the images of one lot.
    fn image_urls(images: &Vec<MetadataImage>, lot: MetadataImageLot) -> (urls: Vec<String>)
        ensures
            urls@ == urls_of(images@, lot),
    {
        let mut urls: Vec<String> = Vec::new();
        let mut i: usize = 0;
        while i < images.len()
            invariant
                i <= images.len(),
                urls@ == urls_of(images@.take(i as int), lot),
            decreases images.len() - i,
        {
            proof {
                assert(images@.take(i + 1).drop_last() =~= images@.take(i as int));
            }
            if images[i].lot == lot {
                urls.push(images[i].url.clone());
            }
            i = i + 1;
        }
        proof {
            assert(images@.take(images.len() as int) =~= images@);
        }
        urls
    }

    /// Sorts the images of a media item into posters and backdrops, each by
    /// its address and in the order in which storage returned them.
    pub fn metadata_images(&self, images: &Vec<MetadataImage>) -> (sorted: (Vec<String>, Vec<String>))
        ensures
            sorted.0@ == urls_of(images@, MetadataImageLot::Poster),
            sorted.1@ == urls_of(images@, MetadataImageLot::Backdrop),
    {
        let poster_images = Self::image_urls(images, MetadataImageLot::Poster);
        let backdrop_images = Self::image_urls(images, MetadataImageLot::Backdrop);
        (poster_images, backdrop_images)
    }

    /// Gathers what every lot has of a media item. `meta` is what the
    /// catalogue holds under the number asked for; where it holds nothing,
    /// the record does not exist.
    pub fn generic_metadata(
        &self,
        meta: Option<MetadataModel>,
        genres: &Vec<Genre>,
        creators: &Vec<Creator>,
        images: &Vec<MetadataImage>,
    ) -> (gathered: Result<GenericMetadata, ServiceError>)
        ensures
            meta is None <==> gathered is Err,
            gathered matches Err(error) ==> error == ServiceError::NotFound(NotFoundError::Media),
            gathered matches Ok(generic) ==> {
                &&& Some(generic.meta) == meta
                &&& generic.creators@ == creator_names(creators@)
                &&& generic.genres@ == genre_names(genres@)
                &&& generic.poster_images@ == urls_of(images@, MetadataImageLot::Poster)
                &&& generic.backdrop_images@ == urls_of(images@, MetadataImageLot::Backdrop)
            },
    {
        let meta = match meta {
            Some(meta) => meta,
            None => {
                return Err(ServiceError::NotFound(NotFoundError::Media));
            },
        };
        let mut genre_list: Vec<String> = Vec::new();
        let mut i: usize = 0;
        while i < genres.len()
            invariant
                i <= genres.len(),
                genre_list@ == genre_names(genres@).take(i as int),
            decreases genres.len() - i,
        {
            genre_list.push(genres[i].name.clone());
            assert(genre_list@ =~= genre_names(genres@).take(i + 1));
            i = i + 1;
        }
        assert(genre_list@ =~= genre_names(genres@));
        let mut creator_list: Vec<String> = Vec::new();
        let mut j: usize = 0;
        while j < creators.len()
            invariant
                j <= creators.len(),
                creator_list@ == creator_names(creators@).take(j as int),
            decreases creators.len() - j,
        {
            creator_list.push(creators[j].name.clone());
            assert(creator_list@ =~= creator_names(creators@).take(j + 1));
            j = j + 1;
        }
        assert(creator_list@ =~= creator_names(creators@));
        let (poster_images, backdrop_images) = self.metadata_images(images);
        Ok(
            GenericMetadata {
                meta,
                creators: creator_list,
                poster_images,
                backdrop_images,
                genres: genre_list,
            },
        )
    }

    /// Puts the details of a media item together from what every lot has
    /// and from the record that its lot asks for. A record that is missing,
    /// or that is of another lot, is refused as unknown.
    pub fn media_details(&self, generic: GenericMetadata, additional: Option<LotSpecifics>) -> (resp:
        Result<MediaDetails, ServiceError>)
        ensures
            resp is Ok <==> fits(generic.meta.lot, additional),
            resp matches Err(error) ==> error == ServiceError::NotFound(NotFoundError::Media),
            resp matches Ok(details) ==> {
                &&& details.id == generic.meta.id
                &&& details.title == generic.meta.title
                &&& details.description == generic.meta.description
                &&& details.publish_year == generic.meta.publish_year
                &&& details.publish_date == generic.meta.publish_date
                &&& details.lot == generic.meta.lot
                &&& details.creators == generic.creators
                &&& details.genres == generic.genres
                &&& details.poster_images == generic.poster_images
                &&& details.backdrop_images == generic.backdrop_images
                &&& details.book_specifics == match additional {
                    Some(LotSpecifics::Book(book)) => Some(BookSpecifics { pages: book.num_pages }),
                    _ => None,
                }
                &&& details.movie_specifics == match additional {
                    Some(LotSpecifics::Movie(movie)) => Some(
                        MovieSpecifics { runtime: movie.runtime },
                    ),
                    _ => None,
                }
                &&& details.show_specifics == match additional {
                    Some(LotSpecifics::Show(show)) => Some(show.details),
                    _ => None,
                }
                &&& details.video_game_specifics is None
                &&& details.audio_books_specifics == match additional {
                    Some(LotSpecifics::AudioBook(audio_book)) => Some(
                        AudioBookSpecifics { runtime: audio_book.runtime },
                    ),
                    _ => None,
                }
            },
    {
        let meta = generic.meta;
        let lot = meta.lot;
        let mut resp = MediaDetails {
            id: meta.id,
            title: meta.title,
            description: meta.description,
            publish_year: meta.publish_year,
            publish_date: meta.publish_date,
            lot,
            creators: generic.creators,
            genres: generic.genres,
            poster_images: generic.poster_images,
            backdrop_images: generic.backdrop_images,
            book_specifics: None,
            movie_specifics: None,
            show_specifics: None,
            video_game_specifics: None,
            audio_books_specifics: None,
        };
        match additional {
            Some(LotSpecifics::Book(additional)) => {
                if lot != MediaLot::Book {
                    return Err(ServiceError::NotFound(NotFoundError::Media));
                }
                resp.book_specifics = Some(BookSpecifics { pages: additional.num_pages });
            },
            Some(LotSpecifics::Movie(additional)) => {
                if lot != MediaLot::Movie {
                    return Err(ServiceError::NotFound(NotFoundError::Media));
                }
                resp.movie_specifics = Some(MovieSpecifics { runtime: additional.runtime });
            },
            Some(LotSpecifics::Show(additional)) => {
                if lot != MediaLot::Show {
                    return Err(ServiceError::NotFound(NotFoundError::Media));
                }
                resp.show_specifics = Some(additional.details);
            },
            Some(LotSpecifics::AudioBook(additional)) => {
                if lot != MediaLot::AudioBook {
                    return Err(ServiceError::NotFound(NotFoundError::Media));
                }
                resp.audio_books_specifics = Some(
                    AudioBookSpecifics { runtime: additional.runtime },
                );
            },
            None => {
                // No additional metadata is stored for the other lots.
                if lot == MediaLot::AudioBook || lot == MediaLot::Book || lot == MediaLot::Movie
                    || lot == MediaLot::Show {
                    return Err(ServiceError::NotFound(NotFoundError::Media));
                }
            },
        }
        Ok(resp)
    }

    /// Prepares the history of a user for one media item for showing: each
    /// event about an episode of a show gets the episode beside it.
    pub fn seen_history(&self, prev_seen: Vec<Seen>) -> (history: Vec<Seen>)
        ensures
            history@.len() == prev_seen@.len(),
            forall|i: int| 0 <= i < prev_seen@.len() ==> #[trigger] history@[i] == shown(prev_seen@[i]),
    {
        let mut history = prev_seen;
        let mut i: usize = 0;
        while i < history.len()
            invariant
                i <= history.len(),
                history@.len() == prev_seen@.len(),
                forall|j: int| 0 <= j < i ==> #[trigger] history@[j] == shown(prev_seen@[j]),
                forall|j: int| i <= j < history@.len() ==> #[trigger] history@[j] == prev_seen@[j],
            decreases history.len() - i,
        {
            match history[i].extra_information {
                Some(SeenExtraInformation::Show(sea)) => {
                    history[i].show_information = Some(sea);
                },
                None => {},
            }
            i = i + 1;
        }
        history
    }

    /// The index of the page of a listing, pages being asked for from 1
    /// and stored from 0. A page below 1 has the index that the cast of a
    /// negative number to an unsigned one gives: beyond every page stored.
    pub fn page_index(input: &MediaListInput) -> (index: u64)
        requires
            input.page > i32::MIN,
        ensures
            index == (input.page - 1) as u64,
            input.page >= 1 ==> index == input.page - 1,
    {
        #[verifier::truncate]
        ((input.page - 1) as u64)
    }

    /// Puts one page of a listing together from the media items of the page,
    /// each with its images, and from the number of items that the listing
    /// has in all, cut to the width of `total`.
    pub fn media_list(&self, counts: u64, metas: &Vec<(MetadataModel, Vec<MetadataImage>)>) -> (resp:
        MediaSearchResults)
        ensures
            resp.total == counts as i32,
            counts <= i32::MAX ==> resp.total == counts,
            resp.items@.len() == metas@.len(),
            forall|i: int|
                0 <= i < metas@.len() ==> is_listed_as(
                    #[trigger] resp.items@[i],
                    metas@[i].0,
                    metas@[i].1@,
                ),
    {
        let mut items: Vec<MediaSearchItem> = Vec::new();
        let mut i: usize = 0;
        while i < metas.len()
            invariant
                i <= metas.len(),
                items@.len() == i,
                forall|j: int|
                    0 <= j < i ==> is_listed_as(#[trigger] items@[j], metas@[j].0, metas@[j].1@),
            decreases metas.len() - i,
        {
            let m = &metas[i].0;
            let (poster_images, backdrop_images) = self.metadata_images(&metas[i].1);
            let item = MediaSearchItem {
                identifier: int_to_string(m.id as i64),
                title: m.title.clone(),
                description: match &m.description {
                    Some(text) => Some(text.clone()),
                    None => None,
                },
                poster_images,
                backdrop_images,
                publish_year: m.publish_year,
                publish_date: m.publish_date,
                book_specifics: None,
                movie_specifics: None,
                show_specifics: None,
                video_game_specifics: None,
                audio_books_specifics: None,
                genres: Vec::new(),
                author_names: Vec::new(),
            };
            items.push(item);
            i = i + 1;
        }
        MediaSearchResults { total: #[verifier::truncate] (counts as i32), items }
    }
}

} // verus!
