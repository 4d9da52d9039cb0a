//! What storing a new media item asks of storage: the record of the item,
//! the images that are not stored yet, and for each creator and genre
//! whether its record exists or has to be created before it is linked.

use super::resolver::MediaService;
use crate::enums::{MediaLot, MetadataImageLot};
use crate::text::{contains_text, contains_text_before};
use crate::time::CalendarDate;
use vstd::prelude::*;

verus! {

/// The record of a media item that storage has not numbered yet.
#[derive(Debug)]
pub struct NewMetadata {
    pub lot: MediaLot,
    pub title: String,
    pub description: Option<String>,
    pub publish_year: Option<i32>,
    pub publish_date: Option<CalendarDate>,
}

/// An image to store for the new media item.
#[derive(Debug)]
pub struct NewMetadataImage {
    pub url: String,
    pub lot: MetadataImageLot,
}

/// A creator or genre to link the new media item to. Where `create` holds,
/// no record of that name exists and one is created first.
#[derive(Debug)]
pub struct NamedRow {
    pub name: String,
    pub create: bool,
}

/// All that storing a new media item writes, in the order of the writes.
#[derive(Debug)]
pub struct MediaCommit {
    pub metadata: NewMetadata,
    pub images: Vec<NewMetadataImage>,
    pub creators: Vec<NamedRow>,
    pub genres: Vec<NamedRow>,
}

/// [`NewMetadata`] in contracts.
pub struct NewMetadataView {
    pub lot: MediaLot,
    pub title: Seq<char>,
    pub description: Option<Seq<char>>,
    pub publish_year: Option<i32>,
    pub publish_date: Option<CalendarDate>,
}

/// [`NewMetadataImage`] in contracts.
pub struct NewMetadataImageView {
    pub url: Seq<char>,
    pub lot: MetadataImageLot,
}

/// [`NamedRow`] in contracts.
pub struct NamedRowView {
    pub name: Seq<char>,
    pub create: bool,
}

/// [`MediaCommit`] in contracts.
pub struct MediaCommitView {
    pub metadata: NewMetadataView,
    pub images: Seq<NewMetadataImageView>,
    pub creators: Seq<NamedRowView>,
    pub genres: Seq<NamedRowView>,
}

impl DeepView for NewMetadata {
    type V = NewMetadataView;

    open spec fn deep_view(&self) -> NewMetadataView {
        NewMetadataView {
            lot: self.lot,
            title: self.title@,
            description: self.description.deep_view(),
            publish_year: self.publish_year,
            publish_date: self.publish_date,
        }
    }
}

impl DeepView for NewMetadataImage {
    type V = NewMetadataImageView;

    open spec fn deep_view(&self) -> NewMetadataImageView {
        NewMetadataImageView { url: self.url@, lot: self.lot }
    }
}

impl DeepView for NamedRow {
    type V = NamedRowView;

    open spec fn deep_view(&self) -> NamedRowView {
        NamedRowView { name: self.name@, create: self.create }
    }
}

impl DeepView for MediaCommit {
    type V = MediaCommitView;

    open spec fn deep_view(&self) -> MediaCommitView {
        MediaCommitView {
            metadata: self.metadata.deep_view(),
            images: self.images.deep_view(),
            creators: self.creators.deep_view(),
            genres: self.genres.deep_view(),
        }
    }
}

/// The images to store of the addresses `urls`: each address once, in the
/// order of the addresses, without those that storage knows and those that
/// were taken `earlier` in the same commit.
pub open spec fn new_images(
    urls: Seq<Seq<char>>,
    lot: MetadataImageLot,
    known: Seq<Seq<char>>,
    earlier: Seq<Seq<char>>,
) -> Seq<NewMetadataImageView>
    decreases urls.len(),
{
    if urls.len() == 0 {
        Seq::empty()
    } else if known.contains(urls.last()) || earlier.contains(urls.last())
        || urls.drop_last().contains(urls.last()) {
        new_images(urls.drop_last(), lot, known, earlier)
    } else {
        new_images(urls.drop_last(), lot, known, earlier).push(
            NewMetadataImageView { url: urls.last(), lot },
        )
    }
}

/// The links to the records named `names`, in their order: a record is
/// created at the first link to a name that storage does not know.
pub open spec fn named_rows(names: Seq<Seq<char>>, known: Seq<Seq<char>>) -> Seq<NamedRowView> {
    Seq::new(
        names.len(),
        |i: int|
            NamedRowView {
                name: names[i],
                create: !known.contains(names[i]) && !names.take(i).contains(names[i]),
            },
    )
}

impl MediaService {
    /// The images to store of one lot.
    fn images_to_store(
        images: &mut Vec<NewMetadataImage>,
        urls: &Vec<String>,
        lot: MetadataImageLot,
        known: &Vec<String>,
        earlier: &Vec<String>,
    )
        ensures
            final(images).deep_view() == old(images).deep_view() + new_images(
                urls.deep_view(),
                lot,
                known.deep_view(),
                earlier.deep_view(),
            ),
    {
        let ghost before = images.deep_view();
        let ghost all = urls.deep_view();
        let mut i: usize = 0;
        proof {
            assert(all.take(0) =~= Seq::empty());
            assert(before + Seq::empty() =~= before);
        }
        while i < urls.len()
            invariant
                i <= urls.len(),
                all == urls.deep_view(),
                images.deep_view() == before + new_images(
                    all.take(i as int),
                    lot,
                    known.deep_view(),
                    earlier.deep_view(),
                ),
            decreases urls.len() - i,
        {
            proof {
                assert(all.take(i + 1).drop_last() =~= all.take(i as int));
                assert(all.take(i + 1).last() == urls@[i as int]@);
            }
            let url = &urls[i];
            if !contains_text(known, url) && !contains_text(earlier, url) && !contains_text_before(
                urls,
                i,
                url,
            ) {
                let ghost stored = images.deep_view();
                let image = NewMetadataImage { url: url.clone(), lot };
                images.push(image);
                proof {
                    assert(images.deep_view() =~= stored.push(image.deep_view()));
                    assert(stored.push(image.deep_view()) =~= before + new_images(
                        all.take(i as int),
                        lot,
                        known.deep_view(),
                        earlier.deep_view(),
                    ).push(image.deep_view()));
                }
            }
            i = i + 1;
        }
        proof {
            assert(all.take(urls.len() as int) =~= all);
        }
    }

    /// The links to the records of the names.
    fn rows_to_link(names: &Vec<String>, known: &Vec<String>) -> (rows: Vec<NamedRow>)
        ensures
            rows.deep_view() == named_rows(names.deep_view(), known.deep_view()),
    {
        let mut rows: Vec<NamedRow> = Vec::new();
        let mut i: usize = 0;
        while i < names.len()
            invariant
                i <= names.len(),
                rows.deep_view() == named_rows(names.deep_view(), known.deep_view()).take(i as int),
            decreases names.len() - i,
        {
            let name = &names[i];
            let create = !contains_text(known, name) && !contains_text_before(names, i, name);
            let ghost linked = rows.deep_view();
            let row = NamedRow { name: name.clone(), create };
            rows.push(row);
            proof {
                assert(rows.deep_view() =~= linked.push(row.deep_view()));
                assert(linked.push(row.deep_view()) =~= named_rows(
                    names.deep_view(),
                    known.deep_view(),
                ).take(i + 1));
            }
            i = i + 1;
        }
        proof {
            let all = named_rows(names.deep_view(), known.deep_view());
            assert(all.take(names.len() as int) =~= all);
        }
        rows
    }

    /// What storing a new media item writes.
    pub open spec fn spec_commit_media(
        metadata: NewMetadataView,
        poster_images: Seq<Seq<char>>,
        backdrop_images: Seq<Seq<char>>,
        creator_names: Seq<Seq<char>>,
        genres: Seq<Seq<char>>,
        known_images: Seq<Seq<char>>,
        known_creators: Seq<Seq<char>>,
        known_genres: Seq<Seq<char>>,
    ) -> MediaCommitView {
        MediaCommitView {
            metadata,
            images: new_images(poster_images, MetadataImageLot::Poster, known_images, Seq::empty())
                + new_images(
                backdrop_images,
                MetadataImageLot::Backdrop,
                known_images,
                poster_images,
            ),
            creators: named_rows(creator_names, known_creators),
            genres: named_rows(genres, known_genres),
        }
    }

    /// Decides what storing a new media item writes: the record of the
    /// item; its posters and then its backdrops, each address that storage
    /// does not hold yet, once; and a link to each creator and each genre,
    /// whose record is created where storage holds none of that name.
    ///
    /// `known_images`, `known_creators` and `known_genres` are those of the
    /// addresses and names asked about that storage holds already.
    pub fn commit_media(
        &self,
        lot: MediaLot,
        title: String,
        description: Option<String>,
        publish_year: Option<i32>,
        publish_date: Option<CalendarDate>,
        poster_images: Vec<String>,
        backdrop_images: Vec<String>,
        creator_names: Vec<String>,
        genres: Vec<String>,
        known_images: &Vec<String>,
        known_creators: &Vec<String>,
        known_genres: &Vec<String>,
    ) -> (commit: MediaCommit)
        ensures
            commit.deep_view() == Self::spec_commit_media(
                NewMetadataView {
                    lot,
                    title: title@,
                    description: description.deep_view(),
                    publish_year,
                    publish_date,
                },
                poster_images.deep_view(),
                backdrop_images.deep_view(),
                creator_names.deep_view(),
                genres.deep_view(),
                known_images.deep_view(),
                known_creators.deep_view(),
                known_genres.deep_view(),
            ),
    {
        let metadata = NewMetadata { lot, title, description, publish_year, publish_date };
        let mut images: Vec<NewMetadataImage> = Vec::new();
        let nothing: Vec<String> = Vec::new();
        proof {
            assert(images.deep_view() =~= Seq::empty());
            assert(nothing.deep_view() =~= Seq::empty());
        }
        Self::images_to_store(
            &mut images,
            &poster_images,
            MetadataImageLot::Poster,
            known_images,
            &nothing,
        );
        proof {
            let posters = new_images(
                poster_images.deep_view(),
                MetadataImageLot::Poster,
                known_images.deep_view(),
                Seq::empty(),
            );
            assert(Seq::<NewMetadataImageView>::empty() + posters =~= posters);
        }
        Self::images_to_store(
            &mut images,
            &backdrop_images,
            MetadataImageLot::Backdrop,
            known_images,
            &poster_images,
        );
        let creators = Self::rows_to_link(&creator_names, known_creators);
        let genres = Self::rows_to_link(&genres, known_genres);
        MediaCommit { metadata, images, creators, genres }
    }
}

} // verus!
