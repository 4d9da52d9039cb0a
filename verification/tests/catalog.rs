use media_tracker::entities::{
    AudioBook, AudioBookSpecifics, Book, BookSpecifics, Creator, Genre, MetadataImage,
    MetadataModel, Movie, MovieSpecifics, Seen, SeenExtraInformation, SeenSeasonExtraInformation,
    Show, ShowEpisode, ShowSeason, ShowSpecifics,
};
use media_tracker::enums::{MediaLot, MetadataImageLot};
use media_tracker::media::details::{GenericMetadata, LotSpecifics};
use media_tracker::media::resolver::{
    MediaListInput, MediaService, NotFoundError, ServiceError,
};
use media_tracker::media::LIMIT;
use media_tracker::router::{integration_webhook, upload_name};
use media_tracker::time::UtcInstant;

fn image(id: i32, url: &str, lot: MetadataImageLot) -> MetadataImage {
    MetadataImage { id, url: url.to_string(), lot, metadata_id: 1 }
}

fn meta(id: i32, lot: MediaLot) -> MetadataModel {
    MetadataModel {
        id,
        lot,
        title: format!("Title {}", id),
        description: Some("Described".to_string()),
        publish_year: Some(1999),
        publish_date: None,
    }
}

fn generic(lot: MediaLot) -> GenericMetadata {
    GenericMetadata {
        meta: meta(7, lot),
        creators: vec!["Someone".to_string()],
        poster_images: vec!["p".to_string()],
        backdrop_images: vec!["b".to_string()],
        genres: vec!["Drama".to_string()],
    }
}

fn show() -> Show {
    Show {
        metadata_id: 7,
        identifier: "tv".to_string(),
        details: ShowSpecifics {
            seasons: vec![ShowSeason {
                id: 1,
                season_number: 1,
                name: "Season 1".to_string(),
                episodes: vec![ShowEpisode { id: 11, episode_number: 1, name: "Pilot".to_string() }],
            }],
        },
    }
}

#[test]
fn images_are_sorted_into_posters_and_backdrops() {
    let images = vec![
        image(1, "poster-1", MetadataImageLot::Poster),
        image(2, "backdrop-1", MetadataImageLot::Backdrop),
        image(3, "poster-2", MetadataImageLot::Poster),
    ];
    let (posters, backdrops) = MediaService::new().metadata_images(&images);
    assert_eq!(posters, vec!["poster-1".to_string(), "poster-2".to_string()]);
    assert_eq!(backdrops, vec!["backdrop-1".to_string()]);
    let (posters, backdrops) = MediaService::new().metadata_images(&vec![]);
    assert!(posters.is_empty());
    assert!(backdrops.is_empty());
}

#[test]
fn generic_metadata_names_creators_and_genres() {
    let service = MediaService::new();
    let genres = vec![
        Genre { id: 1, name: "Drama".to_string() },
        Genre { id: 2, name: "Crime".to_string() },
    ];
    let creators = vec![Creator { id: 1, name: "Someone".to_string() }];
    let images = vec![image(1, "poster-1", MetadataImageLot::Poster)];
    let gathered = service
        .generic_metadata(Some(meta(7, MediaLot::Movie)), &genres, &creators, &images)
        .unwrap();
    assert_eq!(gathered.meta.id, 7);
    assert_eq!(gathered.meta.title, "Title 7");
    assert_eq!(gathered.genres, vec!["Drama".to_string(), "Crime".to_string()]);
    assert_eq!(gathered.creators, vec!["Someone".to_string()]);
    assert_eq!(gathered.poster_images, vec!["poster-1".to_string()]);
    assert!(gathered.backdrop_images.is_empty());
    let missing = service.generic_metadata(None, &genres, &creators, &images);
    assert_eq!(missing.err(), Some(ServiceError::NotFound(NotFoundError::Media)));
}

#[test]
fn details_carry_what_the_lot_asks_for() {
    let service = MediaService::new();
    let book = Book { metadata_id: 7, identifier: "ol".to_string(), num_pages: Some(321) };
    let details = service
        .media_details(generic(MediaLot::Book), Some(LotSpecifics::Book(book)))
        .unwrap();
    assert_eq!(details.id, 7);
    assert_eq!(details.title, "Title 7");
    assert_eq!(details.description.as_deref(), Some("Described"));
    assert_eq!(details.lot, MediaLot::Book);
    assert_eq!(details.creators, vec!["Someone".to_string()]);
    assert_eq!(details.genres, vec!["Drama".to_string()]);
    assert_eq!(details.poster_images, vec!["p".to_string()]);
    assert_eq!(details.backdrop_images, vec!["b".to_string()]);
    assert_eq!(details.publish_year, Some(1999));
    assert_eq!(details.book_specifics, Some(BookSpecifics { pages: Some(321) }));
    assert_eq!(details.movie_specifics, None);
    assert!(details.show_specifics.is_none());
    assert_eq!(details.video_game_specifics, None);
    assert_eq!(details.audio_books_specifics, None);

    let movie = Movie { metadata_id: 7, identifier: "tm".to_string(), runtime: Some(95) };
    let details = service
        .media_details(generic(MediaLot::Movie), Some(LotSpecifics::Movie(movie)))
        .unwrap();
    assert_eq!(details.movie_specifics, Some(MovieSpecifics { runtime: Some(95) }));

    let audio = AudioBook { metadata_id: 7, identifier: "au".to_string(), runtime: None };
    let details = service
        .media_details(generic(MediaLot::AudioBook), Some(LotSpecifics::AudioBook(audio)))
        .unwrap();
    assert_eq!(details.audio_books_specifics, Some(AudioBookSpecifics { runtime: None }));

    let details = service
        .media_details(generic(MediaLot::Show), Some(LotSpecifics::Show(show())))
        .unwrap();
    let seasons = details.show_specifics.unwrap().seasons;
    assert_eq!(seasons.len(), 1);
    assert_eq!(seasons[0].episodes[0].name, "Pilot");

    let details = service.media_details(generic(MediaLot::VideoGame), None).unwrap();
    assert_eq!(details.video_game_specifics, None);
    assert_eq!(details.book_specifics, None);
}

#[test]
fn details_without_the_record_of_the_lot_are_not_found() {
    let service = MediaService::new();
    let not_found = Some(ServiceError::NotFound(NotFoundError::Media));
    assert_eq!(service.media_details(generic(MediaLot::Book), None).err(), not_found);
    assert_eq!(service.media_details(generic(MediaLot::Show), None).err(), not_found);
    let movie = Movie { metadata_id: 7, identifier: "tm".to_string(), runtime: Some(95) };
    assert_eq!(
        service.media_details(generic(MediaLot::Book), Some(LotSpecifics::Movie(movie))).err(),
        not_found
    );
    assert_eq!(
        service.media_details(generic(MediaLot::Podcast), Some(LotSpecifics::Show(show()))).err(),
        not_found
    );
}

#[test]
fn the_history_shows_the_episode_of_a_show() {
    let seen = |id: i32, extra: Option<SeenExtraInformation>| Seen {
        id,
        progress: 100,
        started_on: None,
        finished_on: None,
        last_updated_on: UtcInstant::from_timestamp(0, 0).unwrap(),
        user_id: 1,
        metadata_id: 1,
        extra_information: extra,
        show_information: None,
        provider_watched_on: None,
    };
    let episode = SeenSeasonExtraInformation { season: 3, episode: 4 };
    let history = MediaService::new().seen_history(vec![
        seen(1, Some(SeenExtraInformation::Show(episode))),
        seen(2, None),
    ]);
    assert_eq!(history.len(), 2);
    assert_eq!(history[0].id, 1);
    assert_eq!(history[0].show_information, Some(episode));
    assert_eq!(history[0].extra_information, Some(SeenExtraInformation::Show(episode)));
    assert_eq!(history[1].id, 2);
    assert_eq!(history[1].show_information, None);
}

#[test]
fn a_listing_shows_each_item_with_its_images() {
    let service = MediaService::new();
    let metas = vec![
        (meta(12, MediaLot::Movie), vec![image(1, "poster-1", MetadataImageLot::Poster)]),
        (meta(-3, MediaLot::Movie), vec![image(2, "backdrop-1", MetadataImageLot::Backdrop)]),
    ];
    let listing = service.media_list(57, &metas);
    assert_eq!(listing.total, 57);
    assert_eq!(listing.items.len(), 2);
    assert_eq!(listing.items[0].identifier, "12");
    assert_eq!(listing.items[0].title, "Title 12");
    assert_eq!(listing.items[0].description.as_deref(), Some("Described"));
    assert_eq!(listing.items[0].poster_images, vec!["poster-1".to_string()]);
    assert!(listing.items[0].backdrop_images.is_empty());
    assert_eq!(listing.items[0].publish_year, Some(1999));
    assert!(listing.items[0].genres.is_empty());
    assert!(listing.items[0].author_names.is_empty());
    assert_eq!(listing.items[0].book_specifics, None);
    assert_eq!(listing.items[1].identifier, "-3");
    assert_eq!(listing.items[1].backdrop_images, vec!["backdrop-1".to_string()]);
    assert_eq!(service.media_list(i32::MAX as u64, &vec![]).total, i32::MAX);
}

#[test]
fn the_total_of_a_listing_is_cut_to_thirty_two_bits() {
    let service = MediaService::new();
    assert_eq!(service.media_list(0x1_0000_0005, &vec![]).total, 5);
    assert_eq!(service.media_list(0x8000_0000, &vec![]).total, i32::MIN);
    assert_eq!(service.media_list(u64::MAX, &vec![]).total, -1);
}

#[test]
fn pages_of_a_listing_are_stored_from_zero() {
    assert_eq!(LIMIT, 20);
    let input = |page: i32| MediaListInput { page, lot: MediaLot::Book };
    assert_eq!(MediaService::page_index(&input(1)), 0);
    assert_eq!(MediaService::page_index(&input(4)), 3);
    assert_eq!(MediaService::page_index(&input(i32::MAX)), 2_147_483_646);
    assert_eq!(MediaService::page_index(&input(0)), u64::MAX);
    assert_eq!(MediaService::page_index(&input(-1)), u64::MAX - 1);
}

#[test]
fn uploads_are_stored_under_a_fresh_name() {
    assert_eq!(upload_name("V1StGXR8", Some("export.csv".to_string())), "V1StGXR8-export.csv");
    assert_eq!(upload_name("V1StGXR8", None), "V1StGXR8-file.png");
    assert_eq!(upload_name("", Some(String::new())), "-");
}

#[test]
fn a_webhook_is_answered_or_unprocessable() {
    assert_eq!(integration_webhook(Ok("done".to_string())), Ok((200, "done".to_string())));
    assert_eq!(integration_webhook(Err("bad payload".to_string())), Err(422));
}
