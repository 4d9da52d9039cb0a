use chrono::NaiveDate;
use media_tracker::decimal::DecimalValue;
use media_tracker::enums::{MediaLot, MediaSource};
use media_tracker::models::{PodcastEpisode, PodcastSpecifics};
use media_tracker::providers::listennotes::{
    EpisodeCursor, EpisodePages, ListennotesIdAndNamedObject, ListennotesService, Podcast,
    Recommendation, SearchPodcast, SearchResponse, Settings,
};
use media_tracker::time::{CalendarDate, UtcInstant};

fn date(year: i32, month: u32, day: u32) -> CalendarDate {
    let days = NaiveDate::from_ymd_opt(year, month, day).unwrap().to_epoch_days();
    CalendarDate::from_epoch_days(days).unwrap()
}

fn genre(id: i32, name: &str) -> ListennotesIdAndNamedObject {
    ListennotesIdAndNamedObject { id, name: name.to_string() }
}

fn service() -> ListennotesService {
    let settings = Settings::from_genres(&vec![
        genre(1, "News"),
        genre(2, "Comedy"),
        genre(3, "News"),
        genre(2, "Humour"),
    ]);
    ListennotesService::new(None, settings)
}

fn raw_episode(serial: usize) -> PodcastEpisode {
    PodcastEpisode {
        number: 0,
        id: format!("episode-{}", serial),
        runtime: Some(60 * serial as i32 + 59),
        overview: None,
        title: format!("Episode {}", serial),
        publish_date: CalendarDate::from_epoch_days(19_000 + serial as i32).unwrap(),
        thumbnail: None,
    }
}

fn answer(first_serial: usize, count: usize, total: usize) -> Podcast {
    Podcast {
        title: "A podcast".to_string(),
        explicit_content: Some(false),
        description: Some("About things".to_string()),
        listen_score: Some(DecimalValue::whole(42)),
        id: "pod".to_string(),
        publish_date: UtcInstant::from_timestamp(1_704_067_199, 0),
        publisher: Some("The publisher".to_string()),
        image: Some("https://example.org/image.png".to_string()),
        episodes: (first_serial..first_serial + count).map(raw_episode).collect(),
        genre_ids: vec![2, 9, 1, 3, 2],
        total_episodes: total,
    }
}

fn gather(sizes: &[usize], total: usize) -> (PodcastSpecifics, Vec<EpisodeCursor>) {
    let service = service();
    let first = service.details_with_paginated_episodes(answer(1, sizes[0], total), None);
    let mut pages = EpisodePages::start(first.podcast_specifics.unwrap());
    let mut cursors = Vec::new();
    let mut served = sizes[0];
    let mut next = 1;
    while let Some(cursor) = pages.next_page() {
        assert!(cursors.len() < 100, "the gathering does not end");
        cursors.push(cursor);
        let size = if next < sizes.len() { sizes[next] } else { 0 };
        next += 1;
        let page = service
            .details_with_paginated_episodes(answer(served + 1, size, total), Some(cursor.episode_number));
        served += size;
        pages.add_page(page.podcast_specifics);
    }
    (pages.finish(), cursors)
}

#[test]
fn details_of_a_podcast() {
    let details = service().details_with_paginated_episodes(answer(1, 2, 2), None);
    assert_eq!(details.identifier, "pod");
    assert_eq!(details.title, "A podcast");
    assert_eq!(details.is_nsfw, Some(false));
    assert_eq!(details.description.as_deref(), Some("About things"));
    assert_eq!(details.lot, MediaLot::Podcast);
    assert_eq!(details.source, MediaSource::Listennotes);
    assert_eq!(details.creators.len(), 1);
    assert_eq!(details.creators[0].name, "The publisher");
    assert_eq!(details.creators[0].role, "Publishing");
    assert_eq!(details.creators[0].image, None);
    assert_eq!(details.url_images.len(), 1);
    assert_eq!(details.url_images[0].image, "https://example.org/image.png");
    assert_eq!(details.publish_year, Some(2023));
    assert_eq!(details.publish_date, Some(date(2023, 12, 31)));
    assert_eq!(details.provider_rating, Some(DecimalValue::whole(42)));
    assert!(details.suggestions.is_empty());
    let specifics = details.podcast_specifics.unwrap();
    assert_eq!(specifics.total_episodes, 2);
    assert_eq!(specifics.episodes.len(), 2);
    assert_eq!(specifics.episodes[0].number, 1);
    assert_eq!(specifics.episodes[0].id, "episode-1");
    assert_eq!(specifics.episodes[0].title, "Episode 1");
    assert_eq!(specifics.episodes[0].runtime, Some(1));
    assert_eq!(specifics.episodes[1].number, 2);
    assert_eq!(specifics.episodes[1].runtime, Some(2));
    assert_eq!(specifics.episodes[1].publish_date.to_epoch_days(), 19_002);
}

#[test]
fn details_without_publisher_image_or_date() {
    let mut podcast = answer(1, 0, 0);
    podcast.publisher = None;
    podcast.image = None;
    podcast.publish_date = None;
    podcast.listen_score = None;
    podcast.genre_ids = vec![];
    let details = service().details_with_paginated_episodes(podcast, Some(5));
    assert!(details.creators.is_empty());
    assert!(details.url_images.is_empty());
    assert!(details.genres.is_empty());
    assert_eq!(details.publish_year, None);
    assert_eq!(details.publish_date, None);
    assert_eq!(details.provider_rating, None);
    assert!(details.podcast_specifics.unwrap().episodes.is_empty());
}

#[test]
fn genres_are_named_once_in_their_order() {
    let details = service().details_with_paginated_episodes(answer(1, 0, 0), None);
    assert_eq!(details.genres, vec!["Humour".to_string(), "News".to_string()]);
}

#[test]
fn later_names_of_a_genre_replace_earlier_ones() {
    let settings = Settings::from_genres(&vec![genre(2, "Comedy"), genre(2, "Humour")]);
    assert_eq!(settings.genres.len(), 1);
    assert_eq!(settings.genres.get(&2).map(String::as_str), Some("Humour"));
}

#[test]
fn runtime_is_stored_in_whole_minutes() {
    let mut podcast = answer(1, 4, 4);
    podcast.episodes[0].runtime = Some(59);
    podcast.episodes[1].runtime = Some(120);
    podcast.episodes[2].runtime = Some(-61);
    podcast.episodes[3].runtime = None;
    let details = service().details_with_paginated_episodes(podcast, None);
    let episodes = details.podcast_specifics.unwrap().episodes;
    assert_eq!(episodes[0].runtime, Some(0));
    assert_eq!(episodes[1].runtime, Some(2));
    assert_eq!(episodes[2].runtime, Some(-1));
    assert_eq!(episodes[3].runtime, None);
}

#[test]
fn a_later_page_is_numbered_after_the_cursor() {
    let details = service().details_with_paginated_episodes(answer(11, 3, 25), Some(10));
    let episodes = details.podcast_specifics.unwrap().episodes;
    let numbers: Vec<i32> = episodes.iter().map(|e| e.number).collect();
    assert_eq!(numbers, vec![11, 12, 13]);
    let top = service().details_with_paginated_episodes(answer(1, 1, 1), Some(i32::MAX - 1));
    assert_eq!(top.podcast_specifics.unwrap().episodes[0].number, i32::MAX);
}

#[test]
fn pages_of_ten_ten_and_five_make_twenty_five_episodes() {
    let (specifics, cursors) = gather(&[10, 10, 5], 25);
    assert_eq!(specifics.total_episodes, 25);
    assert_eq!(specifics.episodes.len(), 25);
    for (index, episode) in specifics.episodes.iter().enumerate() {
        assert_eq!(episode.number, index as i32 + 1);
        assert_eq!(episode.id, format!("episode-{}", index + 1));
    }
    assert_eq!(
        cursors,
        vec![
            EpisodeCursor { next_pub_date: 19_010 * 86_400, episode_number: 10 },
            EpisodeCursor { next_pub_date: 19_020 * 86_400, episode_number: 20 },
        ]
    );
}

#[test]
fn a_page_without_episodes_ends_the_gathering() {
    let (specifics, cursors) = gather(&[10, 10, 0, 5], 25);
    assert_eq!(specifics.episodes.len(), 20);
    assert_eq!(specifics.total_episodes, 25);
    assert_eq!(cursors.len(), 2);
    assert_eq!(specifics.episodes[19].number, 20);
}

#[test]
fn an_answer_without_a_page_ends_the_gathering() {
    let service = service();
    let first = service.details_with_paginated_episodes(answer(1, 10, 25), None);
    let mut pages = EpisodePages::start(first.podcast_specifics.unwrap());
    assert!(pages.next_page().is_some());
    pages.add_page(None);
    assert_eq!(pages.next_page(), None);
    assert_eq!(pages.finish().episodes.len(), 10);
}

#[test]
fn a_first_page_without_episodes_asks_for_no_other() {
    let (specifics, cursors) = gather(&[0, 10], 25);
    assert!(specifics.episodes.is_empty());
    assert!(cursors.is_empty());
}

#[test]
fn a_complete_first_page_asks_for_no_other() {
    let (specifics, cursors) = gather(&[10], 10);
    assert_eq!(specifics.episodes.len(), 10);
    assert!(cursors.is_empty());
    let (more, cursors) = gather(&[12], 10);
    assert_eq!(more.episodes.len(), 12);
    assert!(cursors.is_empty());
}

#[test]
fn requests_are_addressed_below_the_service() {
    let service = service();
    assert_eq!(service.podcast_url("abc"), "https://listen-api.listennotes.com/api/v2/podcasts/abc");
    assert_eq!(
        service.recommendations_url("abc"),
        "https://listen-api.listennotes.com/api/v2/podcasts/abc/recommendations"
    );
    assert_eq!(service.search_url(), "https://listen-api.listennotes.com/api/v2/search");
    let elsewhere = ListennotesService::new(
        Some("http://localhost:9000".to_string()),
        Settings::from_genres(&vec![]),
    );
    assert_eq!(elsewhere.podcast_url("x"), "http://localhost:9000/podcasts/x");
}

#[test]
fn episodes_are_asked_for_oldest_first() {
    let first = ListennotesService::episodes_query(None);
    assert_eq!(first.sort, "oldest_first");
    assert_eq!(first.next_episode_pub_date, "null");
    let later = ListennotesService::episodes_query(Some(1_642_464_000));
    assert_eq!(later.sort, "oldest_first");
    assert_eq!(later.next_episode_pub_date, "1642464000");
    assert_eq!(ListennotesService::episodes_query(Some(-5)).next_episode_pub_date, "-5");
}

#[test]
fn a_search_begins_at_the_offset_of_its_page() {
    let first = ListennotesService::search_query("rust", None);
    assert_eq!(first.q, "rust");
    assert_eq!(first.offset, 0);
    assert_eq!(first.lot, "podcast");
    assert_eq!(ListennotesService::search_query("rust", Some(1)).offset, 0);
    assert_eq!(ListennotesService::search_query("rust", Some(3)).offset, 40);
    assert_eq!(ListennotesService::search_query("rust", Some(107_374_183)).offset, 2_147_483_640);
}

#[test]
fn hits_of_a_search() {
    let response = |next_offset: Option<i32>| SearchResponse {
        total: 41,
        results: vec![
            SearchPodcast {
                title_original: "First".to_string(),
                id: "a".to_string(),
                publish_date: UtcInstant::from_timestamp(0, 0),
                image: Some("img".to_string()),
            },
            SearchPodcast {
                title_original: "Second".to_string(),
                id: "b".to_string(),
                publish_date: None,
                image: None,
            },
        ],
        next_offset,
    };
    let found = service().metadata_search(response(Some(40)), Some(2));
    assert_eq!(found.details.total, 41);
    assert_eq!(found.details.next_page, Some(3));
    assert_eq!(found.items.len(), 2);
    assert_eq!(found.items[0].identifier, "a");
    assert_eq!(found.items[0].title, "First");
    assert_eq!(found.items[0].image.as_deref(), Some("img"));
    assert_eq!(found.items[0].publish_year, Some(1970));
    assert_eq!(found.items[1].identifier, "b");
    assert_eq!(found.items[1].publish_year, None);
    assert_eq!(service().metadata_search(response(Some(20)), None).details.next_page, Some(2));
    assert_eq!(service().metadata_search(response(None), Some(2)).details.next_page, None);
}

#[test]
fn recommendations_become_suggestions() {
    let suggested = service().suggestions(vec![
        Recommendation { id: "r1".to_string(), title: "One".to_string(), thumbnail: None },
        Recommendation {
            id: "r2".to_string(),
            title: "Two".to_string(),
            thumbnail: Some("thumb".to_string()),
        },
    ]);
    assert_eq!(suggested.len(), 2);
    assert_eq!(suggested[0].identifier, "r1");
    assert_eq!(suggested[0].title, "One");
    assert_eq!(suggested[0].image, None);
    assert_eq!(suggested[0].lot, MediaLot::Podcast);
    assert_eq!(suggested[0].source, MediaSource::Listennotes);
    assert_eq!(suggested[0].is_recommendation, None);
    assert_eq!(suggested[1].identifier, "r2");
    assert_eq!(suggested[1].image.as_deref(), Some("thumb"));
}
