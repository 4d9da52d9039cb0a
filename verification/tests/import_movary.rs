use chrono::NaiveDate;
use media_tracker::decimal::DecimalValue;
use media_tracker::enums::{MediaLot, MediaSource};
use media_tracker::importer::movary::{
    import, Common, DeployMovaryImportInput, History, ImportStage, Rating,
};
use media_tracker::importer::{
    find_by_natural_key, natural_key_matches, ImportFailStep, ImportSummary, RowParseError,
    StreamRow,
};
use media_tracker::time::CalendarDate;
use rust_decimal::Decimal;

fn date(year: i32, month: u32, day: u32) -> CalendarDate {
    let days = NaiveDate::from_ymd_opt(year, month, day).unwrap().to_epoch_days();
    CalendarDate::from_epoch_days(days).unwrap()
}

fn dec(mantissa: i64, scale: u32) -> DecimalValue {
    DecimalValue::from_i128_with_scale(mantissa as i128, scale).unwrap()
}

fn as_decimal(value: DecimalValue) -> Decimal {
    Decimal::from_i128_with_scale(value.to_mantissa(), value.to_scale())
}

fn common(title: &str, tmdb_id: i32) -> Common {
    Common { title: title.to_string(), tmdb_id }
}

#[test]
fn ratings_watchlist_and_history_merge_by_title() {
    let input = DeployMovaryImportInput {
        ratings: vec![StreamRow::Read(Rating { common: common("A", 1), user_rating: dec(85, 1) })],
        watchlist: vec![StreamRow::Read(common("B", 2))],
        history: vec![StreamRow::Read(History {
            common: common("A", 1),
            watched_at: date(2024, 1, 1),
            comment: Some("great".to_string()),
        })],
    };
    let result = import(input);
    assert!(result.failed_items.is_empty());
    assert_eq!(result.media.len(), 2);

    let a = &result.media[0];
    assert_eq!(a.source_id, "A");
    assert_eq!(a.identifier, "1");
    assert_eq!(a.lot, MediaLot::Movie);
    assert_eq!(a.source, MediaSource::Tmdb);
    assert_eq!(a.reviews.len(), 1);
    assert_eq!(as_decimal(a.reviews[0].rating.unwrap()), Decimal::new(85, 0));
    let review = a.reviews[0].review.as_ref().unwrap();
    assert_eq!(review.text.as_deref(), Some("great"));
    assert_eq!(review.spoiler, Some(false));
    assert_eq!(review.visibility, None);
    assert_eq!(review.date.unwrap().timestamp(), 1_704_067_200);
    assert_eq!(review.date.unwrap().timestamp_subsec_nanos(), 0);
    assert_eq!(a.seen_history.len(), 1);
    assert_eq!(a.seen_history[0].started_on, None);
    assert_eq!(a.seen_history[0].ended_on, Some(date(2024, 1, 1)));
    assert_eq!(a.seen_history[0].provider_watched_on.as_deref(), Some("Movary"));
    assert!(a.collections.is_empty());

    let b = &result.media[1];
    assert_eq!(b.source_id, "B");
    assert_eq!(b.identifier, "2");
    assert!(b.seen_history.is_empty());
    assert!(b.reviews.is_empty());
    assert_eq!(b.collections, vec!["Watchlist".to_string()]);
}

#[test]
fn malformed_row_is_recorded_and_the_next_row_is_processed() {
    let mut watchlist = Vec::new();
    for i in 0..3 {
        watchlist.push(StreamRow::Read(common(&format!("movie {}", i), i)));
    }
    watchlist.push(StreamRow::Malformed(RowParseError { detail: "missing field `tmdbId`".to_string() }));
    watchlist.push(StreamRow::Read(common("movie 4", 4)));
    let input = DeployMovaryImportInput { ratings: vec![], watchlist, history: vec![] };
    let result = import(input);
    assert_eq!(result.failed_items.len(), 1);
    let failed = &result.failed_items[0];
    assert_eq!(failed.identifier, "3");
    assert_eq!(failed.step, ImportFailStep::InputTransformation);
    assert_eq!(failed.lot, Some(MediaLot::Movie));
    assert_eq!(failed.error.as_deref(), Some("Watchlist file: missing field `tmdbId`"));
    assert_eq!(result.media.len(), 4);
    assert_eq!(result.media[3].source_id, "movie 4");
    assert_eq!(result.media[3].identifier, "4");
}

#[test]
fn rating_of_ten_becomes_one_hundred() {
    let input = DeployMovaryImportInput {
        ratings: vec![StreamRow::Read(Rating { common: common("A", 1), user_rating: dec(100, 1) })],
        watchlist: vec![],
        history: vec![],
    };
    let result = import(input);
    let rating = result.media[0].reviews[0].rating.unwrap();
    assert_eq!(as_decimal(rating), Decimal::new(100, 0));
}

#[test]
fn rating_beyond_the_scale_saturates() {
    let input = DeployMovaryImportInput {
        ratings: vec![
            StreamRow::Read(Rating { common: common("A", 1), user_rating: dec(110, 1) }),
            StreamRow::Read(Rating { common: common("B", 2), user_rating: dec(-5, 1) }),
        ],
        watchlist: vec![],
        history: vec![],
    };
    let result = import(input);
    assert!(result.failed_items.is_empty());
    assert_eq!(as_decimal(result.media[0].reviews[0].rating.unwrap()), Decimal::new(100, 0));
    assert_eq!(as_decimal(result.media[1].reviews[0].rating.unwrap()), Decimal::new(0, 0));
}

#[test]
fn an_import_of_nothing_hands_over_nothing() {
    let result = import(DeployMovaryImportInput { ratings: vec![], watchlist: vec![], history: vec![] });
    assert!(result.media.is_empty());
    assert!(result.failed_items.is_empty());
    assert_eq!(result.summary(), ImportSummary { imported: 0, failed: 0 });
}

#[test]
fn failures_of_each_stream_carry_its_label_and_the_index_in_it() {
    let input = DeployMovaryImportInput {
        ratings: vec![
            StreamRow::Malformed(RowParseError { detail: "r0".to_string() }),
            StreamRow::Read(Rating { common: common("A", 1), user_rating: dec(5, 0) }),
            StreamRow::Malformed(RowParseError { detail: "r2".to_string() }),
        ],
        watchlist: vec![StreamRow::Malformed(RowParseError { detail: "w0".to_string() })],
        history: vec![
            StreamRow::Read(History { common: common("A", 1), watched_at: date(2024, 5, 5), comment: None }),
            StreamRow::Malformed(RowParseError { detail: "h1".to_string() }),
        ],
    };
    let result = import(input);
    let failures: Vec<(String, Option<String>)> = result
        .failed_items
        .iter()
        .map(|failed| (failed.identifier.clone(), failed.error.clone()))
        .collect();
    assert_eq!(
        failures,
        vec![
            ("0".to_string(), Some("Ratings file: r0".to_string())),
            ("2".to_string(), Some("Ratings file: r2".to_string())),
            ("0".to_string(), Some("Watchlist file: w0".to_string())),
            ("1".to_string(), Some("History file: h1".to_string())),
        ]
    );
    for failed in &result.failed_items {
        assert_eq!(failed.step, ImportFailStep::InputTransformation);
        assert_eq!(failed.lot, Some(MediaLot::Movie));
    }
    assert_eq!(result.media.len(), 1);
    assert_eq!(result.media[0].reviews.len(), 1);
    assert_eq!(result.media[0].seen_history.len(), 1);
    assert_eq!(result.summary(), ImportSummary { imported: 1, failed: 4 });
}

#[test]
fn rows_of_one_title_add_to_one_draft() {
    let input = DeployMovaryImportInput {
        ratings: vec![
            StreamRow::Read(Rating { common: common("A", 1), user_rating: dec(70, 1) }),
            StreamRow::Read(Rating { common: common("A", 1), user_rating: dec(90, 1) }),
        ],
        watchlist: vec![StreamRow::Read(common("A", 1)), StreamRow::Read(common("A", 1))],
        history: vec![
            StreamRow::Read(History {
                common: common("A", 1),
                watched_at: date(2024, 1, 1),
                comment: Some("first".to_string()),
            }),
            StreamRow::Read(History {
                common: common("A", 1),
                watched_at: date(2024, 2, 1),
                comment: None,
            }),
            StreamRow::Read(History {
                common: common("A", 1),
                watched_at: date(2024, 3, 1),
                comment: Some("third".to_string()),
            }),
        ],
    };
    let result = import(input);
    assert_eq!(result.media.len(), 1);
    let a = &result.media[0];
    assert_eq!(a.collections, vec!["Watchlist".to_string()]);
    assert_eq!(a.reviews.len(), 2);
    assert_eq!(as_decimal(a.reviews[0].rating.unwrap()), Decimal::new(70, 0));
    assert!(a.reviews[0].review.is_none());
    assert_eq!(as_decimal(a.reviews[1].rating.unwrap()), Decimal::new(90, 0));
    let review = a.reviews[1].review.as_ref().unwrap();
    assert_eq!(review.text.as_deref(), Some("third"));
    assert_eq!(review.date.unwrap().date_naive(), date(2024, 3, 1));
    let ended: Vec<_> = a.seen_history.iter().map(|seen| seen.ended_on).collect();
    assert_eq!(
        ended,
        vec![Some(date(2024, 1, 1)), Some(date(2024, 2, 1)), Some(date(2024, 3, 1))]
    );
}

#[test]
fn a_history_row_without_a_draft_creates_one() {
    let input = DeployMovaryImportInput {
        ratings: vec![],
        watchlist: vec![],
        history: vec![
            StreamRow::Read(History {
                common: common("C", 3),
                watched_at: date(2023, 12, 31),
                comment: None,
            }),
            StreamRow::Read(History {
                common: common("D", -4),
                watched_at: date(2023, 12, 31),
                comment: Some("fine".to_string()),
            }),
        ],
    };
    let result = import(input);
    assert_eq!(result.media.len(), 2);
    let c = &result.media[0];
    assert_eq!(c.source_id, "C");
    assert_eq!(c.identifier, "3");
    assert_eq!(c.seen_history.len(), 1);
    assert_eq!(c.seen_history[0].progress, None);
    assert_eq!(c.seen_history[0].extra_information, None);
    assert!(c.reviews.is_empty());
    assert!(c.collections.is_empty());
    let d = &result.media[1];
    assert_eq!(d.identifier, "-4");
    assert_eq!(d.seen_history.len(), 1);
    assert_eq!(d.reviews.len(), 1);
    assert_eq!(d.reviews[0].rating, None);
    assert_eq!(d.reviews[0].review.as_ref().unwrap().text.as_deref(), Some("fine"));
}

#[test]
fn titles_are_compared_as_written() {
    assert!(natural_key_matches(&"Alien".to_string(), &"Alien".to_string()));
    assert!(!natural_key_matches(&"Alien".to_string(), &"alien".to_string()));
    assert!(!natural_key_matches(&"Alien".to_string(), &"Alien ".to_string()));
    let input = DeployMovaryImportInput {
        ratings: vec![],
        watchlist: vec![
            StreamRow::Read(common("Alien", 1)),
            StreamRow::Read(common("alien", 2)),
            StreamRow::Read(common("Alien", 3)),
        ],
        history: vec![],
    };
    let result = import(input);
    assert_eq!(result.media.len(), 2);
    assert_eq!(find_by_natural_key(&result.media, &"alien".to_string()), Some(1));
    assert_eq!(find_by_natural_key(&result.media, &"Alien".to_string()), Some(0));
    assert_eq!(find_by_natural_key(&result.media, &"Aliens".to_string()), None);
    assert_eq!(result.media[0].identifier, "1");
}

#[test]
fn stages_run_in_their_fixed_order() {
    assert_eq!(
        ImportStage::sequence(),
        vec![ImportStage::Ratings, ImportStage::Watchlist, ImportStage::History]
    );
    assert_eq!(ImportStage::Ratings.label_string(), "Ratings file: ");
    assert_eq!(ImportStage::Watchlist.label_string(), "Watchlist file: ");
    assert_eq!(ImportStage::History.label_string(), "History file: ");
}
