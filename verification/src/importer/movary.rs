//! Reconciles the three streams of a Movary export into drafts.
//!
//! The streams are taken in a fixed order. Ratings and the watchlist come
//! first: each of their rows creates the draft that its title names, or adds
//! to it where it exists. The history comes last: each of its rows looks the
//! draft up, adds an event and the comment to it, and creates it only where
//! no earlier row has.

use super::{
    find_by_natural_key, first_with_key, has_key, is_first_with_key, keys_are_distinct,
    same_natural_key, ImportFailStep, ImportFailedItem, ImportFailedItemView,
    ImportOrExportItemRating, ImportOrExportItemRatingView, ImportOrExportItemReview,
    ImportOrExportItemReviewView, ImportOrExportMediaItem, ImportOrExportMediaItemSeen,
    ImportOrExportMediaItemSeenView, ImportOrExportMediaItemView, ImportResult,
    ImportResultView, RowParseError, StreamRow, StreamRowView,
};
use crate::decimal::DecimalValue;
use crate::enums::{DefaultCollection, ImportSource, MediaLot, MediaSource};
use crate::text::{contains_text, decimal, index_to_string, int_to_string};
use crate::time::{convert_naive_to_utc, CalendarDate};
use vstd::prelude::*;
use vstd::string::StringExecFns;

verus! {

/// What every row of an export says: the title and the number that TMDB
/// gives the movie.
#[derive(Debug)]
pub struct Common {
    pub title: String,
    pub tmdb_id: i32,
}

/// A row of the ratings stream. Movary rates out of 10.
#[derive(Debug)]
pub struct Rating {
    pub common: Common,
    pub user_rating: DecimalValue,
}

/// A row of the history stream.
#[derive(Debug)]
pub struct History {
    pub common: Common,
    pub watched_at: CalendarDate,
    pub comment: Option<String>,
}

/// The three streams of an export, each as it was read row by row.
#[derive(Debug)]
pub struct DeployMovaryImportInput {
    pub ratings: Vec<StreamRow<Rating>>,
    pub watchlist: Vec<StreamRow<Common>>,
    pub history: Vec<StreamRow<History>>,
}

/// The streams of an export in the order in which they are processed.
#[derive(Clone, Copy, Debug, PartialEq, Eq, Structural)]
pub enum ImportStage {
    Ratings,
    Watchlist,
    History,
}

/// [`Common`] in contracts.
pub struct CommonView {
    pub title: Seq<char>,
    pub tmdb_id: i32,
}

/// [`Rating`] in contracts.
pub struct RatingView {
    pub common: CommonView,
    pub user_rating: DecimalValue,
}

/// [`History`] in contracts.
pub struct HistoryView {
    pub common: CommonView,
    pub watched_at: CalendarDate,
    pub comment: Option<Seq<char>>,
}

/// [`DeployMovaryImportInput`] in contracts.
pub struct DeployMovaryImportInputView {
    pub ratings: Seq<StreamRowView<RatingView>>,
    pub watchlist: Seq<StreamRowView<CommonView>>,
    pub history: Seq<StreamRowView<HistoryView>>,
}

impl DeepView for Common {
    type V = CommonView;

    open spec fn deep_view(&self) -> CommonView {
        CommonView { title: self.title@, tmdb_id: self.tmdb_id }
    }
}

impl DeepView for Rating {
    type V = RatingView;

    open spec fn deep_view(&self) -> RatingView {
        RatingView { common: self.common.deep_view(), user_rating: self.user_rating }
    }
}

impl DeepView for History {
    type V = HistoryView;

    open spec fn deep_view(&self) -> HistoryView {
        HistoryView {
            common: self.common.deep_view(),
            watched_at: self.watched_at,
            comment: self.comment.deep_view(),
        }
    }
}

impl DeepView for DeployMovaryImportInput {
    type V = DeployMovaryImportInputView;

    open spec fn deep_view(&self) -> DeployMovaryImportInputView {
        DeployMovaryImportInputView {
            ratings: self.ratings.deep_view(),
            watchlist: self.watchlist.deep_view(),
            history: self.history.deep_view(),
        }
    }
}

impl ImportStage {
    /// The stages in the order in which an import runs them. Ratings and
    /// the watchlist create drafts and come before the history, which looks
    /// them up.
    pub open spec fn order() -> Seq<ImportStage> {
        seq![ImportStage::Ratings, ImportStage::Watchlist, ImportStage::History]
    }

    /// The stages in the order in which an import runs them.
    pub fn sequence() -> (stages: Vec<ImportStage>)
        ensures
            stages@ == Self::order(),
    {
        let mut stages: Vec<ImportStage> = Vec::new();
        stages.push(ImportStage::Ratings);
        stages.push(ImportStage::Watchlist);
        stages.push(ImportStage::History);
        assert(stages@ =~= Self::order());
        stages
    }

    /// How the errors of the stage's stream begin.
    pub open spec fn label(self) -> Seq<char> {
        match self {
            ImportStage::Ratings => "Ratings file: "@,
            ImportStage::Watchlist => "Watchlist file: "@,
            ImportStage::History => "History file: "@,
        }
    }

    /// How the errors of the stage's stream begin.
    pub fn label_string(&self) -> (label: String)
        ensures
            label@ == self.label(),
    {
        match self {
            ImportStage::Ratings => "Ratings file: ".to_owned(),
            ImportStage::Watchlist => "Watchlist file: ".to_owned(),
            ImportStage::History => "History file: ".to_owned(),
        }
    }
}

/// The multiplier that takes a rating out of 10 to the canonical scale.
pub open spec fn rating_multiplier() -> DecimalValue {
    DecimalValue::with_parts(10, 0)
}

/// The failure recorded for the malformed row at `index` of a stream.
pub open spec fn failed_row(stage: ImportStage, index: int, detail: Seq<char>)
    -> ImportFailedItemView {
    ImportFailedItemView {
        lot: Some(MediaLot::Movie),
        step: ImportFailStep::InputTransformation,
        identifier: decimal(index),
        error: Some(stage.label() + detail),
    }
}

/// The records of the rows of a stream that could be read, in stream order.
pub open spec fn records_of<V>(rows: Seq<StreamRowView<V>>) -> Seq<V>
    decreases rows.len(),
{
    if rows.len() == 0 {
        Seq::empty()
    } else {
        match rows.last() {
            StreamRowView::Read(record) => records_of(rows.drop_last()).push(record),
            StreamRowView::Malformed(_) => records_of(rows.drop_last()),
        }
    }
}

/// The failures of a stream: one for each malformed row, in stream order,
/// under the index that the row has in the stream.
pub open spec fn failures_of<V>(stage: ImportStage, rows: Seq<StreamRowView<V>>) -> Seq<
    ImportFailedItemView,
>
    decreases rows.len(),
{
    if rows.len() == 0 {
        Seq::empty()
    } else {
        match rows.last() {
            StreamRowView::Read(_) => failures_of(stage, rows.drop_last()),
            StreamRowView::Malformed(detail) => failures_of(stage, rows.drop_last()).push(
                failed_row(stage, rows.len() - 1, detail),
            ),
        }
    }
}

/// The drafts after a run of records, each taken in by `take_in`.
pub open spec fn drafts_after<V>(
    media: Seq<ImportOrExportMediaItemView>,
    records: Seq<V>,
    take_in: spec_fn(Seq<ImportOrExportMediaItemView>, V) -> Seq<ImportOrExportMediaItemView>,
) -> Seq<ImportOrExportMediaItemView>
    decreases records.len(),
{
    if records.len() == 0 {
        media
    } else {
        take_in(drafts_after(media, records.drop_last(), take_in), records.last())
    }
}

/// A new draft for the movie that a row names.
pub open spec fn new_draft(
    common: CommonView,
    seen_history: Seq<ImportOrExportMediaItemSeenView>,
    reviews: Seq<ImportOrExportItemRatingView>,
    collections: Seq<Seq<char>>,
) -> ImportOrExportMediaItemView {
    ImportOrExportMediaItemView {
        source_id: common.title,
        lot: MediaLot::Movie,
        source: MediaSource::Tmdb,
        identifier: decimal(common.tmdb_id as int),
        seen_history,
        reviews,
        collections,
    }
}

/// The review draft of a rating row: the rating on the canonical scale and
/// no text.
pub open spec fn rating_draft(record: RatingView) -> ImportOrExportItemRatingView {
    ImportOrExportItemRatingView {
        review: None,
        rating: Some(record.user_rating.spec_to_canonical_scale(rating_multiplier())),
    }
}

/// The event draft of a history row: finished on the day watched and tagged
/// with the source.
pub open spec fn seen_draft(record: HistoryView) -> ImportOrExportMediaItemSeenView {
    ImportOrExportMediaItemSeenView {
        progress: None,
        started_on: None,
        ended_on: Some(record.watched_at),
        extra_information: None,
        provider_watched_on: Some(ImportSource::Movary.name()),
    }
}

/// The written review of a history row that has a comment, dated at
/// midnight UTC of the day watched.
pub open spec fn comment_review(record: HistoryView) -> Option<ImportOrExportItemReviewView> {
    match record.comment {
        Some(text) => Some(
            ImportOrExportItemReviewView {
                visibility: None,
                date: Some(record.watched_at.spec_and_midnight_utc()),
                spoiler: Some(false),
                text: Some(text),
            },
        ),
        None => None,
    }
}

/// The collections of a draft with `name` among them, once.
pub open spec fn with_collection(collections: Seq<Seq<char>>, name: Seq<char>) -> Seq<Seq<char>> {
    if collections.contains(name) {
        collections
    } else {
        collections.push(name)
    }
}

/// The reviews of a draft after a comment: it becomes the text of the most
/// recent review draft, or a review draft of its own where there is none.
pub open spec fn with_comment(
    reviews: Seq<ImportOrExportItemRatingView>,
    review: Option<ImportOrExportItemReviewView>,
) -> Seq<ImportOrExportItemRatingView> {
    if review is None {
        reviews
    } else if reviews.len() > 0 {
        reviews.update(
            reviews.len() - 1,
            ImportOrExportItemRatingView { review, rating: reviews.last().rating },
        )
    } else {
        reviews.push(ImportOrExportItemRatingView { review, rating: None })
    }
}

/// The drafts after a row that names the natural key `key`: the first draft
/// with that key is changed by `change`; where no draft has the key, `fresh`
/// comes after the drafts.
pub open spec fn merged(
    media: Seq<ImportOrExportMediaItemView>,
    key: Seq<char>,
    change: spec_fn(ImportOrExportMediaItemView) -> ImportOrExportMediaItemView,
    fresh: ImportOrExportMediaItemView,
) -> Seq<ImportOrExportMediaItemView> {
    if has_key(media, key) {
        let i = first_with_key(media, key);
        media.update(i, change(media[i]))
    } else {
        media.push(fresh)
    }
}

/// A draft with the rating of a record as one more review draft.
pub open spec fn rated(draft: ImportOrExportMediaItemView, record: RatingView)
    -> ImportOrExportMediaItemView {
    ImportOrExportMediaItemView { reviews: draft.reviews.push(rating_draft(record)), ..draft }
}

/// A draft put on the watchlist.
pub open spec fn listed(draft: ImportOrExportMediaItemView) -> ImportOrExportMediaItemView {
    ImportOrExportMediaItemView {
        collections: with_collection(draft.collections, DefaultCollection::Watchlist.name()),
        ..draft
    }
}

/// A draft with the event of a record as one more event draft, and with
/// the comment of the record among its reviews.
pub open spec fn watched(draft: ImportOrExportMediaItemView, record: HistoryView)
    -> ImportOrExportMediaItemView {
    ImportOrExportMediaItemView {
        seen_history: draft.seen_history.push(seen_draft(record)),
        reviews: with_comment(draft.reviews, comment_review(record)),
        ..draft
    }
}

/// `rated` as the change that a record of the ratings stream makes.
pub open spec fn rate_change(record: RatingView) -> spec_fn(ImportOrExportMediaItemView)
    -> ImportOrExportMediaItemView {
    |draft: ImportOrExportMediaItemView| rated(draft, record)
}

/// `listed` as the change that a record of the watchlist stream makes.
pub open spec fn list_change() -> spec_fn(ImportOrExportMediaItemView)
    -> ImportOrExportMediaItemView {
    |draft: ImportOrExportMediaItemView| listed(draft)
}

/// `watched` as the change that a record of the history stream makes.
pub open spec fn watch_change(record: HistoryView) -> spec_fn(ImportOrExportMediaItemView)
    -> ImportOrExportMediaItemView {
    |draft: ImportOrExportMediaItemView| watched(draft, record)
}

/// The draft that a record of the ratings stream creates.
pub open spec fn rate_fresh(record: RatingView) -> ImportOrExportMediaItemView {
    new_draft(record.common, Seq::empty(), seq![rating_draft(record)], Seq::empty())
}

/// The draft that a record of the watchlist stream creates.
pub open spec fn list_fresh(record: CommonView) -> ImportOrExportMediaItemView {
    new_draft(record, Seq::empty(), Seq::empty(), seq![DefaultCollection::Watchlist.name()])
}

/// The draft that a record of the history stream creates.
pub open spec fn watch_fresh(record: HistoryView) -> ImportOrExportMediaItemView {
    new_draft(
        record.common,
        seq![seen_draft(record)],
        with_comment(Seq::empty(), comment_review(record)),
        Seq::empty(),
    )
}

/// The drafts after a record of the ratings stream: the draft that its title
/// names gets the rating as one more review draft, and is created for it
/// where it does not exist.
pub open spec fn rate(media: Seq<ImportOrExportMediaItemView>, record: RatingView) -> Seq<
    ImportOrExportMediaItemView,
> {
    merged(media, record.common.title, rate_change(record), rate_fresh(record))
}

/// The drafts after a record of the watchlist stream: the draft that its
/// title names is put on the watchlist, and is created for it where it does
/// not exist.
pub open spec fn list(media: Seq<ImportOrExportMediaItemView>, record: CommonView) -> Seq<
    ImportOrExportMediaItemView,
> {
    merged(media, record.title, list_change(), list_fresh(record))
}

/// The drafts after a record of the history stream: the draft that its title
/// names gets one more event and the comment, and is created with that one
/// event where it does not exist.
pub open spec fn watch(media: Seq<ImportOrExportMediaItemView>, record: HistoryView) -> Seq<
    ImportOrExportMediaItemView,
> {
    merged(media, record.common.title, watch_change(record), watch_fresh(record))
}

/// `rate` as a step of a run.
pub open spec fn rate_step() -> spec_fn(Seq<ImportOrExportMediaItemView>, RatingView) -> Seq<
    ImportOrExportMediaItemView,
> {
    |media: Seq<ImportOrExportMediaItemView>, record: RatingView| rate(media, record)
}

/// `list` as a step of a run.
pub open spec fn list_step() -> spec_fn(Seq<ImportOrExportMediaItemView>, CommonView) -> Seq<
    ImportOrExportMediaItemView,
> {
    |media: Seq<ImportOrExportMediaItemView>, record: CommonView| list(media, record)
}

/// `watch` as a step of a run.
pub open spec fn watch_step() -> spec_fn(Seq<ImportOrExportMediaItemView>, HistoryView) -> Seq<
    ImportOrExportMediaItemView,
> {
    |media: Seq<ImportOrExportMediaItemView>, record: HistoryView| watch(media, record)
}

/// The drafts of an import: the records that could be read are taken in
/// stage by stage, ratings first, then the watchlist, then the history, and
/// within a stage in stream order. Malformed rows play no part.
pub open spec fn spec_import_media(input: DeployMovaryImportInputView) -> Seq<
    ImportOrExportMediaItemView,
> {
    let rated = drafts_after(Seq::empty(), records_of(input.ratings), rate_step());
    let listed = drafts_after(rated, records_of(input.watchlist), list_step());
    drafts_after(listed, records_of(input.history), watch_step())
}

/// The failures of an import: those of the ratings, then those of the
/// watchlist, then those of the history.
pub open spec fn spec_import_failures(input: DeployMovaryImportInputView) -> Seq<
    ImportFailedItemView,
> {
    failures_of(ImportStage::Ratings, input.ratings) + failures_of(
        ImportStage::Watchlist,
        input.watchlist,
    ) + failures_of(ImportStage::History, input.history)
}

/// The state after one stage: the records of its stream that could be read
/// are taken into the drafts, and the failures of its stream follow those
/// recorded before.
pub open spec fn after_stage(
    state: ImportResultView,
    stage: ImportStage,
    input: DeployMovaryImportInputView,
) -> ImportResultView {
    match stage {
        ImportStage::Ratings => ImportResultView {
            media: drafts_after(state.media, records_of(input.ratings), rate_step()),
            failed_items: state.failed_items + failures_of(stage, input.ratings),
        },
        ImportStage::Watchlist => ImportResultView {
            media: drafts_after(state.media, records_of(input.watchlist), list_step()),
            failed_items: state.failed_items + failures_of(stage, input.watchlist),
        },
        ImportStage::History => ImportResultView {
            media: drafts_after(state.media, records_of(input.history), watch_step()),
            failed_items: state.failed_items + failures_of(stage, input.history),
        },
    }
}

/// The state after a run of stages.
pub open spec fn after_stages(
    state: ImportResultView,
    stages: Seq<ImportStage>,
    input: DeployMovaryImportInputView,
) -> ImportResultView
    decreases stages.len(),
{
    if stages.len() == 0 {
        state
    } else {
        after_stage(after_stages(state, stages.drop_last(), input), stages.last(), input)
    }
}

/// The state before the first row: no drafts, no failures.
pub open spec fn nothing_imported() -> ImportResultView {
    ImportResultView { media: Seq::empty(), failed_items: Seq::empty() }
}

/// What an import of the three streams hands over: the state after the
/// stages in their order.
pub open spec fn spec_import(input: DeployMovaryImportInputView) -> ImportResultView {
    after_stages(nothing_imported(), ImportStage::order(), input)
}

/// What an import hands over, written out: the drafts are those that the
/// readable records of the three streams make, and the failures those of
/// the three streams.
pub proof fn lemma_import_written_out(input: DeployMovaryImportInputView)
    ensures
        spec_import(input).media == spec_import_media(input),
        spec_import(input).failed_items == spec_import_failures(input),
{
    let order = ImportStage::order();
    let none = Seq::<ImportStage>::empty();
    let first = seq![ImportStage::Ratings];
    let second = seq![ImportStage::Ratings, ImportStage::Watchlist];
    assert(order.drop_last() =~= second);
    assert(second.drop_last() =~= first);
    assert(first.drop_last() =~= none);
    let start = nothing_imported();
    assert(after_stages(start, none, input) == start);
    let rated = after_stages(start, first, input);
    assert(rated == after_stage(start, ImportStage::Ratings, input));
    let listed = after_stages(start, second, input);
    assert(listed == after_stage(rated, ImportStage::Watchlist, input));
    assert(after_stages(start, order, input) == after_stage(listed, ImportStage::History, input));
    assert(start.failed_items + failures_of(ImportStage::Ratings, input.ratings) =~= failures_of(
        ImportStage::Ratings,
        input.ratings,
    ));
}

/// Every rating among the reviews of a draft lies on the canonical scale.
pub open spec fn has_canonical_ratings(draft: ImportOrExportMediaItemView) -> bool {
    forall|j: int|
        0 <= j < draft.reviews.len() ==> ((#[trigger] draft.reviews[j]).rating matches Some(rating)
            ==> rating.is_canonical())
}

/// A draft as an import keeps it: its ratings on the canonical scale, its
/// collections a set.
pub open spec fn draft_is_sound(draft: ImportOrExportMediaItemView) -> bool {
    has_canonical_ratings(draft) && draft.collections.no_duplicates()
}

/// Every rating among the drafts lies on the canonical scale.
pub open spec fn ratings_are_canonical(media: Seq<ImportOrExportMediaItemView>) -> bool {
    forall|i: int| 0 <= i < media.len() ==> has_canonical_ratings(#[trigger] media[i])
}

/// The collections of every draft are a set: no name stands twice.
pub open spec fn collections_are_sets(media: Seq<ImportOrExportMediaItemView>) -> bool {
    forall|i: int| 0 <= i < media.len() ==> (#[trigger] media[i]).collections.no_duplicates()
}

/// The drafts as an import keeps them: no two under one natural key, and
/// each of them sound.
pub open spec fn drafts_are_sound(media: Seq<ImportOrExportMediaItemView>) -> bool {
    keys_are_distinct(media) && forall|i: int|
        0 <= i < media.len() ==> draft_is_sound(#[trigger] media[i])
}

/// Reading one row further.
proof fn lemma_next_row<V>(stage: ImportStage, rows: Seq<StreamRowView<V>>, i: int)
    requires
        0 <= i < rows.len(),
    ensures
        rows[i] matches StreamRowView::Read(record) ==> records_of(rows.take(i + 1)) == records_of(
            rows.take(i),
        ).push(record) && failures_of(stage, rows.take(i + 1)) == failures_of(
            stage,
            rows.take(i),
        ),
        rows[i] matches StreamRowView::Malformed(detail) ==> records_of(rows.take(i + 1))
            == records_of(rows.take(i)) && failures_of(stage, rows.take(i + 1)) == failures_of(
            stage,
            rows.take(i),
        ).push(failed_row(stage, i, detail)),
{
    assert(rows.take(i + 1).drop_last() =~= rows.take(i));
    assert(rows.take(i + 1).last() == rows[i]);
}

/// Taking in one record more.
proof fn lemma_next_record<V>(
    media: Seq<ImportOrExportMediaItemView>,
    records: Seq<V>,
    record: V,
    take_in: spec_fn(Seq<ImportOrExportMediaItemView>, V) -> Seq<ImportOrExportMediaItemView>,
)
    ensures
        drafts_after(media, records.push(record), take_in) == take_in(
            drafts_after(media, records, take_in),
            record,
        ),
{
    assert(records.push(record).drop_last() =~= records);
}

/// What every step keeps, a run keeps.
proof fn lemma_run_keeps<V>(
    media: Seq<ImportOrExportMediaItemView>,
    records: Seq<V>,
    take_in: spec_fn(Seq<ImportOrExportMediaItemView>, V) -> Seq<ImportOrExportMediaItemView>,
    kept: spec_fn(Seq<ImportOrExportMediaItemView>) -> bool,
)
    requires
        kept(media),
        forall|before: Seq<ImportOrExportMediaItemView>, record: V|
            kept(before) ==> kept(#[trigger] take_in(before, record)),
    ensures
        kept(drafts_after(media, records, take_in)),
    decreases records.len(),
{
    if records.len() > 0 {
        lemma_run_keeps(media, records.drop_last(), take_in, kept);
    }
}

/// A stream yields as many failures as it has malformed rows and as many
/// records as it has rows that could be read.
pub proof fn lemma_every_row_counts<V>(stage: ImportStage, rows: Seq<StreamRowView<V>>)
    ensures
        records_of(rows).len() + failures_of(stage, rows).len() == rows.len(),
    decreases rows.len(),
{
    if rows.len() > 0 {
        lemma_every_row_counts(stage, rows.drop_last());
    }
}

/// The indices of the malformed rows of a stream, in rising order.
pub open spec fn failure_rows<V>(rows: Seq<StreamRowView<V>>) -> Seq<int>
    decreases rows.len(),
{
    if rows.len() == 0 {
        Seq::empty()
    } else {
        match rows.last() {
            StreamRowView::Read(_) => failure_rows(rows.drop_last()),
            StreamRowView::Malformed(_) => failure_rows(rows.drop_last()).push(rows.len() - 1),
        }
    }
}

/// Each malformed row has exactly one failure, recorded under the row's
/// index, and each failure is that of a malformed row: `failure_rows` lists
/// the indices of the malformed rows in rising order, it holds the index of
/// every malformed row, and the failure at position `k` is that of the row
/// at `failure_rows(rows)[k]`.
pub proof fn lemma_one_failure_per_malformed_row<V>(stage: ImportStage, rows: Seq<StreamRowView<V>>)
    ensures
        failure_rows(rows).len() == failures_of(stage, rows).len(),
        forall|k: int|
            0 <= k < failure_rows(rows).len() ==> {
                let i = #[trigger] failure_rows(rows)[k];
                &&& 0 <= i < rows.len()
                &&& rows[i] matches StreamRowView::Malformed(detail) && failures_of(stage, rows)[k]
                    == failed_row(stage, i, detail)
            },
        forall|k: int, l: int|
            0 <= k < l < failure_rows(rows).len() ==> failure_rows(rows)[k] < failure_rows(rows)[l],
        forall|i: int|
            0 <= i < rows.len() && (#[trigger] rows[i]) is Malformed ==> failure_rows(
                rows,
            ).contains(i),
    decreases rows.len(),
{
    if rows.len() > 0 {
        let shorter = rows.drop_last();
        lemma_one_failure_per_malformed_row(stage, shorter);
        let found = failure_rows(rows);
        assert forall|i: int| 0 <= i < rows.len() && (#[trigger] rows[i]) is Malformed implies found.contains(
            i,
        ) by {
            if i < rows.len() - 1 {
                assert(shorter[i] == rows[i]);
                assert(failure_rows(shorter).contains(i));
                let k = choose|k: int|
                    0 <= k < failure_rows(shorter).len() && failure_rows(shorter)[k] == i;
                assert(found[k] == i);
            } else {
                assert(found[found.len() - 1] == i);
            }
        }
        assert forall|k: int| 0 <= k < found.len() implies {
            let i = #[trigger] found[k];
            &&& 0 <= i < rows.len()
            &&& rows[i] matches StreamRowView::Malformed(detail) && failures_of(stage, rows)[k]
                == failed_row(stage, i, detail)
        } by {
            if k < failure_rows(shorter).len() {
                let i = failure_rows(shorter)[k];
                assert(shorter[i] == rows[i]);
            }
        }
    }
}

/// Where a draft has the key, the first draft with it is found.
proof fn lemma_first_with_key(media: Seq<ImportOrExportMediaItemView>, key: Seq<char>)
    requires
        has_key(media, key),
    ensures
        is_first_with_key(media, key, first_with_key(media, key)),
{
    let some = choose|i: int| 0 <= i < media.len() && same_natural_key(media[i].source_id, key);
    lemma_least_with_key(media, key, some);
}

/// Below any draft with the key stands a first one.
proof fn lemma_least_with_key(media: Seq<ImportOrExportMediaItemView>, key: Seq<char>, i: int)
    requires
        0 <= i < media.len(),
        same_natural_key(media[i].source_id, key),
    ensures
        exists|k: int| is_first_with_key(media, key, k),
    decreases i,
{
    if exists|j: int| 0 <= j < i && same_natural_key(media[j].source_id, key) {
        let j = choose|j: int| 0 <= j < i && same_natural_key(media[j].source_id, key);
        lemma_least_with_key(media, key, j);
    } else {
        assert(is_first_with_key(media, key, i));
    }
}

/// A row keeps the drafts sound where the change that it makes keeps a
/// draft sound and under its key, and the draft that it creates is sound
/// and under the key of the row.
proof fn lemma_merged_is_sound(
    media: Seq<ImportOrExportMediaItemView>,
    key: Seq<char>,
    change: spec_fn(ImportOrExportMediaItemView) -> ImportOrExportMediaItemView,
    fresh: ImportOrExportMediaItemView,
)
    requires
        drafts_are_sound(media),
        forall|draft: ImportOrExportMediaItemView|
            draft_is_sound(draft) ==> draft_is_sound(#[trigger] change(draft)) && change(
                draft,
            ).source_id == draft.source_id,
        draft_is_sound(fresh),
        fresh.source_id == key,
    ensures
        drafts_are_sound(merged(media, key, change, fresh)),
{
    let after = merged(media, key, change, fresh);
    if has_key(media, key) {
        lemma_first_with_key(media, key);
        let k = first_with_key(media, key);
        assert(draft_is_sound(media[k]));
    }
    assert forall|i: int| 0 <= i < after.len() implies draft_is_sound(#[trigger] after[i]) by {
        if i < media.len() {
            assert(draft_is_sound(media[i]));
        }
    }
    assert forall|i: int, j: int| 0 <= i < j < after.len() implies !same_natural_key(
        (#[trigger] after[i]).source_id,
        (#[trigger] after[j]).source_id,
    ) by {
        assert(draft_is_sound(media[i]));
        if j < media.len() {
            assert(draft_is_sound(media[j]));
            assert(!same_natural_key(media[i].source_id, media[j].source_id));
        } else {
            assert(!same_natural_key(media[i].source_id, key));
        }
    }
}

/// Each step of an import keeps the drafts sound: a rating that comes in is
/// on the canonical scale, a comment leaves the ratings alone, and the
/// watchlist is added to a draft only where the draft is not on it.
proof fn lemma_steps_are_sound(media: Seq<ImportOrExportMediaItemView>)
    requires
        drafts_are_sound(media),
    ensures
        forall|record: RatingView| drafts_are_sound(#[trigger] rate(media, record)),
        forall|record: CommonView| drafts_are_sound(#[trigger] list(media, record)),
        forall|record: HistoryView| drafts_are_sound(#[trigger] watch(media, record)),
{
    assert forall|record: RatingView| drafts_are_sound(#[trigger] rate(media, record)) by {
        crate::decimal::lemma_clamped_is_canonical(record.user_rating, rating_multiplier());
        lemma_merged_is_sound(
            media,
            record.common.title,
            rate_change(record),
            rate_fresh(record),
        );
    }
    assert forall|record: CommonView| drafts_are_sound(#[trigger] list(media, record)) by {
        lemma_merged_is_sound(media, record.title, list_change(), list_fresh(record));
    }
    assert forall|record: HistoryView| drafts_are_sound(#[trigger] watch(media, record)) by {
        lemma_merged_is_sound(
            media,
            record.common.title,
            watch_change(record),
            watch_fresh(record),
        );
    }
}

/// The drafts of an import have distinct natural keys, every rating among
/// them lies on the canonical scale, and the collections of each are a set,
/// whatever the streams hold.
pub proof fn lemma_import_is_sound(input: DeployMovaryImportInputView)
    ensures
        keys_are_distinct(spec_import_media(input)),
        ratings_are_canonical(spec_import_media(input)),
        collections_are_sets(spec_import_media(input)),
{
    let sound = |media: Seq<ImportOrExportMediaItemView>| drafts_are_sound(media);
    assert forall|before: Seq<ImportOrExportMediaItemView>| #[trigger] sound(before) implies (
    forall|record: RatingView| sound(#[trigger] rate_step()(before, record))) && (forall|
        record: CommonView,
    | sound(#[trigger] list_step()(before, record))) && (forall|record: HistoryView|
        sound(#[trigger] watch_step()(before, record))) by {
        lemma_steps_are_sound(before);
    }
    let nothing = Seq::<ImportOrExportMediaItemView>::empty();
    assert(sound(nothing));
    lemma_run_keeps(nothing, records_of(input.ratings), rate_step(), sound);
    let rated = drafts_after(nothing, records_of(input.ratings), rate_step());
    lemma_run_keeps(rated, records_of(input.watchlist), list_step(), sound);
    let listed = drafts_after(rated, records_of(input.watchlist), list_step());
    lemma_run_keeps(listed, records_of(input.history), watch_step(), sound);
    let all = spec_import_media(input);
    assert(drafts_are_sound(all));
    assert forall|i: int| 0 <= i < all.len() implies has_canonical_ratings(#[trigger] all[i]) by {
        assert(draft_is_sound(all[i]));
    }
    assert forall|i: int| 0 <= i < all.len() implies (#[trigger] all[i]).collections.no_duplicates() by {
        assert(draft_is_sound(all[i]));
    }
}

/// Adds a new draft for the movie that a row names.
fn push_draft(
    media: &mut Vec<ImportOrExportMediaItem>,
    common: &Common,
    seen_history: Vec<ImportOrExportMediaItemSeen>,
    reviews: Vec<ImportOrExportItemRating>,
    collections: Vec<String>,
)
    ensures
        final(media).deep_view() == old(media).deep_view().push(
            new_draft(
                common.deep_view(),
                seen_history.deep_view(),
                reviews.deep_view(),
                collections.deep_view(),
            ),
        ),
{
    let draft = ImportOrExportMediaItem {
        source_id: common.title.clone(),
        lot: MediaLot::Movie,
        source: MediaSource::Tmdb,
        identifier: int_to_string(common.tmdb_id as i64),
        seen_history,
        reviews,
        collections,
    };
    media.push(draft);
    proof {
        assert(final(media).deep_view() =~= old(media).deep_view().push(draft.deep_view()));
    }
}

/// Takes a record of the ratings stream into the drafts.
fn import_rating(media: &mut Vec<ImportOrExportMediaItem>, record: &Rating)
    ensures
        final(media).deep_view() == rate(old(media).deep_view(), record.deep_view()),
{
    // Movary rates out of 10.
    let review = ImportOrExportItemRating {
        review: None,
        rating: Some(record.user_rating.to_canonical_scale(DecimalValue::whole(10))),
    };
    match find_by_natural_key(media, &record.common.title) {
        Some(i) => {
            let ghost before = media.deep_view();
            let ghost reviews = media@[i as int].reviews.deep_view();
            media[i].reviews.push(review);
            proof {
                assert(media@[i as int].reviews.deep_view() =~= reviews.push(review.deep_view()));
                assert(media.deep_view() =~= before.update(
                    i as int,
                    ImportOrExportMediaItemView {
                        reviews: reviews.push(review.deep_view()),
                        ..before[i as int]
                    },
                ));
            }
        },
        None => {
            let mut reviews: Vec<ImportOrExportItemRating> = Vec::new();
            reviews.push(review);
            let seen_history: Vec<ImportOrExportMediaItemSeen> = Vec::new();
            let collections: Vec<String> = Vec::new();
            proof {
                assert(reviews.deep_view() =~= seq![review.deep_view()]);
                assert(seen_history.deep_view() =~= Seq::empty());
                assert(collections.deep_view() =~= Seq::empty());
            }
            push_draft(media, &record.common, seen_history, reviews, collections);
        },
    }
}

/// Takes a record of the watchlist stream into the drafts.
fn import_watchlist(media: &mut Vec<ImportOrExportMediaItem>, record: &Common)
    ensures
        final(media).deep_view() == list(old(media).deep_view(), record.deep_view()),
{
    let name = DefaultCollection::Watchlist.to_string();
    match find_by_natural_key(media, &record.title) {
        Some(i) => {
            let ghost before = media.deep_view();
            let ghost collections = media@[i as int].collections.deep_view();
            if !contains_text(&media[i].collections, &name) {
                media[i].collections.push(name);
                proof {
                    assert(media@[i as int].collections.deep_view() =~= collections.push(name@));
                }
            }
            proof {
                assert(media.deep_view() =~= before.update(
                    i as int,
                    ImportOrExportMediaItemView {
                        collections: with_collection(collections, name@),
                        ..before[i as int]
                    },
                ));
            }
        },
        None => {
            let reviews: Vec<ImportOrExportItemRating> = Vec::new();
            let seen_history: Vec<ImportOrExportMediaItemSeen> = Vec::new();
            let mut collections: Vec<String> = Vec::new();
            collections.push(name);
            proof {
                assert(reviews.deep_view() =~= Seq::empty());
                assert(seen_history.deep_view() =~= Seq::empty());
                assert(collections.deep_view() =~= seq![name@]);
            }
            push_draft(media, record, seen_history, reviews, collections);
        },
    }
}

/// Puts a comment into the review drafts of a movie.
fn add_comment(reviews: &mut Vec<ImportOrExportItemRating>, review: Option<ImportOrExportItemReview>)
    ensures
        final(reviews).deep_view() == with_comment(old(reviews).deep_view(), review.deep_view()),
{
    if review.is_some() {
        let ghost before = reviews.deep_view();
        let last = reviews.len();
        if last > 0 {
            reviews[last - 1].review = review;
            proof {
                assert(reviews.deep_view() =~= before.update(
                    last - 1,
                    ImportOrExportItemRatingView {
                        review: review.deep_view(),
                        rating: before.last().rating,
                    },
                ));
            }
        } else {
            let draft = ImportOrExportItemRating { review, rating: None };
            reviews.push(draft);
            proof {
                assert(reviews.deep_view() =~= before.push(draft.deep_view()));
            }
        }
    } else {
        proof {
            assert(reviews.deep_view() =~= old(reviews).deep_view());
        }
    }
}

/// Takes a record of the history stream into the drafts.
fn import_history(media: &mut Vec<ImportOrExportMediaItem>, record: &History)
    ensures
        final(media).deep_view() == watch(old(media).deep_view(), record.deep_view()),
{
    let watched_at = convert_naive_to_utc(record.watched_at);
    let seen_item = ImportOrExportMediaItemSeen {
        progress: None,
        started_on: None,
        ended_on: Some(watched_at.date_naive()),
        extra_information: None,
        provider_watched_on: Some(ImportSource::Movary.to_string()),
    };
    let review = match &record.comment {
        Some(text) => Some(
            ImportOrExportItemReview {
                visibility: None,
                date: Some(watched_at),
                spoiler: Some(false),
                text: Some(text.clone()),
            },
        ),
        None => None,
    };
    assert(seen_item.deep_view() == seen_draft(record.deep_view()));
    assert(review.deep_view() == comment_review(record.deep_view()));
    match find_by_natural_key(media, &record.common.title) {
        Some(i) => {
            let ghost before = media.deep_view();
            let ghost events = media@[i as int].seen_history.deep_view();
            let ghost reviews = media@[i as int].reviews.deep_view();
            add_comment(&mut media[i].reviews, review);
            media[i].seen_history.push(seen_item);
            proof {
                assert(media@[i as int].seen_history.deep_view() =~= events.push(
                    seen_item.deep_view(),
                ));
                assert(media.deep_view() =~= before.update(
                    i as int,
                    ImportOrExportMediaItemView {
                        seen_history: events.push(seen_item.deep_view()),
                        reviews: with_comment(reviews, review.deep_view()),
                        ..before[i as int]
                    },
                ));
            }
        },
        None => {
            let mut reviews: Vec<ImportOrExportItemRating> = Vec::new();
            proof {
                assert(reviews.deep_view() =~= Seq::empty());
            }
            add_comment(&mut reviews, review);
            let mut seen_history: Vec<ImportOrExportMediaItemSeen> = Vec::new();
            seen_history.push(seen_item);
            let collections: Vec<String> = Vec::new();
            proof {
                assert(seen_history.deep_view() =~= seq![seen_item.deep_view()]);
                assert(collections.deep_view() =~= Seq::empty());
            }
            push_draft(media, &record.common, seen_history, reviews, collections);
        },
    }
}

/// A record of one of the streams: it belongs to a stage, and it is taken
/// into the drafts by the step of that stage.
pub(crate) trait StreamRecord: DeepView + Sized {
    /// The stage whose stream holds records of this kind.
    spec fn stage() -> ImportStage;

    /// What a record of this kind does to the drafts.
    spec fn step() -> spec_fn(Seq<ImportOrExportMediaItemView>, Self::V) -> Seq<
        ImportOrExportMediaItemView,
    >;

    /// The stage whose stream holds records of this kind.
    fn stream_stage() -> (stage: ImportStage)
        ensures
            stage == Self::stage(),
    ;

    /// Takes the record into the drafts.
    fn take_in(&self, media: &mut Vec<ImportOrExportMediaItem>)
        ensures
            final(media).deep_view() == Self::step()(old(media).deep_view(), self.deep_view()),
    ;
}

impl StreamRecord for Rating {
    open spec fn stage() -> ImportStage {
        ImportStage::Ratings
    }

    open spec fn step() -> spec_fn(Seq<ImportOrExportMediaItemView>, RatingView) -> Seq<
        ImportOrExportMediaItemView,
    > {
        rate_step()
    }

    fn stream_stage() -> (stage: ImportStage) {
        ImportStage::Ratings
    }

    fn take_in(&self, media: &mut Vec<ImportOrExportMediaItem>) {
        import_rating(media, self)
    }
}

impl StreamRecord for Common {
    open spec fn stage() -> ImportStage {
        ImportStage::Watchlist
    }

    open spec fn step() -> spec_fn(Seq<ImportOrExportMediaItemView>, CommonView) -> Seq<
        ImportOrExportMediaItemView,
    > {
        list_step()
    }

    fn stream_stage() -> (stage: ImportStage) {
        ImportStage::Watchlist
    }

    fn take_in(&self, media: &mut Vec<ImportOrExportMediaItem>) {
        import_watchlist(media, self)
    }
}

impl StreamRecord for History {
    open spec fn stage() -> ImportStage {
        ImportStage::History
    }

    open spec fn step() -> spec_fn(Seq<ImportOrExportMediaItemView>, HistoryView) -> Seq<
        ImportOrExportMediaItemView,
    > {
        watch_step()
    }

    fn stream_stage() -> (stage: ImportStage) {
        ImportStage::History
    }

    fn take_in(&self, media: &mut Vec<ImportOrExportMediaItem>) {
        import_history(media, self)
    }
}

/// Records the malformed row at `index` of the stream of `stage` as one
/// more failure.
fn record_failure(
    failed_items: &mut Vec<ImportFailedItem>,
    stage: ImportStage,
    index: usize,
    error: &RowParseError,
)
    ensures
        final(failed_items).deep_view() == old(failed_items).deep_view().push(
            failed_row(stage, index as int, error.detail@),
        ),
{
    let failed = ImportFailedItem {
        lot: Some(MediaLot::Movie),
        step: ImportFailStep::InputTransformation,
        identifier: index_to_string(index),
        error: Some(stage.label_string().concat(error.detail.as_str())),
    };
    failed_items.push(failed);
    assert(final(failed_items).deep_view() =~= old(failed_items).deep_view().push(
        failed.deep_view(),
    ));
}

/// Takes the rows of one stream in stream order: records into the drafts,
/// malformed rows into the failures.
fn run_stream<T: StreamRecord>(
    media: &mut Vec<ImportOrExportMediaItem>,
    failed_items: &mut Vec<ImportFailedItem>,
    rows: &Vec<StreamRow<T>>,
)
    ensures
        final(media).deep_view() == drafts_after(
            old(media).deep_view(),
            records_of(rows.deep_view()),
            T::step(),
        ),
        final(failed_items).deep_view() == old(failed_items).deep_view() + failures_of(
            T::stage(),
            rows.deep_view(),
        ),
{
    let stage = T::stream_stage();
    let ghost start = media.deep_view();
    let ghost earlier = failed_items.deep_view();
    let ghost all = rows.deep_view();
    proof {
        assert(all.take(0) =~= Seq::empty());
        assert(earlier + Seq::empty() =~= earlier);
    }
    let mut idx: usize = 0;
    while idx < rows.len()
        invariant
            idx <= rows.len(),
            stage == T::stage(),
            all == rows.deep_view(),
            media.deep_view() == drafts_after(start, records_of(all.take(idx as int)), T::step()),
            failed_items.deep_view() == earlier + failures_of(stage, all.take(idx as int)),
        decreases rows.len() - idx,
    {
        proof {
            lemma_next_row(stage, all, idx as int);
        }
        match &rows[idx] {
            StreamRow::Read(record) => {
                proof {
                    lemma_next_record(
                        start,
                        records_of(all.take(idx as int)),
                        record.deep_view(),
                        T::step(),
                    );
                }
                record.take_in(media);
            },
            StreamRow::Malformed(error) => {
                let ghost before = failed_items.deep_view();
                record_failure(failed_items, stage, idx, error);
                assert(before.push(failed_row(stage, idx as int, error.detail@)) =~= earlier
                    + failures_of(stage, all.take(idx as int)).push(
                    failed_row(stage, idx as int, error.detail@),
                ));
            },
        }
        idx = idx + 1;
    }
    proof {
        assert(all.take(all.len() as int) =~= all);
    }
}

/// Runs one stage of an import on the stream that belongs to it.
fn run_stage(result: &mut ImportResult, stage: ImportStage, input: &DeployMovaryImportInput)
    ensures
        final(result).deep_view() == after_stage(old(result).deep_view(), stage, input.deep_view()),
{
    match stage {
        ImportStage::Ratings => run_stream(
            &mut result.media,
            &mut result.failed_items,
            &input.ratings,
        ),
        ImportStage::Watchlist => run_stream(
            &mut result.media,
            &mut result.failed_items,
            &input.watchlist,
        ),
        ImportStage::History => run_stream(
            &mut result.media,
            &mut result.failed_items,
            &input.history,
        ),
    }
}

/// Reconciles the streams of a Movary export into drafts of media items.
///
/// The stages run in their fixed order, ratings first, then the watchlist,
/// then the history, and each takes the rows of its stream in stream order.
/// A malformed row is recorded as a failure under its index in its stream,
/// and the rows after it are processed as if it had not been there. The
/// run always completes: what it hands over holds the drafts and the
/// failures side by side.
pub fn import(input: DeployMovaryImportInput) -> (result: ImportResult)
    ensures
        result.deep_view() == spec_import(input.deep_view()),
        result.deep_view().media == spec_import_media(input.deep_view()),
        result.deep_view().failed_items == spec_import_failures(input.deep_view()),
        keys_are_distinct(result.deep_view().media),
        ratings_are_canonical(result.deep_view().media),
        collections_are_sets(result.deep_view().media),
{
    let stages = ImportStage::sequence();
    let mut result = ImportResult { media: Vec::new(), failed_items: Vec::new() };
    proof {
        assert(result.media.deep_view() =~= Seq::empty());
        assert(result.failed_items.deep_view() =~= Seq::empty());
        assert(stages@.take(0) =~= Seq::empty());
    }
    let mut next: usize = 0;
    while next < stages.len()
        invariant
            next <= stages.len(),
            stages@ == ImportStage::order(),
            result.deep_view() == after_stages(
                nothing_imported(),
                stages@.take(next as int),
                input.deep_view(),
            ),
        decreases stages.len() - next,
    {
        proof {
            assert(stages@.take(next + 1).drop_last() =~= stages@.take(next as int));
        }
        run_stage(&mut result, stages[next], &input);
        next = next + 1;
    }
    proof {
        assert(stages@.take(stages.len() as int) =~= stages@);
        lemma_import_written_out(input.deep_view());
        lemma_import_is_sound(input.deep_view());
    }
    result
}

} // verus!
