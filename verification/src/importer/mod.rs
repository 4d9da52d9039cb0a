//! Drafts of media items as an import builds them, before anything is
//! committed to storage.

pub mod movary;

use crate::decimal::DecimalValue;
use crate::entities::SeenExtraInformation;
use crate::enums::{MediaLot, MediaSource, Visibility};
use crate::time::{CalendarDate, UtcInstant};
use vstd::prelude::*;

verus! {

/// The step of an import at which an item failed.
#[derive(Clone, Copy, Debug, PartialEq, Eq, Structural)]
pub enum ImportFailStep {
    ItemDetailsFromSource,
    MediaDetailsFromProvider,
    InputTransformation,
    SeenHistoryConversion,
    ReviewConversion,
}

/// Why a row of a stream holds no record: it could not be decoded, or a
/// field that every record has is missing. `detail` is what the reader said.
#[derive(Debug)]
pub struct RowParseError {
    pub detail: String,
}

/// One row of a stream as it was read: the record it holds, or the reason
/// why it holds none.
#[derive(Debug)]
pub enum StreamRow<T> {
    Read(T),
    Malformed(RowParseError),
}

/// An item that an import could not take over.
#[derive(Debug)]
pub struct ImportFailedItem {
    pub lot: Option<MediaLot>,
    pub step: ImportFailStep,
    pub identifier: String,
    pub error: Option<String>,
}

/// The written part of a review.
#[derive(Debug)]
pub struct ImportOrExportItemReview {
    pub visibility: Option<Visibility>,
    pub date: Option<UtcInstant>,
    pub spoiler: Option<bool>,
    pub text: Option<String>,
}

/// A draft of a review: a rating on the canonical scale, a text, or both.
#[derive(Debug)]
pub struct ImportOrExportItemRating {
    pub review: Option<ImportOrExportItemReview>,
    pub rating: Option<DecimalValue>,
}

/// A draft of a consumption event.
#[derive(Debug)]
pub struct ImportOrExportMediaItemSeen {
    pub progress: Option<i32>,
    pub started_on: Option<CalendarDate>,
    pub ended_on: Option<CalendarDate>,
    pub extra_information: Option<SeenExtraInformation>,
    pub provider_watched_on: Option<String>,
}

/// A draft of a media item with what the import knows of it. `source_id` is
/// the natural key by which rows of different streams find the same draft.
#[derive(Debug)]
pub struct ImportOrExportMediaItem {
    pub source_id: String,
    pub lot: MediaLot,
    pub source: MediaSource,
    pub identifier: String,
    pub seen_history: Vec<ImportOrExportMediaItemSeen>,
    pub reviews: Vec<ImportOrExportItemRating>,
    pub collections: Vec<String>,
}

/// What an import run hands over: the drafts, and the items that failed.
#[derive(Debug)]
pub struct ImportResult {
    pub media: Vec<ImportOrExportMediaItem>,
    pub failed_items: Vec<ImportFailedItem>,
}

/// How many drafts and how many failures an import run produced.
#[derive(Clone, Copy, Debug, PartialEq, Eq, Structural)]
pub struct ImportSummary {
    pub imported: usize,
    pub failed: usize,
}

/// [`StreamRow`] in contracts.
pub enum StreamRowView<V> {
    Read(V),
    Malformed(Seq<char>),
}

/// [`ImportFailedItem`] in contracts.
pub struct ImportFailedItemView {
    pub lot: Option<MediaLot>,
    pub step: ImportFailStep,
    pub identifier: Seq<char>,
    pub error: Option<Seq<char>>,
}

/// [`ImportOrExportItemReview`] in contracts.
pub struct ImportOrExportItemReviewView {
    pub visibility: Option<Visibility>,
    pub date: Option<UtcInstant>,
    pub spoiler: Option<bool>,
    pub text: Option<Seq<char>>,
}

/// [`ImportOrExportItemRating`] in contracts.
pub struct ImportOrExportItemRatingView {
    pub review: Option<ImportOrExportItemReviewView>,
    pub rating: Option<DecimalValue>,
}

/// [`ImportOrExportMediaItemSeen`] in contracts.
pub struct ImportOrExportMediaItemSeenView {
    pub progress: Option<i32>,
    pub started_on: Option<CalendarDate>,
    pub ended_on: Option<CalendarDate>,
    pub extra_information: Option<SeenExtraInformation>,
    pub provider_watched_on: Option<Seq<char>>,
}

/// [`ImportOrExportMediaItem`] in contracts.
pub struct ImportOrExportMediaItemView {
    pub source_id: Seq<char>,
    pub lot: MediaLot,
    pub source: MediaSource,
    pub identifier: Seq<char>,
    pub seen_history: Seq<ImportOrExportMediaItemSeenView>,
    pub reviews: Seq<ImportOrExportItemRatingView>,
    pub collections: Seq<Seq<char>>,
}

/// [`ImportResult`] in contracts.
pub struct ImportResultView {
    pub media: Seq<ImportOrExportMediaItemView>,
    pub failed_items: Seq<ImportFailedItemView>,
}

impl<T: DeepView> DeepView for StreamRow<T> {
    type V = StreamRowView<T::V>;

    open spec fn deep_view(&self) -> StreamRowView<T::V> {
        match self {
            StreamRow::Read(record) => StreamRowView::Read(record.deep_view()),
            StreamRow::Malformed(error) => StreamRowView::Malformed(error.detail@),
        }
    }
}

impl DeepView for ImportFailedItem {
    type V = ImportFailedItemView;

    open spec fn deep_view(&self) -> ImportFailedItemView {
        ImportFailedItemView {
            lot: self.lot,
            step: self.step,
            identifier: self.identifier@,
            error: self.error.deep_view(),
        }
    }
}

impl DeepView for ImportOrExportItemReview {
    type V = ImportOrExportItemReviewView;

    open spec fn deep_view(&self) -> ImportOrExportItemReviewView {
        ImportOrExportItemReviewView {
            visibility: self.visibility,
            date: self.date,
            spoiler: self.spoiler,
            text: self.text.deep_view(),
        }
    }
}

impl DeepView for ImportOrExportItemRating {
    type V = ImportOrExportItemRatingView;

    open spec fn deep_view(&self) -> ImportOrExportItemRatingView {
        ImportOrExportItemRatingView { review: self.review.deep_view(), rating: self.rating }
    }
}

impl DeepView for ImportOrExportMediaItemSeen {
    type V = ImportOrExportMediaItemSeenView;

    open spec fn deep_view(&self) -> ImportOrExportMediaItemSeenView {
        ImportOrExportMediaItemSeenView {
            progress: self.progress,
            started_on: self.started_on,
            ended_on: self.ended_on,
            extra_information: self.extra_information,
            provider_watched_on: self.provider_watched_on.deep_view(),
        }
    }
}

impl DeepView for ImportOrExportMediaItem {
    type V = ImportOrExportMediaItemView;

    open spec fn deep_view(&self) -> ImportOrExportMediaItemView {
        ImportOrExportMediaItemView {
            source_id: self.source_id@,
            lot: self.lot,
            source: self.source,
            identifier: self.identifier@,
            seen_history: self.seen_history.deep_view(),
            reviews: self.reviews.deep_view(),
            collections: self.collections.deep_view(),
        }
    }
}

impl DeepView for ImportResult {
    type V = ImportResultView;

    open spec fn deep_view(&self) -> ImportResultView {
        ImportResultView {
            media: self.media.deep_view(),
            failed_items: self.failed_items.deep_view(),
        }
    }
}

impl ImportResult {
    /// How many drafts and how many failures the run produced.
    pub fn summary(&self) -> (counted: ImportSummary)
        ensures
            counted.imported == self.media@.len(),
            counted.failed == self.failed_items@.len(),
    {
        ImportSummary { imported: self.media.len(), failed: self.failed_items.len() }
    }
}

/// Whether two natural keys name the same media item. Titles are compared
/// as they are written; every lookup of a draft goes through this.
pub open spec fn same_natural_key(a: Seq<char>, b: Seq<char>) -> bool {
    a == b
}

/// Whether the draft at index `i` is the first with the natural key `key`.
pub open spec fn is_first_with_key(
    media: Seq<ImportOrExportMediaItemView>,
    key: Seq<char>,
    i: int,
) -> bool {
    &&& 0 <= i < media.len()
    &&& same_natural_key(media[i].source_id, key)
    &&& forall|j: int| 0 <= j < i ==> !same_natural_key((#[trigger] media[j]).source_id, key)
}

/// Whether some draft has the natural key `key`.
pub open spec fn has_key(media: Seq<ImportOrExportMediaItemView>, key: Seq<char>) -> bool {
    exists|i: int| 0 <= i < media.len() && same_natural_key((#[trigger] media[i]).source_id, key)
}

/// The index of the first draft with the natural key `key`, where there is
/// one.
pub open spec fn first_with_key(media: Seq<ImportOrExportMediaItemView>, key: Seq<char>) -> int {
    choose|i: int| is_first_with_key(media, key, i)
}

/// No two drafts share a natural key.
pub open spec fn keys_are_distinct(media: Seq<ImportOrExportMediaItemView>) -> bool {
    forall|i: int, j: int|
        0 <= i < j < media.len() ==> !same_natural_key(
            (#[trigger] media[i]).source_id,
            (#[trigger] media[j]).source_id,
        )
}

/// At most one index is that of the first draft with a key.
pub proof fn lemma_first_with_key_is_unique(
    media: Seq<ImportOrExportMediaItemView>,
    key: Seq<char>,
    i: int,
    j: int,
)
    requires
        is_first_with_key(media, key, i),
        is_first_with_key(media, key, j),
    ensures
        i == j,
{
}

/// Compares two natural keys.
pub fn natural_key_matches(a: &String, b: &String) -> (same: bool)
    ensures
        same == same_natural_key(a@, b@),
{
    *a == *b
}

/// Looks up the draft with the natural key `key`.
pub fn find_by_natural_key(media: &Vec<ImportOrExportMediaItem>, key: &String) -> (found: Option<
    usize,
>)
    ensures
        found is Some <==> has_key(media.deep_view(), key@),
        found matches Some(i) ==> is_first_with_key(media.deep_view(), key@, i as int) && i
            == first_with_key(media.deep_view(), key@),
{
    let mut i: usize = 0;
    while i < media.len()
        invariant
            i <= media.len(),
            forall|j: int|
                0 <= j < i ==> !same_natural_key(
                    (#[trigger] media.deep_view()[j]).source_id,
                    key@,
                ),
        decreases media.len() - i,
    {
        if natural_key_matches(&media[i].source_id, key) {
            proof {
                assert(media.deep_view()[i as int].source_id == media@[i as int].source_id@);
                assert(is_first_with_key(media.deep_view(), key@, i as int));
                lemma_first_with_key_is_unique(
                    media.deep_view(),
                    key@,
                    i as int,
                    first_with_key(media.deep_view(), key@),
                );
            }
            return Some(i);
        }
        i = i + 1;
    }
    None
}

} // verus!
