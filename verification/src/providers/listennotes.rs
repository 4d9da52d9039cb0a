//! Listen Notes, the catalogue of podcasts: what its answers mean, and how
//! the episodes of a podcast are gathered page by page.

use crate::decimal::DecimalValue;
use crate::enums::{MediaLot, MediaSource};
use crate::models::{
    MetadataDetails, MetadataFreeCreator, MetadataImageForMediaDetails, MetadataSearchItem,
    PartialMetadataWithoutId, PodcastEpisode, PodcastSpecifics, SearchDetails, SearchResults,
};
use crate::text::{decimal, int_to_string};
use crate::time::{convert_naive_to_utc, UtcInstant, SECONDS_PER_DAY};
use itertools::Itertools;
use std::collections::HashMap;
use vstd::prelude::*;
use vstd::string::StringExecFns;

verus! {

broadcast use vstd::std_specs::hash::group_hash_axioms;

/// How many hits a page of a search holds.
pub const PAGE_SIZE: i32 = 20;

/// Seconds in a minute.
pub const SECONDS_PER_MINUTE: i32 = 60;

/// What the service keeps between runs: the names of the genres by the
/// numbers that Listen Notes gives them.
#[derive(Debug)]
pub struct Settings {
    pub genres: HashMap<i32, String>,
}

/// A genre as Listen Notes lists it.
#[derive(Debug)]
pub struct ListennotesIdAndNamedObject {
    pub id: i32,
    pub name: String,
}

/// The answer of Listen Notes to a request for a podcast: the podcast and
/// one page of its episodes, oldest first. The episodes carry no number
/// yet, and their runtime is in seconds.
#[derive(Debug)]
pub struct Podcast {
    pub title: String,
    pub explicit_content: Option<bool>,
    pub description: Option<String>,
    pub listen_score: Option<DecimalValue>,
    pub id: String,
    pub publish_date: Option<UtcInstant>,
    pub publisher: Option<String>,
    pub image: Option<String>,
    pub episodes: Vec<PodcastEpisode>,
    pub genre_ids: Vec<i32>,
    pub total_episodes: usize,
}

/// A podcast that Listen Notes recommends beside another.
#[derive(Debug)]
pub struct Recommendation {
    pub id: String,
    pub title: String,
    pub thumbnail: Option<String>,
}

/// One hit of a search at Listen Notes.
#[derive(Debug)]
pub struct SearchPodcast {
    pub title_original: String,
    pub id: String,
    pub publish_date: Option<UtcInstant>,
    pub image: Option<String>,
}

/// The answer of Listen Notes to a search.
#[derive(Debug)]
pub struct SearchResponse {
    pub total: i32,
    pub results: Vec<SearchPodcast>,
    pub next_offset: Option<i32>,
}

/// Where the next page of episodes begins: after the last episode known,
/// given by the timestamp of its day and by its number.
#[derive(Clone, Copy, Debug, PartialEq, Eq, Structural)]
pub struct EpisodeCursor {
    pub next_pub_date: i64,
    pub episode_number: i32,
}

/// The episodes of a podcast as they are gathered page by page: those
/// known so far, how many the provider says there are, and whether a page
/// has come back without an episode.
#[derive(Debug)]
pub struct EpisodePages {
    specifics: PodcastSpecifics,
    stalled: bool,
}

/// [`EpisodePages`] in contracts.
pub struct EpisodePagesView {
    pub episodes: Seq<PodcastEpisode>,
    pub total_episodes: usize,
    pub stalled: bool,
}

/// What is sent along with a request for a podcast.
#[derive(Debug)]
pub struct EpisodesQuery {
    pub sort: String,
    pub next_episode_pub_date: String,
}

/// What is sent along with a search.
#[derive(Debug)]
pub struct SearchQuery {
    pub q: String,
    pub offset: i32,
    pub lot: String,
}

/// The Listen Notes service.
#[derive(Debug)]
pub struct ListennotesService {
    url: String,
    settings: Settings,
}

/// The names without those that occurred before: of names that repeat, the
/// first stays, and the order is kept.
pub open spec fn without_repeats(names: Seq<Seq<char>>) -> Seq<Seq<char>>
    decreases names.len(),
{
    if names.len() == 0 {
        Seq::empty()
    } else if names.drop_last().contains(names.last()) {
        without_repeats(names.drop_last())
    } else {
        without_repeats(names.drop_last()).push(names.last())
    }
}

/// The names of the genres with these numbers, in their order; a number
/// without a name is passed over.
pub open spec fn genre_names(ids: Seq<i32>, genres: Map<i32, String>) -> Seq<Seq<char>>
    decreases ids.len(),
{
    if ids.len() == 0 {
        Seq::empty()
    } else if genres.contains_key(ids.last()) {
        genre_names(ids.drop_last(), genres).push(genres[ids.last()]@)
    } else {
        genre_names(ids.drop_last(), genres)
    }
}

/// The genres by number as a list of them says: where a number is listed
/// twice, the later name stands.
pub open spec fn genres_by_id(listed: Seq<ListennotesIdAndNamedObject>) -> Map<i32, String>
    decreases listed.len(),
{
    if listed.len() == 0 {
        Map::empty()
    } else {
        genres_by_id(listed.drop_last()).insert(listed.last().id, listed.last().name)
    }
}

/// Seconds as whole minutes, rounded towards zero.
pub open spec fn whole_minutes(seconds: int) -> int {
    if seconds >= 0 {
        seconds / (SECONDS_PER_MINUTE as int)
    } else {
        -((-seconds) / (SECONDS_PER_MINUTE as int))
    }
}

/// The number of the episode at `index` of a page that follows the episode
/// numbered `episode_number`, or that is the first page.
pub open spec fn number_on_page(episode_number: Option<i32>, index: int) -> int {
    (match episode_number {
        Some(number) => number as int,
        None => 0,
    }) + index + 1
}

/// An episode of an answer as the tracker stores it: numbered, and its
/// runtime in minutes.
pub open spec fn stored_episode(episode: PodcastEpisode, number: int) -> PodcastEpisode {
    PodcastEpisode {
        number: number as i32,
        runtime: match episode.runtime {
            Some(seconds) => Some(whole_minutes(seconds as int) as i32),
            None => None,
        },
        ..episode
    }
}

/// Whether the episodes are numbered one after the other, the first of them
/// `after + 1`.
pub open spec fn numbered_after(episodes: Seq<PodcastEpisode>, after: int) -> bool {
    forall|i: int| 0 <= i < episodes.len() ==> (#[trigger] episodes[i]).number == after + i + 1
}

impl Settings {
    /// The settings that a list of genres gives.
    pub fn from_genres(listed: &Vec<ListennotesIdAndNamedObject>) -> (settings: Settings)
        ensures
            settings.genres@ == genres_by_id(listed@),
    {
        let mut genres: HashMap<i32, String> = HashMap::new();
        let mut i: usize = 0;
        while i < listed.len()
            invariant
                i <= listed.len(),
                genres@ == genres_by_id(listed@.take(i as int)),
            decreases listed.len() - i,
        {
            proof {
                assert(listed@.take(i + 1).drop_last() =~= listed@.take(i as int));
            }
            genres.insert(listed[i].id, listed[i].name.clone());
            i = i + 1;
        }
        proof {
            assert(listed@.take(listed.len() as int) =~= listed@);
        }
        Settings { genres }
    }
}

/// `itertools`: `Itertools::unique` on the names, collected again. The
/// adaptor hands on each name that has not come before and drops the
/// others, so the first of equal names stays and the order is kept.
#[verifier::external_body]
fn unique(names: Vec<String>) -> (kept: Vec<String>)
    ensures
        kept.deep_view() == without_repeats(names.deep_view()),
{
    names.into_iter().unique().collect()
}

/// Whether `details` is what the answer `podcast` of Listen Notes says of
/// a podcast, the genres being named by `genres` and the page of episodes
/// following the episode numbered `episode_number`.
pub open spec fn describes(
    details: MetadataDetails,
    podcast: Podcast,
    genres: Map<i32, String>,
    episode_number: Option<i32>,
) -> bool {
    &&& details.identifier == podcast.id
    &&& details.title == podcast.title
    &&& details.is_nsfw == podcast.explicit_content
    &&& details.description == podcast.description
    &&& details.lot == MediaLot::Podcast
    &&& details.source == MediaSource::Listennotes
    &&& match podcast.publisher {
        Some(publisher) => {
            &&& details.creators@.len() == 1
            &&& details.creators@[0].name == publisher
            &&& details.creators@[0].role@ == "Publishing"@
            &&& details.creators@[0].image is None
        },
        None => details.creators@.len() == 0,
    }
    &&& details.genres.deep_view() == without_repeats(genre_names(podcast.genre_ids@, genres))
    &&& match podcast.image {
        Some(image) => details.url_images@.len() == 1 && details.url_images@[0].image == image,
        None => details.url_images@.len() == 0,
    }
    &&& match podcast.publish_date {
        Some(published) => details.publish_year is Some && details.publish_year->0
            == published.spec_year(),
        None => details.publish_year is None,
    }
    &&& details.publish_date == match podcast.publish_date {
        Some(published) => Some(published.spec_date_naive()),
        None => None,
    }
    &&& details.podcast_specifics matches Some(specifics) && {
        &&& specifics.total_episodes == podcast.total_episodes
        &&& specifics.episodes@.len() == podcast.episodes@.len()
        &&& forall|i: int|
            0 <= i < podcast.episodes@.len() ==> #[trigger] specifics.episodes@[i]
                == stored_episode(podcast.episodes@[i], number_on_page(episode_number, i))
    }
    &&& details.provider_rating == podcast.listen_score
    &&& details.suggestions@.len() == 0
}

/// Seconds as whole minutes, rounded towards zero.
fn to_minutes(seconds: i32) -> (minutes: i32)
    ensures
        minutes == whole_minutes(seconds as int),
{
    seconds / SECONDS_PER_MINUTE
}

/// Numbers the episodes of a page one after the other and turns their
/// runtime from seconds into minutes.
fn number_episodes(episodes: Vec<PodcastEpisode>, episode_number: Option<i32>) -> (stored: Vec<
    PodcastEpisode,
>)
    requires
        number_on_page(episode_number, episodes@.len() - 1) <= i32::MAX,
    ensures
        stored@.len() == episodes@.len(),
        forall|i: int|
            0 <= i < episodes@.len() ==> #[trigger] stored@[i] == stored_episode(
                episodes@[i],
                number_on_page(episode_number, i),
            ),
{
    let before: i32 = match episode_number {
        Some(number) => number,
        None => 0,
    };
    let mut stored = episodes;
    let mut idx: usize = 0;
    while idx < stored.len()
        invariant
            idx <= stored.len(),
            stored@.len() == episodes@.len(),
            before == number_on_page(episode_number, 0) - 1,
            number_on_page(episode_number, episodes@.len() - 1) <= i32::MAX,
            forall|i: int|
                0 <= i < idx ==> #[trigger] stored@[i] == stored_episode(
                    episodes@[i],
                    number_on_page(episode_number, i),
                ),
            forall|i: int| idx <= i < stored@.len() ==> #[trigger] stored@[i] == episodes@[i],
        decreases stored.len() - idx,
    {
        assert(idx < 0x1_0000_0000);
        let number: i32 = ((before as i64) + (idx as i64) + 1) as i32;
        let runtime = match stored[idx].runtime {
            Some(seconds) => Some(to_minutes(seconds)),  // the API responds in seconds
            None => None,
        };
        stored[idx].number = number;
        stored[idx].runtime = runtime;
        idx = idx + 1;
    }
    stored
}

impl ListennotesService {
    /// The service that asks at `url`, or at the address of Listen Notes
    /// where none is given, with the settings read or fetched before.
    pub fn new(url: Option<String>, settings: Settings) -> (service: Self)
        ensures
            service.url()@ == match url {
                Some(given) => given@,
                None => "https://listen-api.listennotes.com/api/v2"@,
            },
            service.genres() == settings.genres@,
    {
        let url = match url {
            Some(given) => given,
            None => "https://listen-api.listennotes.com/api/v2".to_owned(),
        };
        ListennotesService { url, settings }
    }

    /// The address at which the service asks.
    pub closed spec fn url(&self) -> String {
        self.url
    }

    /// The names of the genres by their numbers.
    pub closed spec fn genres(&self) -> Map<i32, String> {
        self.settings.genres@
    }

    /// The names of the genres with these numbers, each once.
    fn genres_of(&self, genre_ids: &Vec<i32>) -> (names: Vec<String>)
        ensures
            names.deep_view() == without_repeats(genre_names(genre_ids@, self.genres())),
    {
        let mut found: Vec<String> = Vec::new();
        let mut i: usize = 0;
        proof {
            assert(found.deep_view() =~= Seq::empty());
        }
        while i < genre_ids.len()
            invariant
                i <= genre_ids.len(),
                found.deep_view() == genre_names(genre_ids@.take(i as int), self.genres()),
            decreases genre_ids.len() - i,
        {
            proof {
                assert(genre_ids@.take(i + 1).drop_last() =~= genre_ids@.take(i as int));
            }
            match self.settings.genres.get(&genre_ids[i]) {
                Some(name) => {
                    let ghost before = found.deep_view();
                    found.push(name.clone());
                    proof {
                        assert(found.deep_view() =~= before.push(name@));
                    }
                },
                None => {},
            }
            i = i + 1;
        }
        proof {
            assert(genre_ids@.take(genre_ids.len() as int) =~= genre_ids@);
        }
        unique(found)
    }

    /// Turns the answer of Listen Notes to a request for a podcast into the
    /// details of the podcast.
    ///
    /// The API does not return all the episodes of a podcast: it has to be
    /// asked page by page. It does not number the episodes either, so the
    /// episodes of a page are numbered here, from the number that follows
    /// `episode_number`, the number of the last episode of the page before.
    pub fn details_with_paginated_episodes(
        &self,
        podcast_data: Podcast,
        episode_number: Option<i32>,
    ) -> (details: MetadataDetails)
        requires
            number_on_page(episode_number, podcast_data.episodes@.len() - 1) <= i32::MAX,
        ensures
            describes(details, podcast_data, self.genres(), episode_number),
            details.podcast_specifics matches Some(specifics) && numbered_after(
                specifics.episodes@,
                number_on_page(episode_number, 0) - 1,
            ),
    {
        let mut creators: Vec<MetadataFreeCreator> = Vec::new();
        match podcast_data.publisher {
            Some(publisher) => {
                creators.push(
                    MetadataFreeCreator {
                        name: publisher,
                        role: "Publishing".to_owned(),
                        image: None,
                    },
                );
            },
            None => {},
        }
        let mut url_images: Vec<MetadataImageForMediaDetails> = Vec::new();
        match podcast_data.image {
            Some(image) => {
                url_images.push(MetadataImageForMediaDetails { image });
            },
            None => {},
        }
        let publish_year = match &podcast_data.publish_date {
            Some(published) => Some(published.year()),
            None => None,
        };
        let publish_date = match &podcast_data.publish_date {
            Some(published) => Some(published.date_naive()),
            None => None,
        };
        let genres = self.genres_of(&podcast_data.genre_ids);
        let episodes = number_episodes(podcast_data.episodes, episode_number);
        MetadataDetails {
            identifier: podcast_data.id,
            title: podcast_data.title,
            is_nsfw: podcast_data.explicit_content,
            description: podcast_data.description,
            lot: MediaLot::Podcast,
            source: MediaSource::Listennotes,
            creators,
            genres,
            url_images,
            publish_year,
            publish_date,
            podcast_specifics: Some(
                PodcastSpecifics { episodes, total_episodes: podcast_data.total_episodes },
            ),
            provider_rating: podcast_data.listen_score,
            suggestions: Vec::new(),
        }
    }
}

/// The episodes of an answer as the tracker stores them, the page
/// following the episode numbered `episode_number`.
pub open spec fn stored_page(episodes: Seq<PodcastEpisode>, episode_number: Option<i32>) -> Seq<
    PodcastEpisode,
> {
    Seq::new(
        episodes.len(),
        |i: int| stored_episode(episodes[i], number_on_page(episode_number, i)),
    )
}

impl View for EpisodePages {
    type V = EpisodePagesView;

    closed spec fn view(&self) -> EpisodePagesView {
        EpisodePagesView {
            episodes: self.specifics.episodes@,
            total_episodes: self.specifics.total_episodes,
            stalled: self.stalled,
        }
    }
}

impl EpisodePagesView {
    /// The gathering is over once as many episodes are known as the
    /// provider says there are, or once a page has come back empty.
    pub open spec fn is_done(self) -> bool {
        self.stalled || self.episodes.len() >= self.total_episodes
    }

    /// Where the next page begins, if one is to be asked for: after the
    /// last episode known, at midnight UTC of its day.
    pub open spec fn next_page(self) -> Option<EpisodeCursor> {
        if self.is_done() || self.episodes.len() == 0 {
            None
        } else {
            Some(
                EpisodeCursor {
                    next_pub_date: (self.episodes.last().publish_date.day() * SECONDS_PER_DAY) as i64,
                    episode_number: self.episodes.last().number,
                },
            )
        }
    }

    /// The state after a page: its episodes follow those known, and a page
    /// without episodes, or no page at all, ends the gathering.
    pub open spec fn add_page(self, page: Option<Seq<PodcastEpisode>>) -> EpisodePagesView {
        match page {
            Some(episodes) if episodes.len() > 0 => EpisodePagesView {
                episodes: self.episodes + episodes,
                ..self
            },
            _ => EpisodePagesView { stalled: true, ..self },
        }
    }

    /// How many pages may still be asked for at most.
    pub open spec fn pages_left(self) -> nat {
        if self.next_page() is None {
            0
        } else {
            (self.total_episodes - self.episodes.len()) as nat
        }
    }

    /// The state after a run of answers, each of them asked for at the
    /// cursor that the state before it gave and stored under the numbers
    /// that follow the cursor's. An answer that comes when no page was to
    /// be asked for is not taken.
    pub open spec fn gather(self, answers: Seq<Seq<PodcastEpisode>>) -> EpisodePagesView
        decreases answers.len(),
    {
        if answers.len() == 0 {
            self
        } else {
            let before = self.gather(answers.drop_last());
            match before.next_page() {
                Some(cursor) => before.add_page(
                    Some(stored_page(answers.last(), Some(cursor.episode_number))),
                ),
                None => before,
            }
        }
    }
}

/// Every page shortens what is left of the gathering: it brings episodes,
/// or it ends the gathering by bringing none. A provider that delivers
/// fewer episodes than it announced cannot keep the loop going.
pub proof fn lemma_every_page_counts(state: EpisodePagesView, page: Option<Seq<PodcastEpisode>>)
    requires
        state.next_page() is Some,
    ensures
        state.add_page(page).pages_left() < state.pages_left(),
        (page matches Some(episodes) ==> episodes.len() == 0) ==> state.add_page(page).next_page()
            is None,
{
}

/// The episodes gathered are numbered from 1 without a gap, whatever the
/// answers hold, as long as the numbers fit the type of the field.
pub proof fn lemma_gathered_episodes_are_numbered(
    state: EpisodePagesView,
    answers: Seq<Seq<PodcastEpisode>>,
)
    requires
        numbered_after(state.episodes, 0),
        forall|k: int|
            0 <= k < answers.len() ==> state.gather(answers.take(k)).episodes.len() + (
            #[trigger] answers[k]).len() <= i32::MAX,
    ensures
        numbered_after(state.gather(answers).episodes, 0),
    decreases answers.len(),
{
    if answers.len() > 0 {
        let shorter = answers.drop_last();
        assert forall|k: int| 0 <= k < shorter.len() implies state.gather(
            shorter.take(k),
        ).episodes.len() + (#[trigger] shorter[k]).len() <= i32::MAX by {
            assert(shorter.take(k) =~= answers.take(k));
            assert(shorter[k] == answers[k]);
        }
        lemma_gathered_episodes_are_numbered(state, shorter);
        let before = state.gather(shorter);
        assert(answers.take(answers.len() - 1) =~= shorter);
        assert(before.episodes.len() + answers[answers.len() - 1].len() <= i32::MAX);
        if before.next_page() is Some {
            let cursor = before.next_page()->0;
            let known = before.episodes.len() as int;
            assert(before.episodes[known - 1].number == known);
            let page = stored_page(answers.last(), Some(cursor.episode_number));
            let after = before.add_page(Some(page));
            assert forall|i: int| 0 <= i < after.episodes.len() implies (
            #[trigger] after.episodes[i]).number == i + 1 by {
                if i >= known && page.len() > 0 {
                    assert(after.episodes[i] == page[i - known]);
                }
            }
        }
    }
}

impl EpisodePages {
    /// Begins the gathering with the first page of episodes.
    pub fn start(first: PodcastSpecifics) -> (pages: Self)
        ensures
            pages@ == (EpisodePagesView {
                episodes: first.episodes@,
                total_episodes: first.total_episodes,
                stalled: first.episodes@.len() == 0,
            }),
    {
        let stalled = first.episodes.len() == 0;
        EpisodePages { specifics: first, stalled }
    }

    /// The cursor at which to ask for the next page, or `None` once the
    /// gathering is over.
    pub fn next_page(&self) -> (cursor: Option<EpisodeCursor>)
        ensures
            cursor == self@.next_page(),
            self@.stalled ==> cursor is None,
            cursor is Some ==> cursor->0.next_pub_date == self@.episodes.last().publish_date.day()
                * SECONDS_PER_DAY && cursor->0.episode_number == self@.episodes.last().number,
            cursor is Some && numbered_after(self@.episodes, 0) ==> cursor->0.episode_number
                == self@.episodes.len(),
    {
        let known = self.specifics.episodes.len();
        if self.stalled || known >= self.specifics.total_episodes || known == 0 {
            return None;
        }
        let last_episode = &self.specifics.episodes[known - 1];
        let next_pub_date = convert_naive_to_utc(last_episode.publish_date).timestamp();
        assert(self@.episodes.last() == *last_episode);
        assert(next_pub_date == last_episode.publish_date.day() * SECONDS_PER_DAY);
        Some(EpisodeCursor { next_pub_date, episode_number: last_episode.number })
    }

    /// Takes the page that came back for the last cursor. A page without
    /// episodes, or an answer without a page, ends the gathering.
    pub fn add_page(&mut self, page: Option<PodcastSpecifics>)
        ensures
            final(self)@ == old(self)@.add_page(
                match page {
                    Some(specifics) => Some(specifics.episodes@),
                    None => None,
                },
            ),
            old(self)@.next_page() is Some ==> final(self)@.pages_left() < old(self)@.pages_left(),
            numbered_after(old(self)@.episodes, 0) && (page matches Some(specifics)
                && numbered_after(specifics.episodes@, old(self)@.episodes.len() as int))
                ==> numbered_after(final(self)@.episodes, 0),
    {
        match page {
            Some(specifics) => {
                let mut specifics = specifics;
                if specifics.episodes.len() > 0 {
                    self.specifics.episodes.append(&mut specifics.episodes);
                } else {
                    self.stalled = true;
                }
            },
            None => {
                self.stalled = true;
            },
        }
    }

    /// Ends the gathering and hands over what was gathered.
    pub fn finish(self) -> (specifics: PodcastSpecifics)
        ensures
            specifics.episodes@ == self@.episodes,
            specifics.total_episodes == self@.total_episodes,
    {
        self.specifics
    }
}

impl ListennotesService {
    /// The address of a podcast.
    pub fn podcast_url(&self, identifier: &str) -> (address: String)
        ensures
            address@ == self.url()@ + "/podcasts/"@ + identifier@,
    {
        self.url.clone().concat("/podcasts/").concat(identifier)
    }

    /// The address of the recommendations that go with a podcast.
    pub fn recommendations_url(&self, identifier: &str) -> (address: String)
        ensures
            address@ == self.url()@ + "/podcasts/"@ + identifier@ + "/recommendations"@,
    {
        self.podcast_url(identifier).concat("/recommendations")
    }

    /// The address of the search.
    pub fn search_url(&self) -> (address: String)
        ensures
            address@ == self.url()@ + "/search"@,
    {
        self.url.clone().concat("/search")
    }

    /// What goes with a request for a podcast: the episodes are asked for
    /// oldest first, from the timestamp of the cursor on, or from the
    /// beginning.
    pub fn episodes_query(next_pub_date: Option<i64>) -> (query: EpisodesQuery)
        ensures
            query.sort@ == "oldest_first"@,
            query.next_episode_pub_date@ == match next_pub_date {
                Some(timestamp) => decimal(timestamp as int),
                None => "null"@,
            },
    {
        EpisodesQuery {
            sort: "oldest_first".to_owned(),
            next_episode_pub_date: match next_pub_date {
                Some(timestamp) => int_to_string(timestamp),
                None => "null".to_owned(),
            },
        }
    }

    /// Where the hits of a page of a search begin; pages count from 1, and
    /// the first is asked for where none is named.
    pub open spec fn search_offset(page: Option<i32>) -> int {
        (asked_page(page) - 1) * PAGE_SIZE
    }

    /// What goes with a search for podcasts.
    pub fn search_query(query: &str, page: Option<i32>) -> (sent: SearchQuery)
        requires
            i32::MIN <= Self::search_offset(page) <= i32::MAX,
        ensures
            sent.q@ == query@,
            sent.offset == Self::search_offset(page),
            sent.lot@ == "podcast"@,
    {
        let page: i32 = match page {
            Some(page) => page,
            None => 1,
        };
        let offset: i64 = (page as i64 - 1) * (PAGE_SIZE as i64);
        SearchQuery { q: query.to_owned(), offset: offset as i32, lot: "podcast".to_owned() }
    }

    /// The podcasts recommended beside a podcast, as media items without
    /// details.
    pub fn suggestions(&self, recommendations: Vec<Recommendation>) -> (suggested: Vec<
        PartialMetadataWithoutId,
    >)
        ensures
            suggested@.len() == recommendations@.len(),
            forall|i: int|
                0 <= i < recommendations@.len() ==> #[trigger] suggested@[i] == (
                PartialMetadataWithoutId {
                    title: recommendations@[i].title,
                    image: recommendations@[i].thumbnail,
                    identifier: recommendations@[i].id,
                    lot: MediaLot::Podcast,
                    source: MediaSource::Listennotes,
                    is_recommendation: None,
                }),
    {
        let mut suggested: Vec<PartialMetadataWithoutId> = Vec::new();
        let mut i: usize = 0;
        while i < recommendations.len()
            invariant
                i <= recommendations.len(),
                suggested@.len() == i,
                forall|j: int|
                    0 <= j < i ==> #[trigger] suggested@[j] == (PartialMetadataWithoutId {
                        title: recommendations@[j].title,
                        image: recommendations@[j].thumbnail,
                        identifier: recommendations@[j].id,
                        lot: MediaLot::Podcast,
                        source: MediaSource::Listennotes,
                        is_recommendation: None,
                    }),
            decreases recommendations.len() - i,
        {
            let recommended = &recommendations[i];
            suggested.push(
                PartialMetadataWithoutId {
                    title: recommended.title.clone(),
                    image: clone_text(&recommended.thumbnail),
                    identifier: recommended.id.clone(),
                    lot: MediaLot::Podcast,
                    source: MediaSource::Listennotes,
                    is_recommendation: None,
                },
            );
            i = i + 1;
        }
        suggested
    }

    /// Turns the answer of Listen Notes to a search into one page of hits.
    /// The page after this one exists where the answer names an offset to
    /// go on from.
    pub fn metadata_search(&self, search: SearchResponse, page: Option<i32>) -> (found: SearchResults<
        MetadataSearchItem,
    >)
        requires
            page matches Some(page) ==> page < i32::MAX,
        ensures
            found.details.total == search.total,
            match search.next_offset {
                Some(_) => found.details.next_page is Some && found.details.next_page->0
                    == asked_page(page) + 1,
                None => found.details.next_page is None,
            },
            found.items@.len() == search.results@.len(),
            forall|i: int|
                0 <= i < search.results@.len() ==> is_hit(
                    #[trigger] found.items@[i],
                    search.results@[i],
                ),
    {
        let page: i32 = match page {
            Some(page) => page,
            None => 1,
        };
        let next_page = match search.next_offset {
            Some(_) => Some(page + 1),
            None => None,
        };
        let mut items: Vec<MetadataSearchItem> = Vec::new();
        let mut i: usize = 0;
        while i < search.results.len()
            invariant
                i <= search.results.len(),
                items@.len() == i,
                forall|j: int| 0 <= j < i ==> is_hit(#[trigger] items@[j], search.results@[j]),
            decreases search.results.len() - i,
        {
            let hit = &search.results[i];
            items.push(
                MetadataSearchItem {
                    identifier: hit.id.clone(),
                    title: hit.title_original.clone(),
                    image: clone_text(&hit.image),
                    publish_year: match &hit.publish_date {
                        Some(published) => Some(published.year()),
                        None => None,
                    },
                },
            );
            i = i + 1;
        }
        SearchResults { details: SearchDetails { total: search.total, next_page }, items }
    }
}

/// The page of a search that is asked for: the first, where none is named.
pub open spec fn asked_page(page: Option<i32>) -> int {
    match page {
        Some(page) => page as int,
        None => 1,
    }
}

/// Whether `item` is the hit `hit` of a search as the tracker shows it.
pub open spec fn is_hit(item: MetadataSearchItem, hit: SearchPodcast) -> bool {
    &&& item.identifier == hit.id
    &&& item.title == hit.title_original
    &&& item.image == hit.image
    &&& match hit.publish_date {
        Some(published) => item.publish_year is Some && item.publish_year->0
            == published.spec_year(),
        None => item.publish_year is None,
    }
}

/// A copy of a text that may be missing.
fn clone_text(text: &Option<String>) -> (copy: Option<String>)
    ensures
        copy == *text,
{
    match text {
        Some(text) => Some(text.clone()),
        None => None,
    }
}

} // verus!
