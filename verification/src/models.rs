//! What a provider tells of a media item, in the shape that the tracker
//! stores.

use crate::decimal::DecimalValue;
use crate::enums::{MediaLot, MediaSource};
use crate::time::CalendarDate;
use vstd::prelude::*;

verus! {

/// One episode of a podcast. `number` counts the episodes of the podcast
/// from 1, oldest first; `runtime` is in minutes.
#[derive(Debug)]
pub struct PodcastEpisode {
    pub number: i32,
    pub id: String,
    pub runtime: Option<i32>,
    pub overview: Option<String>,
    pub title: String,
    pub publish_date: CalendarDate,
    pub thumbnail: Option<String>,
}

/// The episodes of a podcast that are known, and how many the provider says
/// there are.
#[derive(Debug)]
pub struct PodcastSpecifics {
    pub episodes: Vec<PodcastEpisode>,
    pub total_episodes: usize,
}

/// Someone who had a part in a media item and has no record of their own.
#[derive(Debug)]
pub struct MetadataFreeCreator {
    pub name: String,
    pub role: String,
    pub image: Option<String>,
}

/// An image of a media item, by its address.
#[derive(Debug)]
pub struct MetadataImageForMediaDetails {
    pub image: String,
}

/// A media item that a provider names without giving its details.
#[derive(Debug)]
pub struct PartialMetadataWithoutId {
    pub title: String,
    pub image: Option<String>,
    pub identifier: String,
    pub lot: MediaLot,
    pub source: MediaSource,
    pub is_recommendation: Option<bool>,
}

/// The details of a media item as a provider gives them.
#[derive(Debug)]
pub struct MetadataDetails {
    pub identifier: String,
    pub title: String,
    pub is_nsfw: Option<bool>,
    pub description: Option<String>,
    pub lot: MediaLot,
    pub source: MediaSource,
    pub creators: Vec<MetadataFreeCreator>,
    pub genres: Vec<String>,
    pub url_images: Vec<MetadataImageForMediaDetails>,
    pub publish_year: Option<i32>,
    pub publish_date: Option<CalendarDate>,
    pub podcast_specifics: Option<PodcastSpecifics>,
    pub provider_rating: Option<DecimalValue>,
    pub suggestions: Vec<PartialMetadataWithoutId>,
}

/// One hit of a search at a provider.
#[derive(Debug)]
pub struct MetadataSearchItem {
    pub identifier: String,
    pub title: String,
    pub image: Option<String>,
    pub publish_year: Option<i32>,
}

/// How many hits a search has, and the page that follows this one.
#[derive(Clone, Copy, Debug, PartialEq, Eq, Structural)]
pub struct SearchDetails {
    pub total: i32,
    pub next_page: Option<i32>,
}

/// One page of the hits of a search.
#[derive(Debug)]
pub struct SearchResults<T> {
    pub details: SearchDetails,
    pub items: Vec<T>,
}

} // verus!
