//! Consumption status, the progress tracker, and what the catalogue shows
//! of a media item.

pub mod commit;
pub mod details;
pub mod resolver;

use vstd::prelude::*;

verus! {

/// How many media items a page of a listing holds.
pub const LIMIT: i32 = 20;

/// What a user's history says of one media item.
#[derive(Clone, Copy, Debug, PartialEq, Eq, Structural)]
pub enum SeenStatus {
    NotInDatabase,
    NotConsumed,
    CurrentlyUnderway,
    ConsumedAtLeastOnce,
}

} // verus!
