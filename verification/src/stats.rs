//! Counts of the stored content.

use vstd::prelude::*;

verus! {

/// How many photos, models and videos are stored.
#[derive(Clone, Copy, Debug, PartialEq, Eq, Structural)]
pub struct Stats {
    pub photos_count: u64,
    pub models_count: u64,
    pub videos_count: u64,
}

/// A count that could not be obtained is reported as zero.
pub open spec fn count_or_zero(count: Option<u64>) -> u64 {
    match count {
        Some(n) => n,
        None => 0,
    }
}

/// Puts the three counts together. Each argument is what the store answered
/// for one collection, `None` where the query failed.
pub fn get_stats(photos: Option<u64>, models: Option<u64>, videos: Option<u64>) -> (s: Stats)
    ensures
        s.photos_count == count_or_zero(photos),
        s.models_count == count_or_zero(models),
        s.videos_count == count_or_zero(videos),
{
    Stats {
        photos_count: photos.unwrap_or(0),
        models_count: models.unwrap_or(0),
        videos_count: videos.unwrap_or(0),
    }
}

} // verus!
