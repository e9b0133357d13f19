//! One unit of work: a single track's fetch-and-enrich pipeline.

use vstd::prelude::*;
use crate::api::TrackInfo;
use crate::status::DownloadStatus;

verus! {

/// A download task. Created on submission, owned by the manager for its
/// lifetime, mutated only through the manager's state-transition
/// operations, and removed only by explicit eviction.
///
/// `unit_running` records that the task's execution unit holds one slot of
/// the concurrency gate: it is set exactly once when the task is promoted
/// and cleared exactly once when the unit exits, whatever the outcome.
#[derive(Debug, Clone)]
pub struct DownloadTask {
    pub id: u64,
    pub track_info: TrackInfo,
    pub output_path: String,
    pub status: DownloadStatus,
    /// Progress percentage, 0 to 100.
    pub progress: u8,
    pub error: Option<String>,
    /// Submission stamp (seconds since epoch as the caller measures it).
    pub created_at: u64,
    pub started_at: Option<u64>,
    pub completed_at: Option<u64>,
    /// Queue order: display position and embedded track number.
    pub order: u32,
    pub unit_running: bool,
}

impl DownloadTask {
    /// The per-task invariant: progress stays a percentage and reads 100
    /// exactly on the completed state.
    pub open spec fn wf(self) -> bool {
        &&& self.progress <= 100
        &&& (self.progress == 100 <==> self.status == DownloadStatus::Completed)
    }

    /// A task the promotion loop may start: queued, with no execution
    /// unit from before a retry holding its concurrency slot.
    pub open spec fn spec_eligible(self) -> bool {
        self.status == DownloadStatus::Pending && !self.unit_running
    }

    pub fn eligible(&self) -> (r: bool)
        ensures
            r == self.spec_eligible(),
    {
        matches!(self.status, DownloadStatus::Pending) && !self.unit_running
    }
}

/// Clones an optional string, field for field.
pub fn clone_opt_string(o: &Option<String>) -> (r: Option<String>)
    ensures
        r == *o,
{
    match o {
        Option::None => Option::None,
        Option::Some(s) => Option::Some(s.clone()),
    }
}

/// Clones an optional integer.
pub fn clone_opt_u32(o: &Option<u32>) -> (r: Option<u32>)
    ensures
        r == *o,
{
    match o {
        Option::None => Option::None,
        Option::Some(n) => Option::Some(*n),
    }
}

/// Clones an optional integer.
pub fn clone_opt_u64(o: &Option<u64>) -> (r: Option<u64>)
    ensures
        r == *o,
{
    match o {
        Option::None => Option::None,
        Option::Some(n) => Option::Some(*n),
    }
}

/// Copies a track reference with every field provably equal.
pub fn duplicate_track(t: &TrackInfo) -> (r: TrackInfo)
    ensures
        r == *t,
{
    TrackInfo {
        id: t.id.clone(),
        title: t.title.clone(),
        artist: t.artist.clone(),
        album: clone_opt_string(&t.album),
        duration: clone_opt_u64(&t.duration),
        year: clone_opt_u32(&t.year),
        genre: clone_opt_string(&t.genre),
        thumbnail_url: clone_opt_string(&t.thumbnail_url),
        source: t.source.clone(),
        url: t.url.clone(),
        isrc: clone_opt_string(&t.isrc),
        album_artist: clone_opt_string(&t.album_artist),
        track_number: clone_opt_u32(&t.track_number),
        disc_number: clone_opt_u32(&t.disc_number),
        composer: clone_opt_string(&t.composer),
        quality: clone_opt_string(&t.quality),
        format: clone_opt_string(&t.format),
    }
}

/// Copies a task with every field provably equal.
pub fn duplicate_task(t: &DownloadTask) -> (r: DownloadTask)
    ensures
        r == *t,
{
    DownloadTask {
        id: t.id,
        track_info: duplicate_track(&t.track_info),
        output_path: t.output_path.clone(),
        status: t.status,
        progress: t.progress,
        error: clone_opt_string(&t.error),
        created_at: t.created_at,
        started_at: clone_opt_u64(&t.started_at),
        completed_at: clone_opt_u64(&t.completed_at),
        order: t.order,
        unit_running: t.unit_running,
    }
}

} // verus!
