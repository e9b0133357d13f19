//! The download manager: task queue, per-task state machine, and the
//! concurrency gate.
//!
//! All spec-level bookkeeping is expressed over the sequence view of the
//! task table. The central invariant (`wf`) ties the active-download
//! counter to the number of tasks whose execution unit holds a slot, and
//! caps it by the configured ceiling: the counter can neither leak nor go
//! negative, whatever order promotions and completions interleave in.

use vstd::prelude::*;
use vstd::pervasive::VecAdditionalExecFns;
use crate::api::TrackInfo;
use crate::errors::AppError;
use crate::status::{can_step, DownloadStatus};
use crate::task::{duplicate_task, DownloadTask};

verus! {

/// What `add_download` reports: either the destination already holds a
/// valid copy of the track (idempotent re-submission; no task is created)
/// or a new task was queued under the returned id.
#[derive(Debug, Clone, PartialEq, Eq, Structural)]
pub enum SubmitOutcome {
    AlreadyDownloaded,
    Queued(u64),
}

/// How many tasks currently hold a concurrency slot.
pub open spec fn count_units(s: Seq<DownloadTask>) -> nat
    decreases s.len(),
{
    if s.len() == 0 {
        0
    } else {
        count_units(s.drop_last()) + if s.last().unit_running {
            1nat
        } else {
            0nat
        }
    }
}

/// How many tasks the promotion loop could start right now.
pub open spec fn count_eligible(s: Seq<DownloadTask>) -> nat
    decreases s.len(),
{
    if s.len() == 0 {
        0
    } else {
        count_eligible(s.drop_last()) + if s.last().spec_eligible() {
            1nat
        } else {
            0nat
        }
    }
}

/// How many tasks carry the given status.
pub open spec fn count_status(s: Seq<DownloadTask>, st: DownloadStatus) -> nat
    decreases s.len(),
{
    if s.len() == 0 {
        0
    } else {
        count_status(s.drop_last(), st) + if s.last().status == st {
            1nat
        } else {
            0nat
        }
    }
}

proof fn lemma_count_units_update(s: Seq<DownloadTask>, i: int, t: DownloadTask)
    requires
        0 <= i < s.len(),
    ensures
        count_units(s.update(i, t)) == count_units(s) + (if t.unit_running {
            1int
        } else {
            0int
        }) - (if s[i].unit_running {
            1int
        } else {
            0int
        }),
    decreases s.len(),
{
    let s2 = s.update(i, t);
    if i == s.len() - 1 {
        assert(s2.drop_last() =~= s.drop_last());
    } else {
        assert(s2.drop_last() =~= s.drop_last().update(i, t));
        lemma_count_units_update(s.drop_last(), i, t);
    }
}

proof fn lemma_count_eligible_update(s: Seq<DownloadTask>, i: int, t: DownloadTask)
    requires
        0 <= i < s.len(),
    ensures
        count_eligible(s.update(i, t)) == count_eligible(s) + (if t.spec_eligible() {
            1int
        } else {
            0int
        }) - (if s[i].spec_eligible() {
            1int
        } else {
            0int
        }),
    decreases s.len(),
{
    let s2 = s.update(i, t);
    if i == s.len() - 1 {
        assert(s2.drop_last() =~= s.drop_last());
    } else {
        assert(s2.drop_last() =~= s.drop_last().update(i, t));
        lemma_count_eligible_update(s.drop_last(), i, t);
    }
}

proof fn lemma_count_units_push(s: Seq<DownloadTask>, t: DownloadTask)
    ensures
        count_units(s.push(t)) == count_units(s) + (if t.unit_running {
            1int
        } else {
            0int
        }),
{
    assert(s.push(t).drop_last() =~= s);
}

proof fn lemma_count_units_remove(s: Seq<DownloadTask>, i: int)
    requires
        0 <= i < s.len(),
        !s[i].unit_running,
    ensures
        count_units(s.remove(i)) == count_units(s),
    decreases s.len(),
{
    if i == s.len() - 1 {
        assert(s.remove(i) =~= s.drop_last());
    } else {
        assert(s.remove(i).drop_last() =~= s.drop_last().remove(i));
        assert(s.remove(i).last() == s.last());
        lemma_count_units_remove(s.drop_last(), i);
    }
}

/// A table with no eligible task counts zero eligibles.
proof fn lemma_count_eligible_zero(s: Seq<DownloadTask>)
    requires
        forall|i: int| 0 <= i < s.len() ==> !s[i].spec_eligible(),
    ensures
        count_eligible(s) == 0,
    decreases s.len(),
{
    if s.len() > 0 {
        lemma_count_eligible_zero(s.drop_last());
    }
}

/// The download manager. It owns the task table for the tasks' whole
/// lifetime; all mutation goes through its state-transition operations.
pub struct DownloadManager {
    pub tasks: Vec<DownloadTask>,
    pub active_count: usize,
    pub max_concurrent: usize,
    pub next_id: u64,
}

impl DownloadManager {
    /// The queue invariant: the active counter equals the number of
    /// slot-holding tasks and never exceeds the ceiling; every task is
    /// well formed; ids are strictly increasing in submission order.
    pub open spec fn wf(self) -> bool {
        &&& self.active_count == count_units(self.tasks@)
        &&& self.active_count <= self.max_concurrent
        &&& forall|i: int| 0 <= i < self.tasks@.len() ==> (#[trigger] self.tasks@[i]).wf()
        &&& forall|i: int| 0 <= i < self.tasks@.len() ==> (#[trigger] self.tasks@[i]).id < self.next_id
        &&& forall|i: int, j: int|
            0 <= i < j < self.tasks@.len() ==> (#[trigger] self.tasks@[i]).id < (
            #[trigger] self.tasks@[j]).id
        &&& self.tasks@.len() <= 0xFFFF_FFFF
    }

    pub open spec fn spec_tasks(self) -> Seq<DownloadTask> {
        self.tasks@
    }

    pub open spec fn spec_active(self) -> nat {
        self.active_count as nat
    }

    pub open spec fn spec_max_concurrent(self) -> nat {
        self.max_concurrent as nat
    }

    /// Every task either kept its status or moved along one edge of the
    /// state machine in §status.
    pub open spec fn stepped_from(self, o: DownloadManager) -> bool {
        &&& self.tasks@.len() == o.tasks@.len()
        &&& forall|i: int|
            0 <= i < self.tasks@.len() ==> (self.tasks@[i].status == o.tasks@[i].status
                || can_step(o.tasks@[i].status, (#[trigger] self.tasks@[i]).status))
    }

    pub fn new(max_concurrent: usize) -> (r: DownloadManager)
        ensures
            r.wf(),
            r.spec_tasks().len() == 0,
            r.spec_active() == 0,
            r.spec_max_concurrent() == max_concurrent,
    {
        DownloadManager {
            tasks: Vec::new(),
            active_count: 0,
            max_concurrent,
            next_id: 0,
        }
    }

    pub fn max_concurrent(&self) -> (r: usize)
        ensures
            r == self.spec_max_concurrent(),
    {
        self.max_concurrent
    }

    pub fn active_count(&self) -> (r: usize)
        ensures
            r == self.spec_active(),
    {
        self.active_count
    }

    pub fn task_count(&self) -> (r: usize)
        ensures
            r == self.spec_tasks().len(),
    {
        self.tasks.len()
    }

    /// Finds the table index of the task with the given id.
    fn find_index(&self, id: u64) -> (r: Option<usize>)
        requires
            self.wf(),
        ensures
            match r {
                Some(i) => i < self.tasks@.len() && self.tasks@[i as int].id == id,
                None => forall|i: int| 0 <= i < self.tasks@.len() ==> self.tasks@[i].id != id,
            },
    {
        let n = self.tasks.len();
        let mut i: usize = 0;
        while i < n
            invariant
                n == self.tasks@.len(),
                i <= n,
                forall|j: int| 0 <= j < i ==> self.tasks@[j].id != id,
            decreases n - i,
        {
            if self.tasks[i].id == id {
                return Some(i);
            }
            i = i + 1;
        }
        None
    }

    /// Submits a track for download. When the destination already holds a
    /// valid file (`dest_valid`, probed by the caller: the file exists,
    /// is non-trivially sized, and passes the audio-validity probe), the
    /// call is idempotent: it reports `AlreadyDownloaded`, creates no
    /// task, and leaves the queue untouched — however often it is
    /// repeated. Otherwise a fresh `Pending` task is appended.
    pub fn add_download_with_order(
        &mut self,
        track_info: TrackInfo,
        output_path: String,
        _auto_start: bool,
        order: u32,
        dest_valid: bool,
        now: u64,
    ) -> (r: SubmitOutcome)
        requires
            old(self).wf(),
            old(self).spec_tasks().len() < 0xFFFF_FFFF,
            old(self).next_id < u64::MAX,
        ensures
            final(self).wf(),
            dest_valid ==> r == SubmitOutcome::AlreadyDownloaded && final(self).spec_tasks() == old(
                self,
            ).spec_tasks() && final(self).spec_active() == old(self).spec_active() && final(self).next_id == old(self).next_id,
            !dest_valid ==> {
                &&& r == SubmitOutcome::Queued(old(self).next_id)
                &&& final(self).next_id == old(self).next_id + 1
                &&& final(self).spec_tasks().len() == old(self).spec_tasks().len() + 1
                &&& final(self).spec_tasks() =~= old(self).spec_tasks().push(
                    final(self).spec_tasks().last())
                &&& final(self).spec_tasks().last().status == DownloadStatus::Pending
                &&& final(self).spec_tasks().last().progress == 0
                &&& final(self).spec_tasks().last().error is None
                &&& final(self).spec_tasks().last().created_at == now
                &&& final(self).spec_tasks().last().started_at is None
                &&& final(self).spec_tasks().last().completed_at is None
                &&& final(self).spec_tasks().last().order == order
                &&& !final(self).spec_tasks().last().unit_running
                &&& final(self).spec_active() == old(self).spec_active()
            },
            final(self).spec_max_concurrent() == old(self).spec_max_concurrent(),
    {
        if dest_valid {
            return SubmitOutcome::AlreadyDownloaded;
        }
        let id = self.next_id;
        let task = DownloadTask {
            id,
            track_info,
            output_path,
            status: DownloadStatus::Pending,
            progress: 0,
            error: None,
            created_at: now,
            started_at: None,
            completed_at: None,
            order,
            unit_running: false,
        };
        proof {
            lemma_count_units_push(self.tasks@, task);
        }
        self.tasks.push(task);
        self.next_id = id + 1;
        SubmitOutcome::Queued(id)
    }

    /// Submits with automatic ordering disabled distinctions: order 0.
    pub fn add_download_with_auto_start(
        &mut self,
        track_info: TrackInfo,
        output_path: String,
        auto_start: bool,
        dest_valid: bool,
        now: u64,
    ) -> (r: SubmitOutcome)
        requires
            old(self).wf(),
            old(self).spec_tasks().len() < 0xFFFF_FFFF,
            old(self).next_id < u64::MAX,
        ensures
            final(self).wf(),
            dest_valid ==> r == SubmitOutcome::AlreadyDownloaded && final(self).spec_tasks() == old(
                self,
            ).spec_tasks(),
            !dest_valid ==> final(self).spec_tasks().len() == old(self).spec_tasks().len() + 1,
    {
        self.add_download_with_order(track_info, output_path, auto_start, 0, dest_valid, now)
    }

    /// Submits with auto-start assumed and order 0.
    pub fn add_download(
        &mut self,
        track_info: TrackInfo,
        output_path: String,
        dest_valid: bool,
        now: u64,
    ) -> (r: SubmitOutcome)
        requires
            old(self).wf(),
            old(self).spec_tasks().len() < 0xFFFF_FFFF,
            old(self).next_id < u64::MAX,
        ensures
            final(self).wf(),
            dest_valid ==> r == SubmitOutcome::AlreadyDownloaded && final(self).spec_tasks() == old(
                self,
            ).spec_tasks(),
            !dest_valid ==> final(self).spec_tasks().len() == old(self).spec_tasks().len() + 1,
    {
        self.add_download_with_order(track_info, output_path, true, 0, dest_valid, now)
    }
}


/// The task as promotion rewrites it: downloading, slot held, start stamped.
pub open spec fn spec_promoted(t: DownloadTask, now: u64) -> DownloadTask {
    DownloadTask {
        status: DownloadStatus::Downloading,
        started_at: Some(now),
        unit_running: true,
        ..t
    }
}

/// The task as the exit of its execution unit rewrites it. Only a task
/// still in `Downloading` takes the outcome; a task paused or cancelled
/// meanwhile keeps its status and merely releases its slot.
pub open spec fn spec_finished(
    t: DownloadTask,
    success: bool,
    error: Option<String>,
    now: u64,
) -> DownloadTask {
    if t.status == DownloadStatus::Downloading {
        if success {
            DownloadTask {
                status: DownloadStatus::Completed,
                progress: 100,
                completed_at: Some(now),
                unit_running: false,
                ..t
            }
        } else {
            DownloadTask {
                status: DownloadStatus::Failed,
                error: error,
                unit_running: false,
                ..t
            }
        }
    } else {
        DownloadTask { unit_running: false, ..t }
    }
}

impl DownloadManager {
    /// Promotes the earliest-created eligible task into `Downloading` and
    /// takes one concurrency slot for it, if capacity remains under the
    /// ceiling. Returns the promoted task's id, or `None` at the ceiling or
    /// no task is eligible. A task re-queued while an execution unit from
    /// its earlier run still holds a slot becomes eligible only once that
    /// unit exits.
    pub fn promote_one(&mut self, now: u64) -> (r: Option<u64>)
        requires
            old(self).wf(),
        ensures
            final(self).wf(),
            final(self).stepped_from(*old(self)),
            final(self).spec_max_concurrent() == old(self).spec_max_concurrent(),
            final(self).next_id == old(self).next_id,
            match r {
                None => *final(self) == *old(self) && (old(self).spec_active() >= old(
                    self,
                ).spec_max_concurrent() || count_eligible(old(self).spec_tasks()) == 0),
                Some(id) => {
                    &&& old(self).spec_active() < old(self).spec_max_concurrent()
                    &&& final(self).spec_active() == old(self).spec_active() + 1
                    &&& count_eligible(final(self).spec_tasks()) == count_eligible(
                        old(self).spec_tasks(),
                    ) - 1
                    &&& exists|i: int|
                        {
                            &&& 0 <= i < old(self).spec_tasks().len()
                            &&& (#[trigger] old(self).spec_tasks()[i]).spec_eligible()
                            &&& forall|j: int|
                                0 <= j < i ==> !(#[trigger] old(
                                    self,
                                ).spec_tasks()[j]).spec_eligible()
                            &&& id == old(self).spec_tasks()[i].id
                            &&& final(self).spec_tasks() =~= old(self).spec_tasks().update(
                                i,
                                spec_promoted(old(self).spec_tasks()[i], now),
                            )
                        }
                },
            },
    {
        if self.active_count >= self.max_concurrent {
            return None;
        }
        let ghost orig = *self;
        let n = self.tasks.len();
        let mut i: usize = 0;
        while i < n
            invariant
                *self == orig,
                orig == *old(self),
                orig.wf(),
                orig.active_count < orig.max_concurrent,
                n == self.tasks@.len(),
                i <= n,
                forall|j: int| 0 <= j < i ==> !(#[trigger] self.tasks@[j]).spec_eligible(),
            decreases n - i,
        {
            if self.tasks[i].eligible() {
                let updated = {
                    let mut u = duplicate_task(&self.tasks[i]);
                    u.status = DownloadStatus::Downloading;
                    u.started_at = Some(now);
                    u.unit_running = true;
                    u
                };
                let id = updated.id;
                proof {
                    assert(updated == spec_promoted(orig.spec_tasks()[i as int], now));
                    lemma_count_units_update(self.tasks@, i as int, updated);
                    lemma_count_eligible_update(self.tasks@, i as int, updated);
                }
                self.tasks.set(i, updated);
                self.active_count = self.active_count + 1;
                return Some(id);
            }
            i = i + 1;
        }
        proof {
            lemma_count_eligible_zero(self.tasks@);
        }
        None
    }

    /// Promotes pending tasks until the ceiling is reached or none is eligible.
    /// This is the manual queue kick: it ignores the auto-start flag.
    /// Afterwards either the ceiling is reached or no eligible task
    /// remains, and exactly the earliest-created eligible tasks were
    /// taken.
    pub fn process_queue(&mut self, now: u64) -> (n: usize)
        requires
            old(self).wf(),
        ensures
            final(self).wf(),
            final(self).stepped_from(*old(self)),
            final(self).spec_max_concurrent() == old(self).spec_max_concurrent(),
            final(self).next_id == old(self).next_id,
            n == final(self).spec_active() - old(self).spec_active(),
            final(self).spec_active() <= final(self).spec_max_concurrent(),
            final(self).spec_active() >= old(self).spec_active(),
            count_eligible(final(self).spec_tasks()) == count_eligible(old(self).spec_tasks()) - n,
            final(self).spec_active() == final(self).spec_max_concurrent() || count_eligible(
                final(self).spec_tasks(),
            ) == 0,
            forall|i: int|
                0 <= i < final(self).spec_tasks().len() ==> (#[trigger] final(self).spec_tasks()[i] == old(self).spec_tasks()[i] || (old(
                    self,
                ).spec_tasks()[i].spec_eligible() && final(self).spec_tasks()[i] == spec_promoted(
                    old(self).spec_tasks()[i],
                    now,
                ))),
    {
        let ghost orig = *self;
        let mut n: usize = 0;
        loop
            invariant
                self.wf(),
                orig.wf(),
                self.spec_max_concurrent() == orig.spec_max_concurrent(),
                self.next_id == orig.next_id,
                self.spec_tasks().len() == orig.spec_tasks().len(),
                n == self.spec_active() - orig.spec_active(),
                self.spec_active() >= orig.spec_active(),
                count_eligible(self.spec_tasks()) == count_eligible(orig.spec_tasks()) - n,
                forall|i: int|
                    0 <= i < self.spec_tasks().len() ==> (#[trigger] self.spec_tasks()[i]
                        == orig.spec_tasks()[i] || (orig.spec_tasks()[i].spec_eligible()
                        && self.spec_tasks()[i] == spec_promoted(orig.spec_tasks()[i], now))),
            ensures
                self.spec_active() == self.spec_max_concurrent() || count_eligible(
                    self.spec_tasks(),
                ) == 0,
            decreases count_eligible(self.spec_tasks()),
        {
            let ghost before = *self;
            match self.promote_one(now) {
                Some(_) => {
                    n = n + 1;
                    proof {
                        let i = choose|i: int|
                            {
                                &&& 0 <= i < before.spec_tasks().len()
                                &&& (#[trigger] before.spec_tasks()[i]).spec_eligible()
                                &&& forall|j: int|
                                    0 <= j < i ==> !(#[trigger] before.spec_tasks()[j]).spec_eligible()
                                &&& self.spec_tasks() =~= before.spec_tasks().update(
                                    i,
                                    spec_promoted(before.spec_tasks()[i], now),
                                )
                            };
                        assert(before.spec_tasks()[i] == orig.spec_tasks()[i]
                            || before.spec_tasks()[i] == spec_promoted(orig.spec_tasks()[i], now));
                        assert(self.spec_tasks()[i] == spec_promoted(orig.spec_tasks()[i], now));
                    }
                },
                None => {
                    break;
                },
            }
        }
        n
    }

    /// One tick of the background promotion loop. With auto-start off and
    /// nothing active, an idle queue does not self-start; manual starts
    /// pull the rest of a batch along.
    pub fn promotion_tick(&mut self, auto_start: bool, now: u64) -> (n: usize)
        requires
            old(self).wf(),
        ensures
            final(self).wf(),
            final(self).stepped_from(*old(self)),
            final(self).spec_max_concurrent() == old(self).spec_max_concurrent(),
            (!auto_start && old(self).spec_active() == 0) ==> *final(self) == *old(self) && n == 0,
            (auto_start || old(self).spec_active() > 0) ==> {
                &&& n == final(self).spec_active() - old(self).spec_active()
                &&& final(self).spec_active() == final(self).spec_max_concurrent()
                    || count_eligible(final(self).spec_tasks()) == 0
                &&& forall|i: int|
                    0 <= i < final(self).spec_tasks().len() ==> (#[trigger] final(self).spec_tasks()[i] == old(self).spec_tasks()[i] || (old(
                        self,
                    ).spec_tasks()[i].spec_eligible() && final(self).spec_tasks()[i]
                        == spec_promoted(old(self).spec_tasks()[i], now)))
            },
    {
        if !auto_start && self.active_count == 0 {
            return 0;
        }
        self.process_queue(now)
    }

    /// Records the exit of a task's execution unit, releasing its
    /// concurrency slot exactly once. A task still `Downloading` takes
    /// the outcome: `Completed` (progress 100, completion stamped) on
    /// success, `Failed` with the given error otherwise. A task paused or
    /// cancelled meanwhile keeps its status.
    pub fn finish_download(
        &mut self,
        id: u64,
        success: bool,
        error: Option<String>,
        now: u64,
    ) -> (r: Result<(), AppError>)
        requires
            old(self).wf(),
        ensures
            final(self).wf(),
            final(self).stepped_from(*old(self)),
            final(self).spec_max_concurrent() == old(self).spec_max_concurrent(),
            match r {
                Ok(()) => exists|i: int|
                    {
                        &&& 0 <= i < old(self).spec_tasks().len()
                        &&& (#[trigger] old(self).spec_tasks()[i]).id == id
                        &&& old(self).spec_tasks()[i].unit_running
                        &&& final(self).spec_tasks() =~= old(self).spec_tasks().update(
                            i,
                            spec_finished(old(self).spec_tasks()[i], success, error, now),
                        )
                        &&& final(self).spec_active() == old(self).spec_active() - 1
                    },
                Err(_) => *final(self) == *old(self) && (forall|i: int|
                    0 <= i < old(self).spec_tasks().len() ==> ((#[trigger] old(
                        self,
                    ).spec_tasks()[i]).id != id || !old(self).spec_tasks()[i].unit_running)),
            },
    {
        let found = self.find_index(id);
        match found {
            None => Err(AppError::NotFound(String::from_str("task not found"))),
            Some(i) => {
                if !self.tasks[i].unit_running {
                    return Err(
                        AppError::Download(String::from_str("task holds no concurrency slot")),
                    );
                }
                let updated = {
                    let mut u = duplicate_task(&self.tasks[i]);
                    if matches!(u.status, DownloadStatus::Downloading) {
                        if success {
                            u.status = DownloadStatus::Completed;
                            u.progress = 100;
                            u.completed_at = Some(now);
                        } else {
                            u.status = DownloadStatus::Failed;
                            u.error = error;
                        }
                    }
                    u.unit_running = false;
                    u
                };
                proof {
                    assert(updated == spec_finished(
                        old(self).spec_tasks()[i as int],
                        success,
                        error,
                        now,
                    ));
                    lemma_count_units_update(self.tasks@, i as int, updated);
                }
                self.tasks.set(i, updated);
                self.active_count = self.active_count - 1;
                Ok(())
            },
        }
    }
}


/// Aggregate queue statistics: counts by status and an integer success
/// rate in percent.
#[derive(Debug, Clone, PartialEq, Eq, Structural)]
pub struct AppStats {
    pub total_tasks: usize,
    pub completed_tasks: usize,
    pub failed_tasks: usize,
    pub downloading_tasks: usize,
    pub success_rate_percent: u64,
}

proof fn lemma_count_status_le_len(s: Seq<DownloadTask>, st: DownloadStatus)
    ensures
        count_status(s, st) <= s.len(),
    decreases s.len(),
{
    if s.len() > 0 {
        lemma_count_status_le_len(s.drop_last(), st);
    }
}

impl DownloadManager {
    /// Pauses a downloading task: a best-effort, cooperative signal
    /// (the caller also signals the active strategies). Only a
    /// `Downloading` task changes state; its execution unit keeps its
    /// slot until it actually exits. An unknown id is a silent no-op.
    pub fn pause_download(&mut self, id: u64) -> (r: Result<(), AppError>)
        requires
            old(self).wf(),
        ensures
            final(self).wf(),
            final(self).stepped_from(*old(self)),
            final(self).spec_max_concurrent() == old(self).spec_max_concurrent(),
            final(self).spec_active() == old(self).spec_active(),
            r is Ok,
            (exists|i: int|
                    {
                        &&& 0 <= i < old(self).spec_tasks().len()
                        &&& (#[trigger] old(self).spec_tasks()[i]).id == id
                        &&& final(self).spec_tasks() =~= old(self).spec_tasks().update(
                            i,
                            if old(self).spec_tasks()[i].status == DownloadStatus::Downloading {
                                DownloadTask {
                                    status: DownloadStatus::Paused,
                                    ..old(self).spec_tasks()[i]
                                }
                            } else {
                                old(self).spec_tasks()[i]
                            },
                        )
                    }) || (*final(self) == *old(self) && (forall|i: int|
                0 <= i < old(self).spec_tasks().len() ==> (#[trigger] old(
                    self,
                ).spec_tasks()[i]).id != id)),
    {
        let found = self.find_index(id);
        match found {
            None => Ok(()),
            Some(i) => {
                if matches!(self.tasks[i].status, DownloadStatus::Downloading) {
                    let updated = {
                        let mut u = duplicate_task(&self.tasks[i]);
                        u.status = DownloadStatus::Paused;
                        u
                    };
                    proof {
                        lemma_count_units_update(self.tasks@, i as int, updated);
                    }
                    self.tasks.set(i, updated);
                } else {
                    proof {
                        assert(self.tasks@ =~= self.tasks@.update(i as int, self.tasks@[i as int]));
                    }
                }
                Ok(())
            },
        }
    }

    /// Resumes a paused task: it re-enters the queue as `Pending`. The
    /// caller's next promotion pass picks it up like any other pending
    /// task; resuming itself starts nothing. An unknown id is a silent
    /// no-op.
    pub fn resume_download(&mut self, id: u64) -> (r: Result<(), AppError>)
        requires
            old(self).wf(),
        ensures
            final(self).wf(),
            final(self).stepped_from(*old(self)),
            final(self).spec_max_concurrent() == old(self).spec_max_concurrent(),
            final(self).spec_active() == old(self).spec_active(),
            r is Ok,
            (exists|i: int|
                    {
                        &&& 0 <= i < old(self).spec_tasks().len()
                        &&& (#[trigger] old(self).spec_tasks()[i]).id == id
                        &&& final(self).spec_tasks() =~= old(self).spec_tasks().update(
                            i,
                            if old(self).spec_tasks()[i].status == DownloadStatus::Paused {
                                DownloadTask {
                                    status: DownloadStatus::Pending,
                                    ..old(self).spec_tasks()[i]
                                }
                            } else {
                                old(self).spec_tasks()[i]
                            },
                        )
                    }) || (*final(self) == *old(self) && (forall|i: int|
                0 <= i < old(self).spec_tasks().len() ==> (#[trigger] old(
                    self,
                ).spec_tasks()[i]).id != id)),
    {
        let found = self.find_index(id);
        match found {
            None => Ok(()),
            Some(i) => {
                if matches!(self.tasks[i].status, DownloadStatus::Paused) {
                    let updated = {
                        let mut u = duplicate_task(&self.tasks[i]);
                        u.status = DownloadStatus::Pending;
                        u
                    };
                    proof {
                        lemma_count_units_update(self.tasks@, i as int, updated);
                    }
                    self.tasks.set(i, updated);
                } else {
                    proof {
                        assert(self.tasks@ =~= self.tasks@.update(i as int, self.tasks@[i as int]));
                    }
                }
                Ok(())
            },
        }
    }

    /// Cancels a task: any non-terminal task is marked `Cancelled`
    /// (cooperatively — a running unit is signalled, not preempted, and
    /// releases its slot when it exits). A terminal task is left alone,
    /// and an unknown id is a silent no-op.
    pub fn cancel_download(&mut self, id: u64) -> (r: Result<(), AppError>)
        requires
            old(self).wf(),
        ensures
            final(self).wf(),
            final(self).stepped_from(*old(self)),
            final(self).spec_max_concurrent() == old(self).spec_max_concurrent(),
            final(self).spec_active() == old(self).spec_active(),
            r is Ok,
            (exists|i: int|
                    {
                        &&& 0 <= i < old(self).spec_tasks().len()
                        &&& (#[trigger] old(self).spec_tasks()[i]).id == id
                        &&& final(self).spec_tasks() =~= old(self).spec_tasks().update(
                            i,
                            if !old(self).spec_tasks()[i].status.spec_is_terminal() {
                                DownloadTask {
                                    status: DownloadStatus::Cancelled,
                                    ..old(self).spec_tasks()[i]
                                }
                            } else {
                                old(self).spec_tasks()[i]
                            },
                        )
                    }) || (*final(self) == *old(self) && (forall|i: int|
                0 <= i < old(self).spec_tasks().len() ==> (#[trigger] old(
                    self,
                ).spec_tasks()[i]).id != id)),
    {
        let found = self.find_index(id);
        match found {
            None => Ok(()),
            Some(i) => {
                if !self.tasks[i].status.is_terminal() {
                    let updated = {
                        let mut u = duplicate_task(&self.tasks[i]);
                        u.status = DownloadStatus::Cancelled;
                        u
                    };
                    proof {
                        lemma_count_units_update(self.tasks@, i as int, updated);
                    }
                    self.tasks.set(i, updated);
                } else {
                    proof {
                        assert(self.tasks@ =~= self.tasks@.update(i as int, self.tasks@[i as int]));
                    }
                }
                Ok(())
            },
        }
    }

    /// Explicitly retries a terminal task: it is reset to `Pending` with
    /// error and progress cleared. A non-terminal task is refused.
    pub fn retry_download(&mut self, id: u64) -> (r: Result<(), AppError>)
        requires
            old(self).wf(),
        ensures
            final(self).wf(),
            final(self).stepped_from(*old(self)),
            final(self).spec_max_concurrent() == old(self).spec_max_concurrent(),
            final(self).spec_active() == old(self).spec_active(),
            match r {
                Ok(()) => exists|i: int|
                    {
                        &&& 0 <= i < old(self).spec_tasks().len()
                        &&& (#[trigger] old(self).spec_tasks()[i]).id == id
                        &&& old(self).spec_tasks()[i].status.spec_is_terminal()
                        &&& final(self).spec_tasks() =~= old(self).spec_tasks().update(
                            i,
                            DownloadTask {
                                status: DownloadStatus::Pending,
                                progress: 0,
                                error: None,
                                ..old(self).spec_tasks()[i]
                            },
                        )
                    },
                Err(_) => *final(self) == *old(self),
            },
    {
        let found = self.find_index(id);
        match found {
            None => Err(AppError::NotFound(String::from_str("task not found"))),
            Some(i) => {
                if self.tasks[i].status.is_terminal() {
                    let updated = {
                        let mut u = duplicate_task(&self.tasks[i]);
                        u.status = DownloadStatus::Pending;
                        u.progress = 0;
                        u.error = None;
                        u
                    };
                    proof {
                        lemma_count_units_update(self.tasks@, i as int, updated);
                    }
                    self.tasks.set(i, updated);
                    proof {
                        assert(self.spec_tasks() =~= old(self).spec_tasks().update(
                            i as int,
                            DownloadTask {
                                status: DownloadStatus::Pending,
                                progress: 0,
                                error: None,
                                ..old(self).spec_tasks()[i as int]
                            },
                        ));
                    }
                    Ok(())
                } else {
                    Err(AppError::Download(String::from_str("task is not in a terminal state")))
                }
            },
        }
    }

    /// Updates the progress percentage of a downloading task. Progress
    /// 100 is reserved for completion, so live updates stay below it.
    pub fn update_task_progress(&mut self, id: u64, progress: u8) -> (r: Result<(), AppError>)
        requires
            old(self).wf(),
            progress < 100,
        ensures
            final(self).wf(),
            final(self).stepped_from(*old(self)),
            final(self).spec_max_concurrent() == old(self).spec_max_concurrent(),
            final(self).spec_active() == old(self).spec_active(),
            match r {
                Ok(()) => exists|i: int|
                    {
                        &&& 0 <= i < old(self).spec_tasks().len()
                        &&& (#[trigger] old(self).spec_tasks()[i]).id == id
                        &&& final(self).spec_tasks() =~= old(self).spec_tasks().update(
                            i,
                            if old(self).spec_tasks()[i].status == DownloadStatus::Downloading {
                                DownloadTask { progress: progress, ..old(self).spec_tasks()[i] }
                            } else {
                                old(self).spec_tasks()[i]
                            },
                        )
                    },
                Err(_) => *final(self) == *old(self) && (forall|i: int|
                    0 <= i < old(self).spec_tasks().len() ==> (#[trigger] old(
                        self,
                    ).spec_tasks()[i]).id != id),
            },
    {
        let found = self.find_index(id);
        match found {
            None => Err(AppError::NotFound(String::from_str("task not found"))),
            Some(i) => {
                if matches!(self.tasks[i].status, DownloadStatus::Downloading) {
                    let updated = {
                        let mut u = duplicate_task(&self.tasks[i]);
                        u.progress = progress;
                        u
                    };
                    proof {
                        lemma_count_units_update(self.tasks@, i as int, updated);
                    }
                    self.tasks.set(i, updated);
                } else {
                    proof {
                        assert(self.tasks@ =~= self.tasks@.update(i as int, self.tasks@[i as int]));
                    }
                }
                Ok(())
            },
        }
    }

    /// Sets a task's status along an edge of the state machine, recording
    /// the error text if one is given. A step the machine does not allow
    /// is refused. Completion stamps the time and pins progress at 100;
    /// a reset to `Pending` clears error and progress.
    pub fn update_task_status(
        &mut self,
        id: u64,
        status: DownloadStatus,
        error: Option<String>,
        now: u64,
    ) -> (r: Result<(), AppError>)
        requires
            old(self).wf(),
        ensures
            final(self).wf(),
            final(self).stepped_from(*old(self)),
            final(self).spec_max_concurrent() == old(self).spec_max_concurrent(),
            final(self).spec_active() == old(self).spec_active(),
            match r {
                Ok(()) => exists|i: int|
                    {
                        &&& 0 <= i < old(self).spec_tasks().len()
                        &&& (#[trigger] old(self).spec_tasks()[i]).id == id
                        &&& can_step(old(self).spec_tasks()[i].status, status)
                        &&& final(self).spec_tasks() =~= old(self).spec_tasks().update(
                            i,
                            spec_status_applied(old(self).spec_tasks()[i], status, error, now),
                        )
                    },
                Err(_) => *final(self) == *old(self),
            },
    {
        let found = self.find_index(id);
        match found {
            None => Err(AppError::NotFound(String::from_str("task not found"))),
            Some(i) => {
                if !step_allowed(self.tasks[i].status, status) {
                    return Err(
                        AppError::Download(
                            String::from_str("the state machine does not allow this transition"),
                        ),
                    );
                }
                let updated = {
                    let mut u = duplicate_task(&self.tasks[i]);
                    u.status = status;
                    if let Some(e) = error {
                        u.error = Some(e);
                    }
                    if matches!(status, DownloadStatus::Completed) {
                        u.progress = 100;
                        u.completed_at = Some(now);
                    }
                    if matches!(status, DownloadStatus::Pending) {
                        u.progress = 0;
                        u.error = None;
                    }
                    u
                };
                proof {
                    lemma_count_units_update(self.tasks@, i as int, updated);
                }
                self.tasks.set(i, updated);
                proof {
                    assert(self.spec_tasks() =~= old(self).spec_tasks().update(
                        i as int,
                        spec_status_applied(old(self).spec_tasks()[i as int], status, error, now),
                    ));
                }
                Ok(())
            },
        }
    }

    /// Evicts a task from the queue; an absent id is a no-op. A task
    /// whose execution unit still holds a concurrency slot is refused:
    /// it must be cancelled and allowed to exit first, since removing
    /// it while the unit runs would break the slot accounting that
    /// keeps the concurrency ceiling exact.
    pub fn remove_download(&mut self, id: u64) -> (r: Result<(), AppError>)
        requires
            old(self).wf(),
        ensures
            final(self).wf(),
            final(self).spec_max_concurrent() == old(self).spec_max_concurrent(),
            final(self).spec_active() == old(self).spec_active(),
            match r {
                Ok(()) => (exists|i: int|
                    {
                        &&& 0 <= i < old(self).spec_tasks().len()
                        &&& (#[trigger] old(self).spec_tasks()[i]).id == id
                        &&& !old(self).spec_tasks()[i].unit_running
                        &&& final(self).spec_tasks() =~= old(self).spec_tasks().remove(i)
                    }) || (*final(self) == *old(self) && (forall|i: int|
                    0 <= i < old(self).spec_tasks().len() ==> (#[trigger] old(
                        self,
                    ).spec_tasks()[i]).id != id)),
                Err(_) => *final(self) == *old(self),
            },
    {
        let found = self.find_index(id);
        match found {
            None => Ok(()),
            Some(i) => {
                if self.tasks[i].unit_running {
                    return Err(
                        AppError::Download(String::from_str("task is active; cancel it first")),
                    );
                }
                proof {
                    lemma_count_units_remove(self.tasks@, i as int);
                }
                self.tasks.remove(i);
                Ok(())
            },
        }
    }

    /// Looks a task up by id and returns a copy of it.
    pub fn get_task(&self, id: u64) -> (r: Option<DownloadTask>)
        requires
            self.wf(),
        ensures
            match r {
                Some(t) => exists|i: int|
                    0 <= i < self.spec_tasks().len() && (#[trigger] self.spec_tasks()[i]).id == id
                        && t == self.spec_tasks()[i],
                None => forall|i: int|
                    0 <= i < self.spec_tasks().len() ==> (#[trigger] self.spec_tasks()[i]).id
                        != id,
            },
    {
        match self.find_index(id) {
            None => None,
            Some(i) => Some(duplicate_task(&self.tasks[i])),
        }
    }

    /// The 1-based queue position the next individually submitted track
    /// should take: one past the number of queued or running tasks.
    pub fn get_next_individual_order(&self) -> (r: u32)
        requires
            self.wf(),
        ensures
            r == vstd::math::min(
                count_status(self.spec_tasks(), DownloadStatus::Pending) as int + count_status(
                    self.spec_tasks(),
                    DownloadStatus::Downloading,
                ) as int + 1,
                u32::MAX as int,
            ),
    {
        let n = self.tasks.len();
        let mut c: usize = 0;
        let mut i: usize = 0;
        while i < n
            invariant
                n == self.tasks@.len() <= 0xFFFF_FFFF,
                i <= n,
                c == count_status(self.tasks@.take(i as int), DownloadStatus::Pending)
                    + count_status(self.tasks@.take(i as int), DownloadStatus::Downloading),
                c <= i,
            decreases n - i,
        {
            proof {
                assert(self.tasks@.take(i as int + 1).drop_last() =~= self.tasks@.take(i as int));
                assert(self.tasks@.take(i as int + 1).last() == self.tasks@[i as int]);
            }
            if matches!(self.tasks[i].status, DownloadStatus::Pending)
                || matches!(self.tasks[i].status, DownloadStatus::Downloading) {
                c = c + 1;
            }
            i = i + 1;
        }
        proof {
            assert(self.tasks@.take(n as int) =~= self.tasks@);
        }
        if c >= 0xFFFF_FFFF {
            u32::MAX
        } else {
            (c + 1) as u32
        }
    }

    /// Aggregate statistics over the queue.
    pub fn get_app_stats(&self) -> (r: AppStats)
        requires
            self.wf(),
        ensures
            r.total_tasks == self.spec_tasks().len(),
            r.completed_tasks == count_status(self.spec_tasks(), DownloadStatus::Completed),
            r.failed_tasks == count_status(self.spec_tasks(), DownloadStatus::Failed),
            r.downloading_tasks == count_status(self.spec_tasks(), DownloadStatus::Downloading),
            r.success_rate_percent == if self.spec_tasks().len() > 0 {
                count_status(self.spec_tasks(), DownloadStatus::Completed) as int * 100 / self.spec_tasks().len() as int
            } else {
                0int
            },
    {
        let n = self.tasks.len();
        let mut completed: usize = 0;
        let mut failed: usize = 0;
        let mut downloading: usize = 0;
        let mut i: usize = 0;
        while i < n
            invariant
                n == self.tasks@.len() <= 0xFFFF_FFFF,
                i <= n,
                completed == count_status(self.tasks@.take(i as int), DownloadStatus::Completed),
                failed == count_status(self.tasks@.take(i as int), DownloadStatus::Failed),
                downloading == count_status(
                    self.tasks@.take(i as int),
                    DownloadStatus::Downloading,
                ),
                completed <= i && failed <= i && downloading <= i,
            decreases n - i,
        {
            proof {
                assert(self.tasks@.take(i as int + 1).drop_last() =~= self.tasks@.take(i as int));
                assert(self.tasks@.take(i as int + 1).last() == self.tasks@[i as int]);
            }
            match self.tasks[i].status {
                DownloadStatus::Completed => {
                    completed = completed + 1;
                },
                DownloadStatus::Failed => {
                    failed = failed + 1;
                },
                DownloadStatus::Downloading => {
                    downloading = downloading + 1;
                },
                _ => {},
            }
            i = i + 1;
        }
        proof {
            assert(self.tasks@.take(n as int) =~= self.tasks@);
        }
        let rate: u64 = if n > 0 {
            (completed as u64) * 100 / (n as u64)
        } else {
            0
        };
        AppStats {
            total_tasks: n,
            completed_tasks: completed,
            failed_tasks: failed,
            downloading_tasks: downloading,
            success_rate_percent: rate,
        }
    }
}

/// The task as `renumber_queue` rewrites it: a pending task's order
/// becomes its 1-based rank among the pending, counted in creation
/// order; any other task is untouched.
pub open spec fn spec_renumbered(ts: Seq<DownloadTask>, j: int) -> DownloadTask {
    if ts[j].status == DownloadStatus::Pending {
        DownloadTask {
            order: (count_status(ts.take(j), DownloadStatus::Pending) + 1) as u32,
            ..ts[j]
        }
    } else {
        ts[j]
    }
}

/// The task as `update_task_status` rewrites it.
pub open spec fn spec_status_applied(
    t: DownloadTask,
    status: DownloadStatus,
    error: Option<String>,
    now: u64,
) -> DownloadTask {
    let base = DownloadTask {
        status: status,
        error: if error is Some {
            error
        } else {
            t.error
        },
        ..t
    };
    if status == DownloadStatus::Completed {
        DownloadTask { progress: 100, completed_at: Some(now), ..base }
    } else if status == DownloadStatus::Pending {
        DownloadTask { progress: 0, error: None, ..base }
    } else {
        base
    }
}

/// Runtime check of the state machine's edges.
pub fn step_allowed(from: DownloadStatus, to: DownloadStatus) -> (r: bool)
    ensures
        r == can_step(from, to),
{
    match (from, to) {
        (DownloadStatus::Pending, DownloadStatus::Downloading) => true,
        (DownloadStatus::Downloading, DownloadStatus::Completed) => true,
        (DownloadStatus::Downloading, DownloadStatus::Failed) => true,
        (DownloadStatus::Downloading, DownloadStatus::Paused) => true,
        (DownloadStatus::Downloading, DownloadStatus::Processing) => true,
        (DownloadStatus::Paused, DownloadStatus::Pending) => true,
        (_, DownloadStatus::Cancelled) => !from.is_terminal(),
        (_, DownloadStatus::Pending) => from.is_terminal(),
        _ => false,
    }
}


/// Display order: running work first, then the queue, then finished
/// work; within one class, earliest-created first.
pub open spec fn display_le(a: DownloadTask, b: DownloadTask) -> bool {
    a.status.spec_priority() < b.status.spec_priority() || (a.status.spec_priority()
        == b.status.spec_priority() && a.created_at <= b.created_at)
}

/// The task with its display order erased: what `get_all_tasks` keeps of
/// each task besides the dense renumbering it applies.
pub open spec fn spec_clear_order(t: DownloadTask) -> DownloadTask {
    DownloadTask { order: 0, ..t }
}

/// Runtime comparison for the display order.
fn display_le_exec(a: &DownloadTask, b: &DownloadTask) -> (r: bool)
    ensures
        r == display_le(*a, *b),
{
    let pa = a.status.priority();
    let pb = b.status.priority();
    pa < pb || (pa == pb && a.created_at <= b.created_at)
}

/// The position at which a task joins an already display-sorted list so
/// that the list stays sorted: after everything that sorts no later than
/// it, before everything else.
fn insert_position(out: &Vec<DownloadTask>, elem: &DownloadTask) -> (p: usize)
    requires
        forall|a: int, b: int| 0 <= a < b < out@.len() ==> display_le(out@[a], out@[b]),
    ensures
        p <= out@.len(),
        forall|k: int| 0 <= k < p ==> display_le(#[trigger] out@[k], *elem),
        forall|k: int| p <= k < out@.len() ==> display_le(*elem, #[trigger] out@[k]),
{
    let m = out.len();
    let mut p: usize = 0;
    loop
        invariant_except_break
            m == out@.len(),
            p <= m,
            forall|a: int, b: int| 0 <= a < b < out@.len() ==> display_le(out@[a], out@[b]),
            forall|k: int| 0 <= k < p ==> display_le(#[trigger] out@[k], *elem),
        ensures
            p <= m,
            forall|k: int| 0 <= k < p ==> display_le(#[trigger] out@[k], *elem),
            forall|k: int| p <= k < out@.len() ==> display_le(*elem, #[trigger] out@[k]),
        decreases m - p,
    {
        if p >= m {
            break;
        }
        if !display_le_exec(&out[p], elem) {
            proof {
                assert(display_le(*elem, out@[p as int]));
                assert forall|k: int| p <= k < out@.len() implies display_le(
                    *elem,
                    #[trigger] out@[k],
                ) by {
                    if k > p {
                        assert(display_le(out@[p as int], out@[k]));
                    }
                }
            }
            break;
        }
        p = p + 1;
    }
    p
}

impl DownloadManager {
    /// Returns the tasks ordered for display — by status priority, then
    /// by creation time — with a dense 1-based display order recomputed
    /// over the returned list. The queue itself is not changed: the
    /// renumbering lives only in the returned copies.
    #[verifier::rlimit(60)]
    pub fn get_all_tasks(&self) -> (r: Vec<DownloadTask>)
        requires
            self.wf(),
        ensures
            r@.len() == self.spec_tasks().len(),
            forall|i: int, j: int| 0 <= i < j < r@.len() ==> display_le(r@[i], r@[j]),
            forall|i: int| 0 <= i < r@.len() ==> (#[trigger] r@[i]).order == i + 1,
            r@.map_values(|t: DownloadTask| spec_clear_order(t)).to_multiset()
                =~= self.spec_tasks().map_values(|t: DownloadTask| spec_clear_order(t)).to_multiset(),
    {
        broadcast use vstd::seq_lib::group_to_multiset_ensures;

        let n = self.tasks.len();
        let mut out: Vec<DownloadTask> = Vec::new();
        let mut i: usize = 0;
        while i < n
            invariant
                self.wf(),
                n == self.spec_tasks().len() <= 0xFFFF_FFFF,
                i <= n,
                out@.len() == i,
                forall|a: int, b: int| 0 <= a < b < out@.len() ==> display_le(out@[a], out@[b]),
                out@.map_values(|t: DownloadTask| spec_clear_order(t)).to_multiset()
                    =~= self.spec_tasks().take(i as int).map_values(
                    |t: DownloadTask| spec_clear_order(t),
                ).to_multiset(),
            decreases n - i,
        {
            let elem = duplicate_task(&self.tasks[i]);
            let p = insert_position(&out, &elem);
            proof {
                let f = |t: DownloadTask| spec_clear_order(t);
                let inserted = out@.insert(p as int, elem);
                assert forall|a: int, b: int| 0 <= a < b < inserted.len() implies display_le(
                    inserted[a],
                    inserted[b],
                ) by {
                    assert(forall|k: int|
                        0 <= k < inserted.len() ==> inserted[k] == (if k < p {
                            out@[k]
                        } else if k == p {
                            elem
                        } else {
                            out@[k - 1]
                        }));
                }
                assert(inserted.map_values(f) =~= out@.map_values(f).insert(p as int, f(elem)));
                vstd::seq_lib::to_multiset_insert(out@.map_values(f), p as int, f(elem));
                assert(self.spec_tasks().take(i as int + 1) =~= self.spec_tasks().take(
                    i as int,
                ).push(self.spec_tasks()[i as int]));
                assert(self.spec_tasks().take(i as int + 1).map_values(f) =~= self.spec_tasks().take(
                    i as int,
                ).map_values(f).push(f(self.spec_tasks()[i as int])));
                vstd::seq_lib::to_multiset_build(
                    self.spec_tasks().take(i as int).map_values(f),
                    f(elem),
                );
                assert(inserted.map_values(f).to_multiset() =~= self.spec_tasks().take(
                    i as int + 1,
                ).map_values(f).to_multiset());
            }
            out.insert(p, elem);
            i = i + 1;
        }
        proof {
            assert(self.spec_tasks().take(n as int) =~= self.spec_tasks());
        }
        // Recompute a dense 1-based display order over the sorted list.
        let mut k: usize = 0;
        while k < n
            invariant
                n == out@.len() <= 0xFFFF_FFFF,
                k <= n,
                forall|a: int, b: int| 0 <= a < b < out@.len() ==> display_le(out@[a], out@[b]),
                forall|a: int| 0 <= a < k ==> (#[trigger] out@[a]).order == a + 1,
                out@.map_values(|t: DownloadTask| spec_clear_order(t)).to_multiset()
                    =~= self.spec_tasks().map_values(|t: DownloadTask| spec_clear_order(t)).to_multiset(),
            decreases n - k,
        {
            let updated = {
                let mut u = duplicate_task(&out[k]);
                u.order = (k as u32) + 1;
                u
            };
            proof {
                let f = |t: DownloadTask| spec_clear_order(t);
                assert(f(updated) == f(out@[k as int]));
                assert(out@.update(k as int, updated).map_values(f) =~= out@.map_values(f));
                assert forall|a: int, b: int|
                    0 <= a < b < out@.len() implies display_le(
                    #[trigger] out@.update(k as int, updated)[a],
                    #[trigger] out@.update(k as int, updated)[b],
                ) by {
                    assert(display_le(out@[a], out@[b]));
                }
            }
            out.set(k, updated);
            k = k + 1;
        }
        out
    }

    /// Renumbers the pending tasks in creation order, 1-based, leaving
    /// every other field and every non-pending task untouched.
    #[verifier::rlimit(100)]
    pub fn renumber_queue(&mut self) -> (r: Result<(), AppError>)
        requires
            old(self).wf(),
        ensures
            final(self).wf(),
            final(self).stepped_from(*old(self)),
            final(self).spec_max_concurrent() == old(self).spec_max_concurrent(),
            final(self).spec_active() == old(self).spec_active(),
            r is Ok,
            forall|i: int|
                0 <= i < final(self).spec_tasks().len() ==> final(self).spec_tasks()[i]
                    == spec_renumbered(old(self).spec_tasks(), i),
    {
        let n = self.tasks.len();
        let mut rank: u32 = 0;
        let mut i: usize = 0;
        while i < n
            invariant
                self.wf(),
                n == self.spec_tasks().len() <= 0xFFFF_FFFF,
                i <= n,
                self.spec_tasks().len() == old(self).spec_tasks().len(),
                self.spec_max_concurrent() == old(self).spec_max_concurrent(),
                self.spec_active() == old(self).spec_active(),
                self.next_id == old(self).next_id,
                rank == count_status(old(self).spec_tasks().take(i as int), DownloadStatus::Pending),
                rank <= i,
                forall|j: int|
                    0 <= j < i ==> self.spec_tasks()[j] == spec_renumbered(
                        old(self).spec_tasks(),
                        j,
                    ),
                forall|j: int|
                    i <= j < n ==> (#[trigger] self.spec_tasks()[j]) == old(self).spec_tasks()[j],
            decreases n - i,
        {
            proof {
                assert(old(self).spec_tasks().take(i as int + 1).drop_last() =~= old(
                    self,
                ).spec_tasks().take(i as int));
                assert(old(self).spec_tasks().take(i as int + 1).last() == old(
                    self,
                ).spec_tasks()[i as int]);
                lemma_count_status_le_len(
                    old(self).spec_tasks().take(i as int),
                    DownloadStatus::Pending,
                );
            }
            if matches!(self.tasks[i].status, DownloadStatus::Pending) {
                let updated = {
                    let mut u = duplicate_task(&self.tasks[i]);
                    u.order = rank + 1;
                    u
                };
                proof {
                    lemma_count_units_update(self.tasks@, i as int, updated);
                    assert(updated == spec_renumbered(old(self).spec_tasks(), i as int));
                }
                self.tasks.set(i, updated);
                rank = rank + 1;
            } else {
                proof {
                    assert(self.spec_tasks()[i as int] == spec_renumbered(
                        old(self).spec_tasks(),
                        i as int,
                    ));
                }
            }
            i = i + 1;
        }
        Ok(())
    }

    /// The queue cannot be reordered in place: display order is a
    /// function of status and creation time.
    pub fn reorder_queue(&mut self, _task_ids: &Vec<u64>) -> (r: Result<(), AppError>)
        requires
            old(self).wf(),
        ensures
            final(self).wf(),
            *final(self) == *old(self),
            r is Ok,
    {
        Ok(())
    }
}


/// One filesystem probe of a completed task's destination, made by the
/// caller.
#[derive(Debug, Clone, Copy, PartialEq, Eq, Structural)]
pub struct FileProbe {
    pub id: u64,
    pub file_exists: bool,
    pub size_bytes: u64,
}

/// The first probe carrying the given task id.
pub open spec fn spec_probe_for(ps: Seq<FileProbe>, id: u64) -> Option<FileProbe>
    decreases ps.len(),
{
    if ps.len() == 0 {
        None
    } else if ps.first().id == id {
        Some(ps.first())
    } else {
        spec_probe_for(ps.drop_first(), id)
    }
}

/// A completed task's file was found on disk.
pub open spec fn spec_probe_found(ps: Seq<FileProbe>, id: u64) -> bool {
    match spec_probe_for(ps, id) {
        Some(p) => p.file_exists,
        None => false,
    }
}

/// A found file over the single-track size ceiling.
pub open spec fn spec_probe_oversized(ps: Seq<FileProbe>, id: u64) -> bool {
    match spec_probe_for(ps, id) {
        Some(p) => p.file_exists && p.size_bytes > crate::validate::MAX_TRACK_FILE_BYTES,
        None => false,
    }
}

/// The ids of completed tasks whose file is missing, in task order.
pub open spec fn spec_missing_ids(ts: Seq<DownloadTask>, ps: Seq<FileProbe>) -> Seq<u64>
    decreases ts.len(),
{
    if ts.len() == 0 {
        Seq::empty()
    } else {
        let rest = spec_missing_ids(ts.drop_last(), ps);
        if ts.last().status == DownloadStatus::Completed && !spec_probe_found(ps, ts.last().id) {
            rest.push(ts.last().id)
        } else {
            rest
        }
    }
}

/// The ids and sizes of completed tasks whose file is suspiciously
/// large, in task order.
pub open spec fn spec_oversized_ids(ts: Seq<DownloadTask>, ps: Seq<FileProbe>) -> Seq<u64>
    decreases ts.len(),
{
    if ts.len() == 0 {
        Seq::empty()
    } else {
        let rest = spec_oversized_ids(ts.drop_last(), ps);
        if ts.last().status == DownloadStatus::Completed && spec_probe_oversized(
            ps,
            ts.last().id,
        ) {
            rest.push(ts.last().id)
        } else {
            rest
        }
    }
}

/// How many completed tasks have their file on disk.
pub open spec fn spec_actual_files(ts: Seq<DownloadTask>, ps: Seq<FileProbe>) -> nat
    decreases ts.len(),
{
    if ts.len() == 0 {
        0
    } else {
        spec_actual_files(ts.drop_last(), ps) + if ts.last().status == DownloadStatus::Completed
            && spec_probe_found(ps, ts.last().id) {
            1nat
        } else {
            0nat
        }
    }
}

/// The report of a queue-against-disk verification pass.
#[derive(Debug, Clone)]
pub struct DownloadVerification {
    pub total_tasks: usize,
    pub completed_tasks: usize,
    pub actual_files: usize,
    pub missing_files: Vec<u64>,
    pub oversized_files: Vec<u64>,
}

/// Finds the probe for one id.
fn find_probe(probes: &Vec<FileProbe>, id: u64) -> (r: Option<FileProbe>)
    ensures
        r == spec_probe_for(probes@, id),
{
    let n = probes.len();
    let mut i: usize = 0;
    proof {
        assert(probes@.skip(0) =~= probes@);
    }
    while i < n
        invariant
            n == probes@.len(),
            i <= n,
            spec_probe_for(probes@, id) == spec_probe_for(probes@.skip(i as int), id),
        decreases n - i,
    {
        proof {
            assert(probes@.skip(i as int).first() == probes@[i as int]);
            assert(probes@.skip(i as int).drop_first() =~= probes@.skip(i as int + 1));
        }
        if probes[i].id == id {
            return Some(probes[i]);
        }
        i = i + 1;
    }
    proof {
        assert(probes@.skip(n as int).len() == 0);
    }
    None
}

impl DownloadManager {
    /// Verifies the queue against the caller's filesystem probes: how
    /// many tasks report completion, how many of those actually have
    /// their file, which completed tasks' files are missing, and which
    /// files are large enough to be whole albums.
    pub fn verify_downloads(&self, probes: &Vec<FileProbe>) -> (r: DownloadVerification)
        requires
            self.wf(),
        ensures
            r.total_tasks == self.spec_tasks().len(),
            r.completed_tasks == count_status(self.spec_tasks(), DownloadStatus::Completed),
            r.actual_files == spec_actual_files(self.spec_tasks(), probes@),
            r.missing_files@ == spec_missing_ids(self.spec_tasks(), probes@),
            r.oversized_files@ == spec_oversized_ids(self.spec_tasks(), probes@),
    {
        let n = self.tasks.len();
        let mut completed: usize = 0;
        let mut actual: usize = 0;
        let mut missing: Vec<u64> = Vec::new();
        let mut oversized: Vec<u64> = Vec::new();
        let mut i: usize = 0;
        while i < n
            invariant
                self.wf(),
                n == self.spec_tasks().len() <= 0xFFFF_FFFF,
                i <= n,
                completed == count_status(self.spec_tasks().take(i as int), DownloadStatus::Completed),
                completed <= i,
                actual == spec_actual_files(self.spec_tasks().take(i as int), probes@),
                actual <= i,
                missing@ == spec_missing_ids(self.spec_tasks().take(i as int), probes@),
                oversized@ == spec_oversized_ids(self.spec_tasks().take(i as int), probes@),
            decreases n - i,
        {
            proof {
                assert(self.spec_tasks().take(i as int + 1).drop_last() =~= self.spec_tasks().take(
                    i as int,
                ));
                assert(self.spec_tasks().take(i as int + 1).last() == self.spec_tasks()[i as int]);
                lemma_count_status_le_len(
                    self.spec_tasks().take(i as int),
                    DownloadStatus::Completed,
                );
            }
            if matches!(self.tasks[i].status, DownloadStatus::Completed) {
                completed = completed + 1;
                let probe = find_probe(probes, self.tasks[i].id);
                match probe {
                    Some(p) => {
                        if p.file_exists {
                            actual = actual + 1;
                            if p.size_bytes > crate::validate::MAX_TRACK_FILE_BYTES {
                                oversized.push(self.tasks[i].id);
                            }
                        } else {
                            missing.push(self.tasks[i].id);
                        }
                    },
                    None => {
                        missing.push(self.tasks[i].id);
                    },
                }
            }
            i = i + 1;
        }
        proof {
            assert(self.spec_tasks().take(n as int) =~= self.spec_tasks());
        }
        DownloadVerification {
            total_tasks: n,
            completed_tasks: completed,
            actual_files: actual,
            missing_files: missing,
            oversized_files: oversized,
        }
    }

    /// A progress snapshot for one task, read from the queue itself
    /// when the strategy has nothing fresher to report.
    pub fn get_progress(&self, id: u64) -> (r: Option<(DownloadStatus, u8)>)
        requires
            self.wf(),
        ensures
            match r {
                Some((st, p)) => exists|i: int|
                    0 <= i < self.spec_tasks().len() && (#[trigger] self.spec_tasks()[i]).id == id
                        && st == self.spec_tasks()[i].status && p == self.spec_tasks()[i].progress,
                None => forall|i: int|
                    0 <= i < self.spec_tasks().len() ==> (#[trigger] self.spec_tasks()[i]).id
                        != id,
            },
    {
        match self.find_index(id) {
            None => None,
            Some(i) => Some((self.tasks[i].status, self.tasks[i].progress)),
        }
    }
}


/// The concurrency law: however promotions, pauses, cancellations and
/// completions interleave, the active-download counter equals the
/// number of slot-holding execution units — so it can never go
/// negative — and never exceeds the configured ceiling.
pub proof fn lemma_concurrency_ceiling(m: DownloadManager)
    requires
        m.wf(),
    ensures
        m.spec_active() == count_units(m.spec_tasks()),
        m.spec_active() <= m.spec_max_concurrent(),
{
}

/// When no pending task is still waiting out an execution unit from an
/// earlier run, the promotable tasks are exactly the pending ones — so
/// a promotion pass starts exactly the smaller of the remaining
/// capacity and the pending count.
pub proof fn lemma_eligible_is_pending(s: Seq<DownloadTask>)
    requires
        forall|i: int|
            0 <= i < s.len() ==> !((#[trigger] s[i]).status == DownloadStatus::Pending
                && s[i].unit_running),
    ensures
        count_eligible(s) == count_status(s, DownloadStatus::Pending),
    decreases s.len(),
{
    if s.len() > 0 {
        lemma_eligible_is_pending(s.drop_last());
    }
}

/// The completion law: in every well-formed queue, a task reads one
/// hundred percent exactly when it is completed — no task reaches
/// `Completed` with any other progress value.
pub proof fn lemma_completed_progress(m: DownloadManager)
    requires
        m.wf(),
    ensures
        forall|i: int|
            0 <= i < m.spec_tasks().len() ==> ((#[trigger] m.spec_tasks()[i]).progress == 100
                <==> m.spec_tasks()[i].status == DownloadStatus::Completed),
{
}

} // verus!
