//! Task status and the state machine that every task follows.
//!
//! The allowed edges are: `Pending -> Downloading`,
//! `Downloading -> Completed | Failed | Paused | Processing`,
//! `Paused -> Pending` (resume), any non-terminal state `-> Cancelled`,
//! and any terminal state `-> Pending` (an explicit retry that resets the
//! task). `Completed`, `Failed` and `Cancelled` are terminal.

use vstd::prelude::*;

verus! {

#[derive(Debug, Clone, Copy, PartialEq, Eq, Structural)]
pub enum DownloadStatus {
    Pending,
    Downloading,
    Processing,
    Completed,
    Failed,
    Paused,
    Cancelled,
}

impl DownloadStatus {
    /// A terminal status: the task stays there until an explicit retry.
    pub open spec fn spec_is_terminal(self) -> bool {
        self == DownloadStatus::Completed || self == DownloadStatus::Failed
            || self == DownloadStatus::Cancelled
    }

    #[verifier::when_used_as_spec(spec_is_terminal)]
    pub fn is_terminal(self) -> (r: bool)
        ensures
            r == self.spec_is_terminal(),
    {
        matches!(self, DownloadStatus::Completed | DownloadStatus::Failed | DownloadStatus::Cancelled)
    }

    /// The priority used to order the task list for display: running work
    /// first, then the queue, then finished work.
    pub open spec fn spec_priority(self) -> u8 {
        match self {
            DownloadStatus::Downloading => 1,
            DownloadStatus::Pending => 2,
            DownloadStatus::Paused => 3,
            DownloadStatus::Processing => 4,
            DownloadStatus::Completed => 5,
            DownloadStatus::Failed => 6,
            DownloadStatus::Cancelled => 7,
        }
    }

    #[verifier::when_used_as_spec(spec_priority)]
    pub fn priority(self) -> (r: u8)
        ensures
            r == self.spec_priority(),
    {
        match self {
            DownloadStatus::Downloading => 1,
            DownloadStatus::Pending => 2,
            DownloadStatus::Paused => 3,
            DownloadStatus::Processing => 4,
            DownloadStatus::Completed => 5,
            DownloadStatus::Failed => 6,
            DownloadStatus::Cancelled => 7,
        }
    }
}

/// The edges of the task state machine. Every mutation the manager makes
/// steps along one of these edges (or leaves the status unchanged).
pub open spec fn can_step(from: DownloadStatus, to: DownloadStatus) -> bool {
    ||| (from == DownloadStatus::Pending && to == DownloadStatus::Downloading)
    ||| (from == DownloadStatus::Downloading && to == DownloadStatus::Completed)
    ||| (from == DownloadStatus::Downloading && to == DownloadStatus::Failed)
    ||| (from == DownloadStatus::Downloading && to == DownloadStatus::Paused)
    ||| (from == DownloadStatus::Downloading && to == DownloadStatus::Processing)
    ||| (from == DownloadStatus::Paused && to == DownloadStatus::Pending)
    ||| (!from.spec_is_terminal() && to == DownloadStatus::Cancelled)
    ||| (from.spec_is_terminal() && to == DownloadStatus::Pending)
}

} // verus!
