//! The file queue: files are transcoded one after another, and a user
//! cancellation ends the whole run.
use vstd::prelude::*;

use crate::error::{classify, spec_full_message, FfmpegError};
use crate::text::lower_of;

verus! {

/// Where one file of the queue stands.
#[derive(Clone, Debug, PartialEq)]
pub enum FileStatus {
    Pending,
    Processing,
    Completed,
    /// Failed, with the message shown to the user.
    Error(String),
    Cancelled,
}

impl FileStatus {
    /// Label shown to the user.
    pub fn label(&self) -> (r: &'static str)
        ensures
            r@ == (match self {
                FileStatus::Pending => "待機中"@,
                FileStatus::Processing => "処理中"@,
                FileStatus::Completed => "完了"@,
                FileStatus::Error(_) => "エラー"@,
                FileStatus::Cancelled => "キャンセル"@,
            }),
    {
        match self {
            FileStatus::Pending => "待機中",
            FileStatus::Processing => "処理中",
            FileStatus::Completed => "完了",
            FileStatus::Error(_) => "エラー",
            FileStatus::Cancelled => "キャンセル",
        }
    }
}

/// How one job ended.
#[derive(Clone, Debug, PartialEq)]
pub enum JobOutcome {
    Succeeded,
    /// Failed, with the message shown to the user.
    Failed(String),
    Cancelled,
}

/// The status a file gets from the outcome of its job.
pub open spec fn status_of(outcome: JobOutcome) -> FileStatus {
    match outcome {
        JobOutcome::Succeeded => FileStatus::Completed,
        JobOutcome::Failed(m) => FileStatus::Error(m),
        JobOutcome::Cancelled => FileStatus::Cancelled,
    }
}

/// The files of one run and how far the run got.
#[derive(Clone, Debug)]
pub struct TranscodeQueue {
    /// Status of each file, in queue order.
    pub statuses: Vec<FileStatus>,
    /// Index of the next file to start.
    pub next: usize,
    /// Set when a cancellation ended the run.
    pub stopped: bool,
}

/// Statuses after `start_next`: the file at `next` becomes `Processing`.
pub open spec fn started(s: Seq<FileStatus>, next: int, stopped: bool) -> (Seq<FileStatus>, Option<int>) {
    if stopped || next >= s.len() {
        (s, None)
    } else {
        (s.update(next, FileStatus::Processing), Some(next))
    }
}

impl TranscodeQueue {
    /// A run over `n` files, all pending.
    pub fn new(n: usize) -> (r: Self)
        ensures
            r.statuses@.len() == n,
            forall|i: int| 0 <= i < n ==> r.statuses@[i] == FileStatus::Pending,
            r.next == 0,
            !r.stopped,
    {
        let mut statuses: Vec<FileStatus> = Vec::new();
        let mut i: usize = 0;
        while i < n
            invariant
                i <= n,
                statuses@.len() == i,
                forall|k: int| 0 <= k < i ==> statuses@[k] == FileStatus::Pending,
            decreases n - i,
        {
            statuses.push(FileStatus::Pending);
            i = i + 1;
        }
        TranscodeQueue { statuses, next: 0, stopped: false }
    }

    /// The next file to transcode, now marked `Processing`; `None` once
    /// every file was started or the run was cancelled.
    pub fn start_next(&mut self) -> (r: Option<usize>)
        ensures
            (final(self).statuses@, match r {
                Some(i) => Some(i as int),
                None => None,
            }) == started(old(self).statuses@, old(self).next as int, old(self).stopped),
            final(self).stopped == old(self).stopped,
            r is Some ==> final(self).next == old(self).next + 1,
            r is None ==> final(self).next == old(self).next,
    {
        if self.stopped || self.next >= self.statuses.len() {
            return None;
        }
        let i = self.next;
        self.statuses.set(i, FileStatus::Processing);
        self.next = i + 1;
        Some(i)
    }

    /// Records how the job of file `index` ended. A cancellation marks the
    /// file `Cancelled` and ends the run: no further file is started.
    pub fn finish(&mut self, index: usize, outcome: JobOutcome)
        requires
            index < old(self).statuses@.len(),
        ensures
            final(self).statuses@ == old(self).statuses@.update(index as int, status_of(outcome)),
            final(self).next == old(self).next,
            final(self).stopped == (old(self).stopped || outcome == JobOutcome::Cancelled),
    {
        let cancelled = match &outcome {
            JobOutcome::Cancelled => true,
            _ => false,
        };
        let status = match outcome {
            JobOutcome::Succeeded => FileStatus::Completed,
            JobOutcome::Failed(m) => FileStatus::Error(m),
            JobOutcome::Cancelled => FileStatus::Cancelled,
        };
        self.statuses.set(index, status);
        if cancelled {
            self.stopped = true;
        }
    }

    /// Whether the run has nothing more to start.
    pub fn is_done(&self) -> (r: bool)
        ensures
            r == (self.stopped || self.next >= self.statuses@.len()),
    {
        self.stopped || self.next >= self.statuses.len()
    }
}

/// How a job ended, from whether it was cancelled, whether the engine
/// exited successfully and what it wrote to its error stream.
pub fn job_outcome(cancelled: bool, exit_success: bool, stderr: &str) -> (r: JobOutcome)
    ensures
        cancelled ==> r == JobOutcome::Cancelled,
        !cancelled && exit_success ==> r == JobOutcome::Succeeded,
        !cancelled && !exit_success ==> (r matches JobOutcome::Failed(m) && m@ == spec_full_message(
            classify(stderr@, lower_of(stderr@)),
        )),
{
    if cancelled {
        JobOutcome::Cancelled
    } else if exit_success {
        JobOutcome::Succeeded
    } else {
        let e = FfmpegError::parse(stderr);
        JobOutcome::Failed(e.format_user_message())
    }
}

/// Once a job ends cancelled, its file is `Cancelled`, no further file is
/// ever started, and every later file keeps its status.
pub proof fn lemma_cancel_ends_run(s: Seq<FileStatus>, next: int, stopped: bool, index: int)
    requires
        0 <= index < s.len(),
    ensures
        ({
            let after = s.update(index, status_of(JobOutcome::Cancelled));
            &&& after[index] == FileStatus::Cancelled
            &&& started(after, next, true) == (after, None::<int>)
            &&& forall|k: int| index < k < s.len() ==> after[k] == s[k]
        }),
{
}

} // verus!
