//! Per-job bookkeeping shared by every display mode: progress counters,
//! parent/child links, dependencies, priority, pausing, failures and status.
use vstd::prelude::*;
use crate::errors::opt_str;
use crate::strs::owned;

verus! {

/// Represents the current status of a job.
#[derive(Debug, Clone, Copy, PartialEq, Eq, Structural)]
pub enum JobStatus {
    /// Job is waiting to be started
    Pending,
    /// Job is currently running
    Running,
    /// Job has completed successfully
    Completed,
    /// Job has failed
    Failed,
    /// Job is being retried after a failure
    Retry,
}

impl JobStatus {
    /// The name of the status.
    pub open spec fn name(self) -> Seq<char> {
        match self {
            JobStatus::Pending => "Pending"@,
            JobStatus::Running => "Running"@,
            JobStatus::Completed => "Completed"@,
            JobStatus::Failed => "Failed"@,
            JobStatus::Retry => "Retry"@,
        }
    }

    /// Renders the status as its name.
    pub fn to_string(&self) -> (s: String)
        ensures
            s@ == self.name(),
    {
        match self {
            JobStatus::Pending => owned("Pending"),
            JobStatus::Running => owned("Running"),
            JobStatus::Completed => owned("Completed"),
            JobStatus::Failed => owned("Failed"),
            JobStatus::Retry => owned("Retry"),
        }
    }
}

/// `s` without the first occurrence of `x` (unchanged when `x` does not occur).
pub open spec fn remove_first(s: Seq<usize>, x: usize) -> Seq<usize>
    decreases s.len(),
{
    if s.len() == 0 {
        s
    } else if s[0] == x {
        s.drop_first()
    } else {
        seq![s[0]] + remove_first(s.drop_first(), x)
    }
}

/// `s` with `x` appended unless it already occurs.
pub open spec fn add_unique(s: Seq<usize>, x: usize) -> Seq<usize> {
    if s.contains(x) {
        s
    } else {
        s.push(x)
    }
}

/// Whether no element of `s` occurs twice.
pub open spec fn no_duplicates(s: Seq<usize>) -> bool {
    forall|i: int, j: int| 0 <= i < s.len() && 0 <= j < s.len() && i != j ==> s[i] != s[j]
}

proof fn lemma_remove_first_at(s: Seq<usize>, x: usize, p: int)
    requires
        0 <= p < s.len(),
        s[p] == x,
        forall|j: int| 0 <= j < p ==> s[j] != x,
    ensures
        remove_first(s, x) == s.remove(p),
    decreases p,
{
    if p == 0 {
        assert(s.drop_first() =~= s.remove(0));
    } else {
        let t = s.drop_first();
        assert forall|j: int| 0 <= j < p - 1 implies t[j] != x by {
            assert(t[j] == s[j + 1]);
        }
        lemma_remove_first_at(t, x, p - 1);
        assert(seq![s[0]] + t.remove(p - 1) =~= s.remove(p));
    }
}

proof fn lemma_remove_first_absent(s: Seq<usize>, x: usize)
    requires
        !s.contains(x),
    ensures
        remove_first(s, x) == s,
    decreases s.len(),
{
    if s.len() > 0 {
        let t = s.drop_first();
        assert(!t.contains(x)) by {
            if t.contains(x) {
                let k = choose|k: int| 0 <= k < t.len() && t[k] == x;
                assert(s[k + 1] == x);
            }
        }
        lemma_remove_first_absent(t, x);
        assert(s[0] != x);
        assert(seq![s[0]] + t =~= s);
    }
}

/// Removes the first occurrence of `x` from `v`; tells whether there was one.
fn vec_remove_first(v: &mut Vec<usize>, x: usize) -> (found: bool)
    ensures
        found == old(v)@.contains(x),
        final(v)@ == remove_first(old(v)@, x),
{
    let mut i: usize = 0;
    while i < v.len()
        invariant
            i <= v@.len(),
            v@ == old(v)@,
            forall|j: int| 0 <= j < i ==> v@[j] != x,
        decreases v@.len() - i,
    {
        if v[i] == x {
            proof {
                lemma_remove_first_at(v@, x, i as int);
            }
            v.remove(i);
            return true;
        }
        i = i + 1;
    }
    proof {
        lemma_remove_first_absent(v@, x);
    }
    false
}

/// Whether `x` occurs in `v`.
fn vec_contains(v: &Vec<usize>, x: usize) -> (r: bool)
    ensures
        r == v@.contains(x),
{
    let mut i: usize = 0;
    while i < v.len()
        invariant
            i <= v@.len(),
            forall|j: int| 0 <= j < i ==> v@[j] != x,
        decreases v@.len() - i,
    {
        if v[i] == x {
            return true;
        }
        i = i + 1;
    }
    false
}

/// Appends `x` to `v` unless it already occurs; tells whether it was appended.
fn vec_add_unique(v: &mut Vec<usize>, x: usize) -> (added: bool)
    ensures
        added == !old(v)@.contains(x),
        final(v)@ == add_unique(old(v)@, x),
{
    if vec_contains(v, x) {
        false
    } else {
        v.push(x);
        true
    }
}

/// The abstract state of a job's bookkeeping.
pub struct JobState {
    pub total_jobs: usize,
    pub completed_jobs: usize,
    pub progress_format: Seq<char>,
    pub parent_job_id: Option<usize>,
    pub child_job_ids: Seq<usize>,
    pub paused: bool,
    pub priority: u32,
    pub dependencies: Seq<usize>,
    pub failure_count: usize,
    pub error_message: Option<Seq<char>>,
    pub retry_count: usize,
    pub max_retries: usize,
    pub status: JobStatus,
    pub cancelled: bool,
    pub cancellation_reason: Option<Seq<char>>,
}

/// The job after a failure with `error`: status Failed, one more failure, the error kept.
pub open spec fn failed_state(s: JobState, error: Seq<char>) -> JobState {
    JobState {
        status: JobStatus::Failed,
        failure_count: (s.failure_count + 1) as usize,
        error_message: Some(error),
        ..s
    }
}

/// The job after a retry: status Retry, the error cleared, one more retry.
pub open spec fn retried_state(s: JobState) -> JobState {
    JobState { status: JobStatus::Retry, error_message: None, retry_count: (s.retry_count + 1) as usize, ..s }
}

/// The job after a success: the failure record cleared, and Running unless it was
/// Completed.
pub open spec fn succeeded_state(s: JobState) -> JobState {
    JobState {
        status: if s.status == JobStatus::Completed {
            JobStatus::Completed
        } else {
            JobStatus::Running
        },
        failure_count: 0,
        retry_count: 0,
        error_message: None,
        ..s
    }
}

/// The job after completion: status Completed and the failure record cleared.
pub open spec fn completed_state(s: JobState) -> JobState {
    JobState { status: JobStatus::Completed, failure_count: 0, retry_count: 0, error_message: None, ..s }
}

/// Whether the job counts as failed: it has failures and an error message.
pub open spec fn has_failed_state(s: JobState) -> bool {
    s.failure_count > 0 && s.error_message is Some
}

/// Base configuration for progress tracking shared across different display modes.
///
/// It tracks job progress and the relationships of a job to other jobs.
#[derive(Debug, Clone)]
pub struct BaseConfig {
    total_jobs: usize,
    completed_jobs: usize,
    progress_format: String,
    parent_job_id: Option<usize>,
    child_job_ids: Vec<usize>,
    paused: bool,
    priority: u32,
    dependencies: Vec<usize>,
    failure_count: usize,
    error_message: Option<String>,
    retry_count: usize,
    max_retries: usize,
    status: JobStatus,
    cancelled: bool,
    cancellation_reason: Option<String>,
}

impl View for BaseConfig {
    type V = JobState;

    closed spec fn view(&self) -> JobState {
        JobState {
            total_jobs: self.total_jobs,
            completed_jobs: self.completed_jobs,
            progress_format: self.progress_format@,
            parent_job_id: self.parent_job_id,
            child_job_ids: self.child_job_ids@,
            paused: self.paused,
            priority: self.priority,
            dependencies: self.dependencies@,
            failure_count: self.failure_count,
            error_message: opt_str(self.error_message),
            retry_count: self.retry_count,
            max_retries: self.max_retries,
            status: self.status,
            cancelled: self.cancelled,
            cancellation_reason: opt_str(self.cancellation_reason),
        }
    }
}

/// The state of a freshly created job tracking `total_jobs` jobs.
pub open spec fn initial_job_state(total_jobs: usize) -> JobState {
    JobState {
        total_jobs,
        completed_jobs: 0,
        progress_format: "{completed}/{total} ({percent}%)"@,
        parent_job_id: None,
        child_job_ids: Seq::empty(),
        paused: false,
        priority: 0,
        dependencies: Seq::empty(),
        failure_count: 0,
        error_message: None,
        retry_count: 0,
        max_retries: 3,
        status: JobStatus::Pending,
        cancelled: false,
        cancellation_reason: None,
    }
}

impl BaseConfig {
    /// Creates a new BaseConfig with the specified number of total jobs.
    pub fn new(total_jobs: usize) -> (r: Self)
        ensures
            r@ == initial_job_state(total_jobs),
    {
        let r = BaseConfig {
            total_jobs,
            completed_jobs: 0,
            progress_format: owned("{completed}/{total} ({percent}%)"),
            parent_job_id: None,
            child_job_ids: Vec::new(),
            paused: false,
            priority: 0,
            dependencies: Vec::new(),
            failure_count: 0,
            error_message: None,
            retry_count: 0,
            max_retries: 3,
            status: JobStatus::Pending,
            cancelled: false,
            cancellation_reason: None,
        };
        assert(r@.child_job_ids =~= Seq::<usize>::empty());
        assert(r@.dependencies =~= Seq::<usize>::empty());
        r
    }

    /// Get the total number of jobs.
    pub fn get_total_jobs(&self) -> (r: usize)
        ensures
            r == self@.total_jobs,
    {
        self.total_jobs
    }

    /// Increment the completed jobs counter and return the new value.
    pub fn increment_completed_jobs(&mut self) -> (r: usize)
        requires
            old(self)@.completed_jobs < usize::MAX,
        ensures
            r == old(self)@.completed_jobs + 1,
            final(self)@ == (JobState { completed_jobs: r, ..old(self)@ }),
    {
        self.completed_jobs = self.completed_jobs + 1;
        self.completed_jobs
    }

    /// Set the total number of jobs.
    pub fn set_total_jobs(&mut self, total: usize)
        ensures
            final(self)@ == (JobState { total_jobs: total, ..old(self)@ }),
    {
        self.total_jobs = total;
    }

    /// Get the number of completed jobs.
    pub fn get_completed_jobs(&self) -> (r: usize)
        ensures
            r == self@.completed_jobs,
    {
        self.completed_jobs
    }

    /// Set the number of completed jobs; returns the new count.
    pub fn set_completed_jobs(&mut self, completed: usize) -> (r: usize)
        ensures
            r == completed,
            final(self)@ == (JobState { completed_jobs: completed, ..old(self)@ }),
    {
        self.completed_jobs = completed;
        completed
    }

    /// Get the progress format string.
    pub fn get_progress_format(&self) -> (r: &str)
        ensures
            r@ == self@.progress_format,
    {
        self.progress_format.as_str()
    }

    /// Set the progress format string.
    pub fn set_progress_format(&mut self, format: &str)
        ensures
            final(self)@ == (JobState { progress_format: format@, ..old(self)@ }),
    {
        self.progress_format = owned(format);
    }

    /// Add a child job; `false` when it was already a child.
    pub fn add_child_job(&mut self, child_id: usize) -> (r: bool)
        ensures
            r == !old(self)@.child_job_ids.contains(child_id),
            final(self)@ == (JobState {
                child_job_ids: add_unique(old(self)@.child_job_ids, child_id),
                ..old(self)@
            }),
    {
        vec_add_unique(&mut self.child_job_ids, child_id)
    }

    /// Remove a child job; `false` when it was not a child.
    pub fn remove_child_job(&mut self, child_id: usize) -> (r: bool)
        ensures
            r == old(self)@.child_job_ids.contains(child_id),
            final(self)@ == (JobState {
                child_job_ids: remove_first(old(self)@.child_job_ids, child_id),
                ..old(self)@
            }),
    {
        vec_remove_first(&mut self.child_job_ids, child_id)
    }

    /// Get the parent job ID if this job has a parent.
    pub fn get_parent_job_id(&self) -> (r: Option<usize>)
        ensures
            r == self@.parent_job_id,
    {
        self.parent_job_id
    }

    /// Set the parent job ID for this job.
    pub fn set_parent_job_id(&mut self, parent_id: usize)
        ensures
            final(self)@ == (JobState { parent_job_id: Some(parent_id), ..old(self)@ }),
    {
        self.parent_job_id = Some(parent_id);
    }

    /// Get the list of child job IDs associated with this job.
    pub fn get_child_job_ids(&self) -> (r: Vec<usize>)
        ensures
            r@ == self@.child_job_ids,
    {
        self.child_job_ids.clone()
    }

    /// Pause this job.
    pub fn pause(&mut self)
        ensures
            final(self)@ == (JobState { paused: true, ..old(self)@ }),
    {
        self.paused = true;
    }

    /// Resume this job.
    pub fn resume(&mut self)
        ensures
            final(self)@ == (JobState { paused: false, ..old(self)@ }),
    {
        self.paused = false;
    }

    /// Check if this job is currently paused.
    pub fn is_paused(&self) -> (r: bool)
        ensures
            r == self@.paused,
    {
        self.paused
    }

    /// Get the priority of this job.
    pub fn get_priority(&self) -> (r: u32)
        ensures
            r == self@.priority,
    {
        self.priority
    }

    /// Set the priority of this job.
    pub fn set_priority(&mut self, priority: u32)
        ensures
            final(self)@ == (JobState { priority, ..old(self)@ }),
    {
        self.priority = priority;
    }

    /// Add a dependency on another job; `false` when it already was one.
    pub fn add_dependency(&mut self, job_id: usize) -> (r: bool)
        ensures
            r == !old(self)@.dependencies.contains(job_id),
            final(self)@ == (JobState {
                dependencies: add_unique(old(self)@.dependencies, job_id),
                ..old(self)@
            }),
    {
        vec_add_unique(&mut self.dependencies, job_id)
    }

    /// Remove a dependency; `false` when it was not one.
    pub fn remove_dependency(&mut self, job_id: usize) -> (r: bool)
        ensures
            r == old(self)@.dependencies.contains(job_id),
            final(self)@ == (JobState {
                dependencies: remove_first(old(self)@.dependencies, job_id),
                ..old(self)@
            }),
    {
        vec_remove_first(&mut self.dependencies, job_id)
    }

    /// Get the dependencies of this job.
    pub fn get_dependencies(&self) -> (r: Vec<usize>)
        ensures
            r@ == self@.dependencies,
    {
        self.dependencies.clone()
    }

    /// Check if this job has dependencies.
    pub fn has_dependencies(&self) -> (r: bool)
        ensures
            r == (self@.dependencies.len() > 0),
    {
        self.dependencies.len() > 0
    }

    /// Check if all dependencies are satisfied according to `is_completed`.
    pub fn are_dependencies_satisfied<F: Fn(usize) -> bool>(&self, is_completed: F) -> (r: bool)
        requires
            forall|i: int| 0 <= i < self@.dependencies.len() ==> is_completed.requires((#[trigger] self@.dependencies[i],)),
        ensures
            r ==> forall|i: int| 0 <= i < self@.dependencies.len() ==> is_completed.ensures((#[trigger] self@.dependencies[i],), true),
            !r ==> exists|i: int| 0 <= i < self@.dependencies.len() && is_completed.ensures((#[trigger] self@.dependencies[i],), false),
    {
        let mut i: usize = 0;
        while i < self.dependencies.len()
            invariant
                i <= self@.dependencies.len(),
                forall|k: int| 0 <= k < self@.dependencies.len() ==> is_completed.requires((#[trigger] self@.dependencies[k],)),
                forall|k: int| 0 <= k < i ==> is_completed.ensures((#[trigger] self@.dependencies[k],), true),
            decreases self@.dependencies.len() - i,
        {
            let d = self.dependencies[i];
            let done = is_completed(d);
            if !done {
                assert(is_completed.ensures((self@.dependencies[i as int],), false));
                return false;
            }
            i = i + 1;
        }
        true
    }

    /// Check if a specific dependency is satisfied.
    pub fn is_dependency_satisfied(&self, job_id: usize, is_completed: bool) -> (r: bool)
        ensures
            r == (!self@.dependencies.contains(job_id) || is_completed),
    {
        !vec_contains(&self.dependencies, job_id) || is_completed
    }

    /// Get the current status of the job.
    pub fn get_status(&self) -> (r: JobStatus)
        ensures
            r == self@.status,
    {
        self.status
    }

    /// Set the job status.
    pub fn set_status(&mut self, status: JobStatus)
        ensures
            final(self)@ == (JobState { status, ..old(self)@ }),
    {
        self.status = status;
    }

    /// Mark the job as running.
    pub fn mark_running(&mut self)
        ensures
            final(self)@ == (JobState { status: JobStatus::Running, ..old(self)@ }),
    {
        self.set_status(JobStatus::Running);
    }

    /// Mark the job as completed: the status becomes Completed and the failure
    /// record is cleared.
    pub fn mark_completed(&mut self)
        ensures
            final(self)@ == completed_state(old(self)@),
    {
        self.set_status(JobStatus::Completed);
        self.mark_succeeded();
    }

    /// Mark the job as failed; returns the new failure count.
    pub fn mark_failed(&mut self, error: &str) -> (r: usize)
        requires
            old(self)@.failure_count < usize::MAX,
        ensures
            r == old(self)@.failure_count + 1,
            final(self)@ == failed_state(old(self)@, error@),
    {
        self.set_status(JobStatus::Failed);
        self.failure_count = self.failure_count + 1;
        self.error_message = Some(owned(error));
        self.failure_count
    }

    /// Retry the job: the status becomes Retry, the error message is cleared and
    /// the retry count grows by one; returns the new retry count.
    pub fn retry(&mut self) -> (r: usize)
        requires
            old(self)@.retry_count < usize::MAX,
        ensures
            r == old(self)@.retry_count + 1,
            final(self)@ == retried_state(old(self)@),
    {
        self.set_status(JobStatus::Retry);
        self.error_message = None;
        self.retry_count = self.retry_count + 1;
        self.retry_count
    }

    /// Check if the job is in the specified status.
    pub fn is_in_status(&self, status: JobStatus) -> (r: bool)
        ensures
            r == (self@.status == status),
    {
        self.status == status
    }

    /// Check if the job is pending.
    pub fn is_pending(&self) -> (r: bool)
        ensures
            r == (self@.status == JobStatus::Pending),
    {
        self.is_in_status(JobStatus::Pending)
    }

    /// Check if the job is running.
    pub fn is_running(&self) -> (r: bool)
        ensures
            r == (self@.status == JobStatus::Running),
    {
        self.is_in_status(JobStatus::Running)
    }

    /// Check if the job is completed.
    pub fn is_completed(&self) -> (r: bool)
        ensures
            r == (self@.status == JobStatus::Completed),
    {
        self.is_in_status(JobStatus::Completed)
    }

    /// Check if the job is in retry state.
    pub fn is_retrying(&self) -> (r: bool)
        ensures
            r == (self@.status == JobStatus::Retry),
    {
        self.is_in_status(JobStatus::Retry)
    }

    /// Mark the job as succeeded: failure and retry counts are reset, the error
    /// message is cleared, and a job that is not Completed becomes Running.
    pub fn mark_succeeded(&mut self)
        ensures
            final(self)@ == succeeded_state(old(self)@),
    {
        if !self.is_completed() {
            self.set_status(JobStatus::Running);
        }
        self.failure_count = 0;
        self.retry_count = 0;
        self.error_message = None;
    }

    /// Get the number of times this job has failed.
    pub fn get_failure_count(&self) -> (r: usize)
        ensures
            r == self@.failure_count,
    {
        self.failure_count
    }

    /// Get the most recent error message, if any.
    pub fn get_error_message(&self) -> (r: Option<String>)
        ensures
            opt_str(r) == self@.error_message,
    {
        match &self.error_message {
            Some(m) => Some(m.clone()),
            None => None,
        }
    }

    /// Check if the job has failed: it has a failure count and an error message.
    pub fn has_failed(&self) -> (r: bool)
        ensures
            r == has_failed_state(self@),
    {
        self.failure_count > 0 && self.error_message.is_some()
    }

    /// Get the number of times this job has been retried.
    pub fn get_retry_count(&self) -> (r: usize)
        ensures
            r == self@.retry_count,
    {
        self.retry_count
    }

    /// Set the maximum number of retries allowed for this job.
    pub fn set_max_retries(&mut self, max_retries: usize)
        ensures
            final(self)@ == (JobState { max_retries, ..old(self)@ }),
    {
        self.max_retries = max_retries;
    }

    /// Get the maximum number of retries allowed for this job.
    pub fn get_max_retries(&self) -> (r: usize)
        ensures
            r == self@.max_retries,
    {
        self.max_retries
    }

    /// Check if the job has reached its maximum retry limit.
    pub fn has_reached_retry_limit(&self) -> (r: bool)
        ensures
            r == (self@.retry_count >= self@.max_retries),
    {
        self.retry_count >= self.max_retries
    }

    /// Check if the job has been cancelled.
    pub fn is_cancelled(&self) -> (r: bool)
        ensures
            r == self@.cancelled,
    {
        self.cancelled
    }

    /// Cancel the job with an optional reason.
    pub fn set_cancelled(&mut self, reason: Option<String>)
        ensures
            final(self)@ == (JobState {
                cancelled: true,
                cancellation_reason: opt_str(reason),
                ..old(self)@
            }),
    {
        self.cancelled = true;
        self.cancellation_reason = reason;
    }

    /// The reason the job was cancelled, if any.
    pub fn get_cancellation_reason(&self) -> (r: Option<String>)
        ensures
            opt_str(r) == self@.cancellation_reason,
    {
        match &self.cancellation_reason {
            Some(m) => Some(m.clone()),
            None => None,
        }
    }
}

} // verus!
