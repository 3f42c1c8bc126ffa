//! Job-tracking capabilities, provided for every type that holds a `BaseConfig`.
use vstd::prelude::*;
use crate::errors::opt_str;
use crate::job::{
    add_unique, completed_state, failed_state, has_failed_state, remove_first, retried_state,
    succeeded_state, BaseConfig, JobState, JobStatus,
};

verus! {

/// Types that contain a `BaseConfig`, directly or through composition.
pub trait HasBaseConfig: Sized {
    /// The job state of the contained `BaseConfig`.
    spec fn base_state(&self) -> JobState;

    /// Whether `other` agrees with `self` in everything but the contained `BaseConfig`.
    spec fn same_but_base(&self, other: Self) -> bool;

    /// Get a reference to the BaseConfig.
    fn base_config(&self) -> (r: &BaseConfig)
        ensures
            r@ == self.base_state(),
    ;

    /// Get a mutable reference to the BaseConfig.
    fn base_config_mut(&mut self) -> (r: &mut BaseConfig)
        ensures
            r@ == old(self).base_state(),
            final(self).base_state() == final(r)@,
            old(self).same_but_base(*final(self)),
    ;
}

impl HasBaseConfig for BaseConfig {
    open spec fn base_state(&self) -> JobState {
        self@
    }

    open spec fn same_but_base(&self, other: Self) -> bool {
        true
    }

    fn base_config(&self) -> (r: &BaseConfig) {
        self
    }

    fn base_config_mut(&mut self) -> (r: &mut BaseConfig) {
        self
    }
}

/// Tracking of job progress.
pub trait JobTracker {
    /// The job state this tracker reports on.
    spec fn job_state(&self) -> JobState;

    /// Get the total number of jobs assigned to this tracker.
    fn get_total_jobs(&self) -> (r: usize)
        ensures
            r == self.job_state().total_jobs,
    ;

    /// Increment the completed jobs counter and return the new value.
    fn increment_completed_jobs(&mut self) -> (r: usize)
        requires
            old(self).job_state().completed_jobs < usize::MAX,
        ensures
            r == old(self).job_state().completed_jobs + 1,
            final(self).job_state() == (JobState { completed_jobs: r, ..old(self).job_state() }),
    ;

    /// Set the total number of jobs for this tracker.
    fn set_total_jobs(&mut self, total: usize)
        ensures
            final(self).job_state() == (JobState { total_jobs: total, ..old(self).job_state() }),
    ;
}

/// Jobs that can be cancelled.
pub trait CancellableJob: JobTracker {
    /// Check if this job has been cancelled.
    fn is_cancelled(&self) -> (r: bool)
        ensures
            r == self.job_state().cancelled,
    ;

    /// Cancel this job with an optional reason.
    fn set_cancelled(&mut self, reason: Option<String>)
        ensures
            final(self).job_state() == (JobState {
                cancelled: true,
                cancellation_reason: opt_str(reason),
                ..old(self).job_state()
            }),
    ;

    /// The reason this job was cancelled, if any.
    fn get_cancellation_reason(&self) -> (r: Option<String>)
        ensures
            opt_str(r) == self.job_state().cancellation_reason,
    ;
}

/// Jobs that can be paused and resumed.
pub trait PausableJob: JobTracker {
    /// Pause this job.
    fn pause(&mut self)
        ensures
            final(self).job_state() == (JobState { paused: true, ..old(self).job_state() }),
    ;

    /// Resume this job.
    fn resume(&mut self)
        ensures
            final(self).job_state() == (JobState { paused: false, ..old(self).job_state() }),
    ;

    /// Check if this job is currently paused.
    fn is_paused(&self) -> (r: bool)
        ensures
            r == self.job_state().paused,
    ;
}

/// Parent-child relationships between jobs.
pub trait HierarchicalJobTracker: JobTracker {
    /// Add a child job; `false` when it was already a child.
    fn add_child_job(&mut self, child_id: usize) -> (r: bool)
        ensures
            r == !old(self).job_state().child_job_ids.contains(child_id),
            final(self).job_state() == (JobState {
                child_job_ids: add_unique(old(self).job_state().child_job_ids, child_id),
                ..old(self).job_state()
            }),
    ;

    /// Remove a child job; `false` when it was not a child.
    fn remove_child_job(&mut self, child_id: usize) -> (r: bool)
        ensures
            r == old(self).job_state().child_job_ids.contains(child_id),
            final(self).job_state() == (JobState {
                child_job_ids: remove_first(old(self).job_state().child_job_ids, child_id),
                ..old(self).job_state()
            }),
    ;

    /// Get the parent job ID if this job has a parent.
    fn get_parent_job_id(&self) -> (r: Option<usize>)
        ensures
            r == self.job_state().parent_job_id,
    ;

    /// Set the parent job ID for this job.
    fn set_parent_job_id(&mut self, parent_id: usize)
        ensures
            final(self).job_state() == (JobState {
                parent_job_id: Some(parent_id),
                ..old(self).job_state()
            }),
    ;

    /// Get the list of child job IDs associated with this job.
    fn get_child_job_ids(&self) -> (r: Vec<usize>)
        ensures
            r@ == self.job_state().child_job_ids,
    ;
}

/// Jobs that can be prioritized; higher values indicate higher priority.
pub trait PrioritizedJob: JobTracker {
    /// Get the priority of this job.
    fn get_priority(&self) -> (r: u32)
        ensures
            r == self.job_state().priority,
    ;

    /// Set the priority of this job.
    fn set_priority(&mut self, priority: u32)
        ensures
            final(self).job_state() == (JobState { priority, ..old(self).job_state() }),
    ;
}

/// Jobs that depend on other jobs.
pub trait DependentJob: JobTracker {
    /// Add a dependency on another job; `false` when it already was one.
    fn add_dependency(&mut self, job_id: usize) -> (r: bool)
        ensures
            r == !old(self).job_state().dependencies.contains(job_id),
            final(self).job_state() == (JobState {
                dependencies: add_unique(old(self).job_state().dependencies, job_id),
                ..old(self).job_state()
            }),
    ;

    /// Remove a dependency; `false` when it was not one.
    fn remove_dependency(&mut self, job_id: usize) -> (r: bool)
        ensures
            r == old(self).job_state().dependencies.contains(job_id),
            final(self).job_state() == (JobState {
                dependencies: remove_first(old(self).job_state().dependencies, job_id),
                ..old(self).job_state()
            }),
    ;

    /// Get the dependencies of this job.
    fn get_dependencies(&self) -> (r: Vec<usize>)
        ensures
            r@ == self.job_state().dependencies,
    ;

    /// Check if this job has dependencies.
    fn has_dependencies(&self) -> (r: bool)
        ensures
            r == (self.job_state().dependencies.len() > 0),
    ;

    /// Check if a specific dependency is satisfied.
    fn is_dependency_satisfied(&self, job_id: usize, is_completed: bool) -> (r: bool)
        ensures
            r == (!self.job_state().dependencies.contains(job_id) || is_completed),
    ;
}

/// Jobs that can handle failures and retries.
pub trait FailureHandlingJob: JobTracker {
    /// Mark the job as failed; returns the new failure count.
    fn mark_failed(&mut self, error: &str) -> (r: usize)
        requires
            old(self).job_state().failure_count < usize::MAX,
        ensures
            r == old(self).job_state().failure_count + 1,
            final(self).job_state() == failed_state(old(self).job_state(), error@),
    ;

    /// Mark the job as succeeded, resetting the failure record.
    fn mark_succeeded(&mut self)
        ensures
            final(self).job_state() == succeeded_state(old(self).job_state()),
    ;

    /// Get the number of times this job has failed.
    fn get_failure_count(&self) -> (r: usize)
        ensures
            r == self.job_state().failure_count,
    ;

    /// Get the most recent error message, if any.
    fn get_error_message(&self) -> (r: Option<String>)
        ensures
            opt_str(r) == self.job_state().error_message,
    ;

    /// Check if the job has failed.
    fn has_failed(&self) -> (r: bool)
        ensures
            r == has_failed_state(self.job_state()),
    ;

    /// Retry the job; returns the new retry count.
    fn retry(&mut self) -> (r: usize)
        requires
            old(self).job_state().retry_count < usize::MAX,
        ensures
            r == old(self).job_state().retry_count + 1,
            final(self).job_state() == retried_state(old(self).job_state()),
    ;

    /// Get the number of times this job has been retried.
    fn get_retry_count(&self) -> (r: usize)
        ensures
            r == self.job_state().retry_count,
    ;

    /// Set the maximum number of retries allowed for this job.
    fn set_max_retries(&mut self, max_retries: usize)
        ensures
            final(self).job_state() == (JobState { max_retries, ..old(self).job_state() }),
    ;

    /// Get the maximum number of retries allowed for this job.
    fn get_max_retries(&self) -> (r: usize)
        ensures
            r == self.job_state().max_retries,
    ;

    /// Check if the job has reached its maximum retry limit.
    fn has_reached_retry_limit(&self) -> (r: bool)
        ensures
            r == (self.job_state().retry_count >= self.job_state().max_retries),
    ;
}

/// Tracking and reporting of job status.
pub trait JobStatusTracker: JobTracker {
    /// Get the current status of the job.
    fn get_status(&self) -> (r: JobStatus)
        ensures
            r == self.job_state().status,
    ;

    /// Set the job status.
    fn set_status(&mut self, status: JobStatus)
        ensures
            final(self).job_state() == (JobState { status, ..old(self).job_state() }),
    ;

    /// Mark the job as running.
    fn mark_running(&mut self)
        ensures
            final(self).job_state() == (JobState {
                status: JobStatus::Running,
                ..old(self).job_state()
            }),
    ;

    /// Mark the job as completed, clearing the failure record.
    fn mark_completed(&mut self)
        ensures
            final(self).job_state() == completed_state(old(self).job_state()),
    ;

    /// Check if the job is in the specified status.
    fn is_in_status(&self, status: JobStatus) -> (r: bool)
        ensures
            r == (self.job_state().status == status),
    ;

    /// Check if the job is pending.
    fn is_pending(&self) -> (r: bool)
        ensures
            r == (self.job_state().status == JobStatus::Pending),
    ;

    /// Check if the job is running.
    fn is_running(&self) -> (r: bool)
        ensures
            r == (self.job_state().status == JobStatus::Running),
    ;

    /// Check if the job is completed.
    fn is_completed(&self) -> (r: bool)
        ensures
            r == (self.job_state().status == JobStatus::Completed),
    ;

    /// Check if the job is in retry state.
    fn is_retrying(&self) -> (r: bool)
        ensures
            r == (self.job_state().status == JobStatus::Retry),
    ;
}

/// Jobs whose state persists across runs of the program.
pub trait PersistentJob: JobTracker + JobStatusTracker + FailureHandlingJob + HierarchicalJobTracker {
    /// Save the job state to `path`.
    fn save_state(&self, path: &str) -> Result<(), crate::io::IoError>;

    /// Load the job state from `path`.
    fn load_state(&mut self, path: &str) -> Result<(), crate::io::IoError>;

    /// Whether a job state is saved at `path`.
    fn state_exists(path: &str) -> bool;

    /// The identifier under which the job persists.
    fn get_persistence_id(&self) -> String;

    /// Set the identifier under which the job persists.
    fn set_persistence_id(&mut self, id: String);

    /// Whether the job has a persistence identifier.
    fn has_persistence_id(&self) -> bool;
}

impl<T: HasBaseConfig> JobTracker for T {
    open spec fn job_state(&self) -> JobState {
        self.base_state()
    }

    fn get_total_jobs(&self) -> (r: usize) {
        self.base_config().get_total_jobs()
    }

    fn increment_completed_jobs(&mut self) -> (r: usize)
        ensures
            old(self).same_but_base(*final(self)),
    {
        self.base_config_mut().increment_completed_jobs()
    }

    fn set_total_jobs(&mut self, total: usize)
        ensures
            old(self).same_but_base(*final(self)),
    {
        self.base_config_mut().set_total_jobs(total);
    }
}

impl<T: HasBaseConfig> CancellableJob for T {
    fn is_cancelled(&self) -> (r: bool) {
        self.base_config().is_cancelled()
    }

    fn set_cancelled(&mut self, reason: Option<String>)
        ensures
            old(self).same_but_base(*final(self)),
    {
        self.base_config_mut().set_cancelled(reason);
    }

    fn get_cancellation_reason(&self) -> (r: Option<String>) {
        self.base_config().get_cancellation_reason()
    }
}

impl<T: HasBaseConfig> PausableJob for T {
    fn pause(&mut self)
        ensures
            old(self).same_but_base(*final(self)),
    {
        self.base_config_mut().pause();
    }

    fn resume(&mut self)
        ensures
            old(self).same_but_base(*final(self)),
    {
        self.base_config_mut().resume();
    }

    fn is_paused(&self) -> (r: bool) {
        self.base_config().is_paused()
    }
}

impl<T: HasBaseConfig> HierarchicalJobTracker for T {
    fn add_child_job(&mut self, child_id: usize) -> (r: bool)
        ensures
            old(self).same_but_base(*final(self)),
    {
        self.base_config_mut().add_child_job(child_id)
    }

    fn remove_child_job(&mut self, child_id: usize) -> (r: bool)
        ensures
            old(self).same_but_base(*final(self)),
    {
        self.base_config_mut().remove_child_job(child_id)
    }

    fn get_parent_job_id(&self) -> (r: Option<usize>) {
        self.base_config().get_parent_job_id()
    }

    fn set_parent_job_id(&mut self, parent_id: usize)
        ensures
            old(self).same_but_base(*final(self)),
    {
        self.base_config_mut().set_parent_job_id(parent_id);
    }

    fn get_child_job_ids(&self) -> (r: Vec<usize>) {
        self.base_config().get_child_job_ids()
    }
}

impl<T: HasBaseConfig> PrioritizedJob for T {
    fn get_priority(&self) -> (r: u32) {
        self.base_config().get_priority()
    }

    fn set_priority(&mut self, priority: u32)
        ensures
            old(self).same_but_base(*final(self)),
    {
        self.base_config_mut().set_priority(priority);
    }
}

impl<T: HasBaseConfig> DependentJob for T {
    fn add_dependency(&mut self, job_id: usize) -> (r: bool)
        ensures
            old(self).same_but_base(*final(self)),
    {
        self.base_config_mut().add_dependency(job_id)
    }

    fn remove_dependency(&mut self, job_id: usize) -> (r: bool)
        ensures
            old(self).same_but_base(*final(self)),
    {
        self.base_config_mut().remove_dependency(job_id)
    }

    fn get_dependencies(&self) -> (r: Vec<usize>) {
        self.base_config().get_dependencies()
    }

    fn has_dependencies(&self) -> (r: bool) {
        self.base_config().has_dependencies()
    }

    fn is_dependency_satisfied(&self, job_id: usize, is_completed: bool) -> (r: bool) {
        self.base_config().is_dependency_satisfied(job_id, is_completed)
    }
}

impl<T: HasBaseConfig> FailureHandlingJob for T {
    fn mark_failed(&mut self, error: &str) -> (r: usize)
        ensures
            old(self).same_but_base(*final(self)),
    {
        self.base_config_mut().mark_failed(error)
    }

    fn mark_succeeded(&mut self)
        ensures
            old(self).same_but_base(*final(self)),
    {
        self.base_config_mut().mark_succeeded();
    }

    fn get_failure_count(&self) -> (r: usize) {
        self.base_config().get_failure_count()
    }

    fn get_error_message(&self) -> (r: Option<String>) {
        self.base_config().get_error_message()
    }

    fn has_failed(&self) -> (r: bool) {
        self.base_config().has_failed()
    }

    fn retry(&mut self) -> (r: usize)
        ensures
            old(self).same_but_base(*final(self)),
    {
        self.base_config_mut().retry()
    }

    fn get_retry_count(&self) -> (r: usize) {
        self.base_config().get_retry_count()
    }

    fn set_max_retries(&mut self, max_retries: usize)
        ensures
            old(self).same_but_base(*final(self)),
    {
        self.base_config_mut().set_max_retries(max_retries);
    }

    fn get_max_retries(&self) -> (r: usize) {
        self.base_config().get_max_retries()
    }

    fn has_reached_retry_limit(&self) -> (r: bool) {
        self.base_config().has_reached_retry_limit()
    }
}

impl<T: HasBaseConfig> JobStatusTracker for T {
    fn get_status(&self) -> (r: JobStatus) {
        self.base_config().get_status()
    }

    fn set_status(&mut self, status: JobStatus)
        ensures
            old(self).same_but_base(*final(self)),
    {
        self.base_config_mut().set_status(status);
    }

    fn mark_running(&mut self)
        ensures
            old(self).same_but_base(*final(self)),
    {
        self.base_config_mut().mark_running();
    }

    fn mark_completed(&mut self)
        ensures
            old(self).same_but_base(*final(self)),
    {
        self.base_config_mut().mark_completed();
    }

    fn is_in_status(&self, status: JobStatus) -> (r: bool) {
        self.base_config().is_in_status(status)
    }

    fn is_pending(&self) -> (r: bool) {
        self.base_config().is_pending()
    }

    fn is_running(&self) -> (r: bool) {
        self.base_config().is_running()
    }

    fn is_completed(&self) -> (r: bool) {
        self.base_config().is_completed()
    }

    fn is_retrying(&self) -> (r: bool) {
        self.base_config().is_retrying()
    }
}

} // verus!
