use nt_progress::job::{BaseConfig, JobState, JobStatus};
use nt_progress::job_traits::{
    DependentJob, FailureHandlingJob, HasBaseConfig, HierarchicalJobTracker, JobStatusTracker,
    JobTracker, PausableJob, PrioritizedJob,
};

#[derive(Debug)]
struct TestTracker {
    base: BaseConfig,
}

impl TestTracker {
    fn new(total_jobs: usize) -> Self {
        Self { base: BaseConfig::new(total_jobs) }
    }
}

impl HasBaseConfig for TestTracker {
    fn base_state(&self) -> JobState {
        self.base.base_state()
    }

    fn same_but_base(&self, _other: Self) -> bool {
        true
    }

    fn base_config(&self) -> &BaseConfig {
        &self.base
    }

    fn base_config_mut(&mut self) -> &mut BaseConfig {
        &mut self.base
    }
}

#[test]
fn test_job_tracker_impl() {
    let mut tracker = TestTracker::new(10);
    assert_eq!(tracker.get_total_jobs(), 10);
    assert_eq!(tracker.increment_completed_jobs(), 1);

    tracker.set_total_jobs(20);
    assert_eq!(tracker.get_total_jobs(), 20);
}

#[test]
fn test_pausable_job_impl() {
    let mut tracker = TestTracker::new(10);
    assert!(!tracker.is_paused());

    tracker.pause();
    assert!(tracker.is_paused());

    tracker.resume();
    assert!(!tracker.is_paused());
}

#[test]
fn test_prioritized_job_impl() {
    let mut tracker = TestTracker::new(10);
    assert_eq!(tracker.get_priority(), 0);

    tracker.set_priority(5);
    assert_eq!(tracker.get_priority(), 5);
}

#[test]
fn test_dependent_job_impl() {
    let mut tracker = TestTracker::new(10);

    assert!(tracker.add_dependency(1));
    assert!(tracker.add_dependency(2));

    let deps = tracker.get_dependencies();
    assert_eq!(deps.len(), 2);
    assert!(deps.contains(&1));
    assert!(deps.contains(&2));

    assert!(tracker.has_dependencies());

    assert!(tracker.is_dependency_satisfied(3, false));
    assert!(!tracker.is_dependency_satisfied(1, false));
    assert!(tracker.is_dependency_satisfied(1, true));

    assert!(tracker.remove_dependency(1));
    assert_eq!(tracker.get_dependencies().len(), 1);
}

#[test]
fn test_failure_handling_job_impl() {
    let mut tracker = TestTracker::new(10);

    assert_eq!(tracker.get_failure_count(), 0);
    assert_eq!(tracker.mark_failed("Test error"), 1);
    assert_eq!(tracker.get_failure_count(), 1);
    assert_eq!(tracker.get_error_message(), Some("Test error".to_string()));
    assert!(tracker.has_failed());

    assert_eq!(tracker.retry(), 1);
    assert_eq!(tracker.get_retry_count(), 1);
    assert!(!tracker.has_failed());

    assert_eq!(tracker.get_max_retries(), 3);
    tracker.set_max_retries(2);
    assert_eq!(tracker.get_max_retries(), 2);

    assert!(!tracker.has_reached_retry_limit());
    tracker.retry();
    assert!(tracker.has_reached_retry_limit());

    tracker.mark_succeeded();
    assert_eq!(tracker.get_failure_count(), 0);
    assert_eq!(tracker.get_retry_count(), 0);
    assert!(!tracker.has_failed());
}

#[test]
fn test_job_status_tracker_impl() {
    let mut tracker = TestTracker::new(10);

    assert_eq!(tracker.get_status(), JobStatus::Pending);

    tracker.mark_running();
    assert_eq!(tracker.get_status(), JobStatus::Running);
    assert!(tracker.is_running());

    tracker.mark_completed();
    assert_eq!(tracker.get_status(), JobStatus::Completed);
    assert!(tracker.is_completed());

    assert!(tracker.is_in_status(JobStatus::Completed));
    assert!(!tracker.is_in_status(JobStatus::Running));

    tracker.mark_failed("Test error");
    assert_eq!(tracker.get_status(), JobStatus::Failed);

    tracker.retry();
    assert_eq!(tracker.get_status(), JobStatus::Retry);
    assert!(tracker.is_retrying());
}

#[test]
fn test_hierarchical_job_tracker_impl() {
    let mut tracker = TestTracker::new(10);

    assert!(tracker.add_child_job(1));
    assert!(tracker.add_child_job(2));

    let children = tracker.get_child_job_ids();
    assert_eq!(children.len(), 2);
    assert!(children.contains(&1));
    assert!(children.contains(&2));

    assert_eq!(tracker.get_parent_job_id(), None);
    tracker.set_parent_job_id(5);
    assert_eq!(tracker.get_parent_job_id(), Some(5));
}
