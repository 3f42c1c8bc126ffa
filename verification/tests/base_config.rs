use nt_progress::job::{BaseConfig, JobStatus};

#[test]
fn test_base_config_creation() {
    let base = BaseConfig::new(10);
    assert_eq!(base.get_total_jobs(), 10);
    assert_eq!(base.get_completed_jobs(), 0);
}

#[test]
fn base_config_test_base_config_creation() {
    let base = BaseConfig::new(10);
    assert_eq!(base.get_total_jobs(), 10);
    assert_eq!(base.get_completed_jobs(), 0);
}

#[test]
fn test_base_config_job_tracking() {
    let mut base = BaseConfig::new(10);
    assert_eq!(base.increment_completed_jobs(), 1);
    assert_eq!(base.increment_completed_jobs(), 2);
    assert_eq!(base.get_completed_jobs(), 2);

    base.set_total_jobs(20);
    assert_eq!(base.get_total_jobs(), 20);

    base.set_completed_jobs(15);
    assert_eq!(base.get_completed_jobs(), 15);
}

#[test]
fn base_config_test_base_config_job_tracking() {
    let mut base = BaseConfig::new(10);
    assert_eq!(base.increment_completed_jobs(), 1);
    assert_eq!(base.increment_completed_jobs(), 2);
    assert_eq!(base.get_completed_jobs(), 2);

    base.set_total_jobs(20);
    assert_eq!(base.get_total_jobs(), 20);

    base.set_completed_jobs(15);
    assert_eq!(base.get_completed_jobs(), 15);
}

#[test]
fn test_base_config_child_jobs() {
    let mut base = BaseConfig::new(10);
    assert!(base.add_child_job(1));
    assert!(base.add_child_job(2));
    assert!(!base.add_child_job(1));

    let children = base.get_child_job_ids();
    assert_eq!(children.len(), 2);
    assert!(children.contains(&1));
    assert!(children.contains(&2));

    assert!(base.remove_child_job(1));
    assert!(!base.remove_child_job(3));

    let children = base.get_child_job_ids();
    assert_eq!(children.len(), 1);
    assert!(children.contains(&2));
}

#[test]
fn base_config_test_base_config_child_jobs() {
    let mut base = BaseConfig::new(10);
    assert!(base.add_child_job(1));
    assert!(base.add_child_job(2));
    assert!(!base.add_child_job(1));

    let children = base.get_child_job_ids();
    assert_eq!(children.len(), 2);
    assert!(children.contains(&1));
    assert!(children.contains(&2));

    assert!(base.remove_child_job(1));
    assert!(!base.remove_child_job(3));

    let children = base.get_child_job_ids();
    assert_eq!(children.len(), 1);
    assert!(children.contains(&2));
}

#[test]
fn test_base_config_pause_resume() {
    let mut base = BaseConfig::new(10);
    assert!(!base.is_paused());

    base.pause();
    assert!(base.is_paused());

    base.resume();
    assert!(!base.is_paused());
}

#[test]
fn base_config_test_base_config_pause_resume() {
    let mut base = BaseConfig::new(10);
    assert!(!base.is_paused());

    base.pause();
    assert!(base.is_paused());

    base.resume();
    assert!(!base.is_paused());
}

#[test]
fn test_base_config_priority() {
    let mut base = BaseConfig::new(10);
    assert_eq!(base.get_priority(), 0);

    base.set_priority(5);
    assert_eq!(base.get_priority(), 5);
}

#[test]
fn base_config_test_base_config_priority() {
    let mut base = BaseConfig::new(10);
    assert_eq!(base.get_priority(), 0);

    base.set_priority(5);
    assert_eq!(base.get_priority(), 5);
}

#[test]
fn test_base_config_dependencies() {
    let mut base = BaseConfig::new(10);
    assert!(base.add_dependency(1));
    assert!(base.add_dependency(2));
    assert!(!base.add_dependency(1));

    let deps = base.get_dependencies();
    assert_eq!(deps.len(), 2);
    assert!(deps.contains(&1));
    assert!(deps.contains(&2));

    assert!(base.has_dependencies());

    assert!(base.remove_dependency(1));
    assert!(!base.remove_dependency(3));

    let deps = base.get_dependencies();
    assert_eq!(deps.len(), 1);
    assert!(deps.contains(&2));

    let all_completed = |job_id: usize| job_id == 2;
    assert!(base.are_dependencies_satisfied(all_completed));

    assert!(base.is_dependency_satisfied(2, true));
    assert!(!base.is_dependency_satisfied(2, false));
    assert!(base.is_dependency_satisfied(3, false));
}

#[test]
fn base_config_test_base_config_dependencies() {
    let mut base = BaseConfig::new(10);
    assert!(base.add_dependency(1));
    assert!(base.add_dependency(2));
    assert!(!base.add_dependency(1));

    let deps = base.get_dependencies();
    assert_eq!(deps.len(), 2);
    assert!(deps.contains(&1));
    assert!(deps.contains(&2));

    assert!(base.has_dependencies());

    assert!(base.remove_dependency(1));
    assert!(!base.remove_dependency(3));

    let deps = base.get_dependencies();
    assert_eq!(deps.len(), 1);
    assert!(deps.contains(&2));

    let all_completed = |job_id: usize| job_id == 2;
    assert!(base.are_dependencies_satisfied(all_completed));

    assert!(base.is_dependency_satisfied(2, true));
    assert!(!base.is_dependency_satisfied(2, false));
    assert!(base.is_dependency_satisfied(3, false));
}

#[test]
fn test_base_config_failure() {
    let mut base = BaseConfig::new(10);
    assert_eq!(base.get_failure_count(), 0);

    base.mark_failed("Test error");
    assert_eq!(base.get_failure_count(), 1);

    base.mark_succeeded();
    assert_eq!(base.get_failure_count(), 0);

    assert!(!base.has_failed());

    base.mark_failed("Another test error");
    assert_eq!(base.get_failure_count(), 1);

    assert!(base.has_failed());
}

#[test]
fn test_base_config_retry() {
    let mut base = BaseConfig::new(10);
    assert_eq!(base.get_retry_count(), 0);

    base.retry();
    assert_eq!(base.get_retry_count(), 1);

    base.retry();
    assert_eq!(base.get_retry_count(), 2);
}

#[test]
fn test_base_config_max_retries() {
    let mut base = BaseConfig::new(10);
    assert_eq!(base.get_max_retries(), 3);

    base.set_max_retries(5);
    assert_eq!(base.get_max_retries(), 5);
}

#[test]
fn test_base_config_retry_limit() {
    let mut base = BaseConfig::new(10);
    assert!(!base.has_reached_retry_limit());

    base.retry();
    assert!(!base.has_reached_retry_limit());

    base.retry();
    assert!(!base.has_reached_retry_limit());

    base.retry();
    assert!(base.has_reached_retry_limit());
}

#[test]
fn test_base_config_job_status() {
    let mut base = BaseConfig::new(10);

    assert_eq!(base.get_status(), JobStatus::Pending);

    base.set_status(JobStatus::Running);
    assert_eq!(base.get_status(), JobStatus::Running);

    assert!(base.is_in_status(JobStatus::Running));
    assert!(base.is_running());
    assert!(!base.is_completed());

    base.mark_completed();
    assert_eq!(base.get_status(), JobStatus::Completed);
    assert!(base.is_completed());

    base.mark_failed("Test error");
    assert_eq!(base.get_status(), JobStatus::Failed);
    assert!(!base.is_running());
    assert!(!base.is_completed());

    base.retry();
    assert_eq!(base.get_status(), JobStatus::Retry);
    assert!(base.is_retrying());

    base.mark_running();
    assert_eq!(base.get_status(), JobStatus::Running);
}

#[test]
fn test_base_config_status_to_string() {
    assert_eq!(JobStatus::Pending.to_string(), "Pending");
    assert_eq!(JobStatus::Running.to_string(), "Running");
    assert_eq!(JobStatus::Completed.to_string(), "Completed");
    assert_eq!(JobStatus::Failed.to_string(), "Failed");
    assert_eq!(JobStatus::Retry.to_string(), "Retry");
}

#[test]
fn adding_then_removing_a_child_restores_the_list() {
    let mut base = BaseConfig::new(3);
    base.add_child_job(4);
    base.add_child_job(9);
    let before = base.get_child_job_ids();
    assert!(base.add_child_job(7));
    assert!(!base.add_child_job(7));
    assert!(base.remove_child_job(7));
    assert_eq!(base.get_child_job_ids(), before);
}

#[test]
fn success_clears_the_failure_record() {
    let mut base = BaseConfig::new(3);
    assert_eq!(base.mark_failed("boom"), 1);
    assert_eq!(base.get_error_message(), Some("boom".to_string()));
    assert_eq!(base.retry(), 1);
    assert_eq!(base.get_status(), JobStatus::Retry);
    base.mark_succeeded();
    assert_eq!(base.get_status(), JobStatus::Running);
    assert_eq!(base.get_failure_count(), 0);
    assert_eq!(base.get_retry_count(), 0);
    assert_eq!(base.get_error_message(), None);
}
