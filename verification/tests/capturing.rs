use nt_progress::job_traits::{HasBaseConfig, JobTracker};
use nt_progress::modes::{Capturing, Limited, ThreadConfig};

#[test]
fn test_capturing_mode() {
    let mut capturing = Capturing::new(1);

    assert_eq!(capturing.lines_to_display(), 1);
    assert_eq!(capturing.get_lines(), vec![""]);
    assert_eq!(capturing.get_total_jobs(), 1);

    let lines = capturing.handle_message("test message".to_string());
    assert_eq!(lines, vec!["test message"]);

    capturing.handle_message("new message".to_string());
    assert_eq!(capturing.get_lines(), vec!["new message"]);

    capturing.handle_message("final message".to_string());
    assert_eq!(capturing.get_lines(), vec!["final message"]);
    assert_eq!(capturing.get_lines().len(), 1);

    assert_eq!(capturing.increment_completed_jobs(), 1);
}

#[test]
fn test_limited_mode_basic() {
    let mut limited = Limited::new(1);

    assert_eq!(limited.lines_to_display(), 1);
    assert_eq!(limited.get_lines(), vec![""]);
    assert_eq!(limited.base_config().get_total_jobs(), 1);

    let lines = limited.handle_message("test message".to_string());
    assert_eq!(lines, vec!["test message"]);

    limited.handle_message("new message".to_string());
    assert_eq!(limited.get_lines(), vec!["new message"]);

    assert_eq!(limited.base_config_mut().increment_completed_jobs(), 1);
}
