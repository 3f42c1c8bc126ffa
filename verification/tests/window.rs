use nt_progress::job_traits::JobTracker;
use nt_progress::modes::{ThreadConfig, Window, WithCustomSize, WithProgress, WithWrappedText};

#[test]
fn test_window_mode_basic() {
    let mut window = Window::new(1, 3).unwrap();
    assert_eq!(window.lines_to_display(), 3);
    assert_eq!(window.get_lines(), Vec::<String>::new());
    assert_eq!(window.get_total_jobs(), 1);

    window.handle_message("line 1".to_string());
    assert_eq!(window.get_lines(), vec!["line 1"]);
    window.handle_message("line 2".to_string());
    assert_eq!(window.get_lines(), vec!["line 1", "line 2"]);
    window.handle_message("line 3".to_string());
    assert_eq!(window.get_lines(), vec!["line 1", "line 2", "line 3"]);
    window.handle_message("line 4".to_string());
    assert_eq!(window.get_lines(), vec!["line 2", "line 3", "line 4"]);

    assert_eq!(window.increment_completed_jobs(), 1);
}

#[test]
fn test_window_mode_invalid_size() {
    assert!(Window::new(1, 0).is_err());
}

#[test]
fn test_window_direct_line_wrapping() {
    let mut window = Window::new(10, 5).unwrap();

    window.set_line_wrapping(true);

    let long_line = "This is an extremely long line that will definitely exceed any reasonable terminal width and force line wrapping to occur.";
    window.handle_message(long_line.to_string());

    let lines = window.get_lines();
    assert!(lines.len() > 1, "Line wrapping should have created multiple lines");

    let combined = lines.join("");
    assert!(combined.contains("This is an extremely long line"), "Original content should be preserved");

    window.set_line_wrapping(false);

    window.handle_message("Another long line that would be wrapped if wrapping was enabled".to_string());

    let lines = window.get_lines();
    assert!(
        lines.contains(&"Another long line that would be wrapped if wrapping was enabled".to_string()),
        "With wrapping disabled, line should be preserved as-is"
    );
}

#[test]
fn test_window_has_job_tracker() {
    let window = Window::new(10, 5).unwrap();
    assert_eq!(window.get_total_jobs(), 10);
    assert_eq!(window.get_completed_jobs(), 0);
}

#[test]
fn resizing_a_window_empties_it() {
    let mut window = Window::new(4, 2).unwrap();
    window.handle_message("a".to_string());
    assert!(window.set_max_lines(0).is_err());
    assert_eq!(window.get_lines(), vec!["a"]);
    window.set_max_lines(5).unwrap();
    assert_eq!(window.get_max_lines(), 5);
    assert_eq!(window.lines_to_display(), 5);
    assert!(window.get_lines().is_empty());
    assert_eq!(window.get_total_jobs(), 4);
}
