use nt_progress::errors::ModeCreationError;
use nt_progress::window_base::{SingleLineBase, WindowBase, WithPassthrough};

#[test]
fn test_window_base_creation() {
    let window = WindowBase::new(10, 5).unwrap();
    assert_eq!(window.max_lines(), 5);
    assert_eq!(window.get_lines().len(), 0);
    assert!(window.is_empty());
}

#[test]
fn test_window_base_invalid_size() {
    let result = WindowBase::new(10, 0);
    assert!(result.is_err());
    if let Err(ModeCreationError::InvalidWindowSize { size, min_size, mode_name, reason: _ }) = result {
        assert_eq!(size, 0);
        assert_eq!(min_size, 1);
        assert_eq!(mode_name, "WindowBase");
    } else {
        panic!("Expected InvalidWindowSize error");
    }
}

#[test]
fn test_window_base_add_message() {
    let mut window = WindowBase::new(10, 3).unwrap();

    window.add_message("Line 1".to_string());
    window.add_message("Line 2".to_string());

    let lines = window.get_lines();
    assert_eq!(lines.len(), 2);
    assert_eq!(lines[0], "Line 1");
    assert_eq!(lines[1], "Line 2");

    window.add_message("Line 3".to_string());
    window.add_message("Line 4".to_string());

    let lines = window.get_lines();
    assert_eq!(lines.len(), 3);
    assert_eq!(lines[0], "Line 2");
    assert_eq!(lines[1], "Line 3");
    assert_eq!(lines[2], "Line 4");
}

#[test]
fn test_window_base_multiline_message() {
    let mut window = WindowBase::new(10, 3).unwrap();

    window.add_message("Line 1\nLine 2\nLine 3".to_string());

    let lines = window.get_lines();
    assert_eq!(lines.len(), 3);
    assert_eq!(lines[0], "Line 1");
    assert_eq!(lines[1], "Line 2");
    assert_eq!(lines[2], "Line 3");
}

#[test]
fn test_window_base_threaded_messages() {
    let mut window = WindowBase::new(10, 5).unwrap();

    window.add_message("[thread1] Message 1".to_string());
    window.add_message("[thread2] Message 2".to_string());
    window.add_message("[thread1] Message 3".to_string());

    let lines = window.get_lines();
    assert_eq!(lines.len(), 2);
    assert!(lines.contains(&"[thread1] Message 3".to_string()));
    assert!(lines.contains(&"[thread2] Message 2".to_string()));
}

#[test]
fn test_window_base_clear() {
    let mut window = WindowBase::new(10, 3).unwrap();

    window.add_message("Line 1".to_string());
    window.add_message("Line 2".to_string());
    assert_eq!(window.line_count(), 2);

    window.clear();
    assert_eq!(window.line_count(), 0);
    assert!(window.is_empty());
}

#[test]
fn test_single_line_base_creation() {
    let base = SingleLineBase::new(10, false);
    assert_eq!(base.get_line(), "");
    assert!(!base.has_passthrough());
}

#[test]
fn test_single_line_base_update() {
    let mut base = SingleLineBase::new(10, false);

    base.update_line("Test line".to_string());
    assert_eq!(base.get_line(), "Test line");

    base.update_line("Updated line".to_string());
    assert_eq!(base.get_line(), "Updated line");
}

#[test]
fn test_single_line_base_passthrough() {
    let mut base = SingleLineBase::new(10, true);
    assert!(base.has_passthrough());

    base.set_passthrough(false);
    assert!(!base.has_passthrough());
}

#[test]
fn wrapping_cuts_at_the_last_space_within_forty_bytes() {
    let mut window = WindowBase::new(1, 10).unwrap();
    window.set_line_wrapping(true);
    window.add_message(
        "This is an extremely long line that will definitely exceed any reasonable terminal width".to_string(),
    );
    let lines = window.get_lines();
    assert_eq!(
        lines,
        vec![
            "This is an extremely long line that",
            "will definitely exceed any reasonable",
            "terminal width",
        ]
    );
    for line in &lines {
        assert!(!line.is_empty() && line.len() <= 40);
    }
}

#[test]
fn wrapping_without_spaces_cuts_at_the_width() {
    let mut window = WindowBase::new(1, 10).unwrap();
    window.set_line_wrapping(true);
    window.add_message("x".repeat(90));
    let lines = window.get_lines();
    assert_eq!(lines, vec!["x".repeat(40), "x".repeat(40), "x".repeat(10)]);
}

#[test]
fn multiline_messages_drop_empty_pieces_and_keep_the_last_lines() {
    let mut window = WindowBase::new(1, 2).unwrap();
    window.add_message("a\n\nb\nc\n".to_string());
    assert_eq!(window.get_lines(), vec!["b", "c"]);
}

#[test]
fn threaded_mode_broadcasts_untagged_messages() {
    let mut window = WindowBase::new(1, 3).unwrap();
    window.add_message("[a] one".to_string());
    window.add_message("[b]   two  ".to_string());
    window.add_message("everyone".to_string());
    assert_eq!(window.get_lines(), vec!["[a] everyone", "[b] everyone"]);
    assert_eq!(window.line_count(), 2);
    assert!(!window.is_empty());
}

#[test]
fn plain_messages_add_their_non_empty_lines_and_keep_the_last_ones() {
    let mut window = WindowBase::new(10, 3).unwrap();
    window.add_message("a".to_string());
    window.add_message("b\n\nc\n".to_string());
    assert_eq!(window.get_lines(), vec!["a", "b", "c"]);
    window.add_message("d".to_string());
    assert_eq!(window.get_lines(), vec!["b", "c", "d"]);
    assert!(window.line_count() <= window.max_lines());
}
