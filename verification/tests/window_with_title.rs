use nt_progress::errors::ModeCreationError;
use nt_progress::modes::{
    StandardWindow, ThreadConfig, WithCustomSize, WithEmoji, WithTitle, WithTitleAndEmoji,
};
use nt_progress::titled::WindowWithTitle;

#[test]
fn test_window_with_title_mode_basic() {
    let mut mode = WindowWithTitle::new(1, 4, "Test Title".to_string()).unwrap();

    assert_eq!(mode.get_lines(), vec!["Test Title"]);

    mode.handle_message("Message 1".to_string());
    assert_eq!(mode.get_lines(), vec!["Test Title", "Message 1"]);

    mode.handle_message("Message 2".to_string());
    assert_eq!(mode.get_lines(), vec!["Test Title", "Message 1", "Message 2"]);

    mode.handle_message("Message 3".to_string());
    assert_eq!(mode.get_lines(), vec!["Test Title", "Message 1", "Message 2", "Message 3"]);

    mode.set_title("New Title".to_string()).unwrap();
    assert_eq!(mode.get_lines(), vec!["New Title", "Message 1", "Message 2", "Message 3"]);
}

#[test]
fn test_window_with_title_mode_concurrent() {
    let mut mode = WindowWithTitle::new(2, 4, "Concurrent Test".to_string()).unwrap();

    mode.handle_message("Thread 1: Starting".to_string());
    mode.handle_message("Thread 2: Starting".to_string());

    let lines = mode.get_lines();
    assert_eq!(lines[0], "Concurrent Test");
    assert!(lines.contains(&"Thread 1: Starting".to_string()));
    assert!(lines.contains(&"Thread 2: Starting".to_string()));
}

#[test]
fn test_window_with_title_mode_long_lines() {
    let mut mode = WindowWithTitle::new(1, 3, "Long Lines".to_string()).unwrap();

    let long_line = "A".repeat(100);
    mode.handle_message(long_line.clone());

    let lines = mode.get_lines();
    assert_eq!(lines[0], "Long Lines");
    assert_eq!(lines[1], long_line);
}

#[test]
fn test_window_with_title_mode_special_characters() {
    let mut mode = WindowWithTitle::new(1, 3, "Special Chars".to_string()).unwrap();

    let special_chars = "🌟✨🎉";
    mode.handle_message(special_chars.to_string());

    let lines = mode.get_lines();
    assert_eq!(lines[0], "Special Chars");
    assert_eq!(lines[1], special_chars);
}

#[test]
fn test_window_with_title_mode_emoji() {
    let mut mode = WindowWithTitle::new(1, 3, "Emoji Test".to_string()).unwrap();

    mode.add_emoji("🚀").unwrap();
    let lines = mode.get_lines();
    assert_eq!(lines[0], "🚀 Emoji Test");
}

#[test]
fn test_window_with_title_mode_emoji_errors() {
    let mut mode = WindowWithTitle::new(1, 3, "Emoji Errors".to_string()).unwrap();
    mode.set_emoji_support(false);

    assert!(mode.add_emoji("🚀").is_err());
}

#[test]
fn test_window_with_title_mode_multiple_emojis() {
    let mut mode = WindowWithTitle::new(1, 3, "Multiple Emojis".to_string()).unwrap();

    mode.add_emoji("🚀").unwrap();
    mode.add_emoji("✨").unwrap();

    let lines = mode.get_lines();
    assert_eq!(lines[0], "🚀 ✨ Multiple Emojis");
}

#[test]
fn test_window_with_title_mode_set_title() {
    let mut mode = WindowWithTitle::new(1, 3, "Initial Title".to_string()).unwrap();

    mode.set_title("New Title".to_string()).unwrap();
    assert_eq!(mode.get_title(), "New Title");
    assert_eq!(mode.get_lines()[0], "New Title");
}

#[test]
fn test_window_with_title_mode_set_title_error() {
    let mut mode = WindowWithTitle::new(1, 3, "Title Test".to_string()).unwrap();
    mode.set_title_support(false);

    assert!(mode.set_title("New Title".to_string()).is_err());
    assert_eq!(mode.get_title(), "Title Test");
}

#[test]
fn titled_window_sizes_and_errors() {
    match WindowWithTitle::new(1, 1, "T".to_string()) {
        Err(ModeCreationError::InvalidWindowSize { size, min_size, mode_name, .. }) => {
            assert_eq!(size, 1);
            assert_eq!(min_size, 2);
            assert_eq!(mode_name, "WindowWithTitle");
        }
        _ => panic!("expected InvalidWindowSize"),
    }
    let mut mode = WindowWithTitle::new(1, 3, String::new()).unwrap();
    assert_eq!(mode.get_title(), "Progress");
    assert_eq!(mode.lines_to_display(), 3);
    assert_eq!(mode.get_max_lines(), 3);
    for m in ["a", "b", "c"] {
        mode.add_line(m.to_string());
    }
    assert_eq!(mode.get_content(), vec!["b", "c"]);
    mode.set_max_lines(4).unwrap();
    assert_eq!(mode.get_content(), vec!["b", "c"]);
    assert_eq!(mode.lines_to_display(), 4);
    assert!(mode.set_max_lines(1).is_err());
}

#[test]
fn emojis_are_kept_once_and_blank_ones_refused() {
    let mut mode = WindowWithTitle::new(1, 3, "T".to_string()).unwrap();
    mode.add_emoji("🚀").unwrap();
    mode.add_emoji("🚀").unwrap();
    assert_eq!(mode.get_emojis(), vec!["🚀"]);
    match mode.add_emoji("  ") {
        Err(ModeCreationError::Implementation(m)) => assert_eq!(m, "Emoji cannot be empty"),
        _ => panic!("expected Implementation"),
    }
    assert_eq!(mode.get_formatted_title(), "🚀 T");
    mode.reset_with_title("U".to_string()).unwrap();
    assert_eq!(mode.get_formatted_title(), "U");
    mode.set_title_with_emoji("V".to_string(), "✨").unwrap();
    assert_eq!(mode.get_formatted_title(), "✨ V");
}

#[test]
fn long_titles_are_cut_with_an_ellipsis() {
    let mode = WindowWithTitle::new(1, 3, "abcdefghij".to_string()).unwrap();
    assert_eq!(mode.render(6), "abc...\n");
    assert_eq!(mode.render(0), "\n");
    assert_eq!(mode.render(10), "abcdefghij\n");
    let mut mode = mode;
    mode.handle_message("x".to_string());
    mode.handle_message("y".to_string());
    assert_eq!(mode.render(20), "abcdefghij\nx\ny");
}
