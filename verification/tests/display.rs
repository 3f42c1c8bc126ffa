use nt_progress::events::{
    convert_event, size_changed, InputEvent, KeyData, KeyKind, MouseData, MouseKind, TerminalEvent,
    CONTROL, SHIFT,
};
use nt_progress::frame::compose_frame;
use nt_progress::display::{DisplayBatch, MAX_BATCH_SIZE};
use nt_progress::recovery::{ErrorRecovery, FallbackAction, FallbackConfig, RetryConfig};
use std::time::Duration;

#[test]
fn display_redraws_after_a_full_batch_or_a_quiet_period() {
    let mut batch = DisplayBatch::new();
    for _ in 0..MAX_BATCH_SIZE - 1 {
        assert!(!batch.after_message());
    }
    assert!(batch.can_take_pending());
    assert!(batch.after_message());
    assert_eq!(batch.handled, 0);
    assert!(!batch.after_timeout());
    batch.after_pending_message();
    assert!(batch.after_timeout());
    assert_eq!(batch.handled, 0);
}

#[test]
fn recovery_settings() {
    let recovery = ErrorRecovery::new();
    assert_eq!(recovery.retry_config.max_retries, 3);
    assert_eq!(recovery.retry_config.retry_delay, Duration::from_secs(1));
    assert_eq!(recovery.retry_config.base_delay, Duration::from_millis(100));
    assert!(recovery.retry_config.should_retry(2, true));
    assert!(!recovery.retry_config.should_retry(3, true));
    assert!(!RetryConfig::default().should_retry(0, false));
    let fallback = FallbackConfig::default();
    assert_eq!(fallback.action(true), FallbackAction::UsePrimary);
    assert_eq!(fallback.action(false), FallbackAction::UseFallback { log: true });
    let none = FallbackConfig { use_fallback: false, log_fallback: true };
    assert_eq!(none.action(false), FallbackAction::ReturnError);
}

#[test]
fn frames_list_threads_by_id() {
    assert_eq!(compose_frame(Vec::new()), None);
    let frame = compose_frame(vec![
        (7, vec!["b1".to_string()]),
        (2, vec!["a1".to_string(), "a2".to_string()]),
        (9, vec![]),
    ])
    .unwrap();
    assert_eq!(frame, "\x1B[2J\x1B[1Ha1\na2\n\nb1\n\n\n");
}

#[test]
fn key_and_mouse_predicates() {
    let key = KeyData::new(KeyKind::Char('c'), CONTROL | SHIFT);
    assert!(key.is_control());
    assert!(key.is_shift());
    assert!(!key.is_alt());
    assert_eq!(key.char, Some('c'));
    assert!(KeyData::new(KeyKind::F(12), 0).is_function_key());
    assert!(!KeyData::new(KeyKind::F(13), 0).is_function_key());
    assert!(KeyData::new(KeyKind::Left, 0).is_arrow_key());
    assert!(KeyData::new(KeyKind::BackTab, 0).is_special_key());
    assert!(KeyData::new(KeyKind::Esc, 0).is_escape());
    let mouse = MouseData { kind: MouseKind::ScrollUp, column: 1, row: 2, modifiers: 0 };
    assert!(mouse.is_scroll());
    assert!(!mouse.is_press());
    assert!(size_changed((80, 24), (80, 25)));
    assert!(!size_changed((80, 24), (80, 24)));
}

#[test]
fn test_key_data_methods() {
    let key_data = KeyData { code: KeyKind::Char('a'), modifiers: CONTROL, char: Some('a'), is_release: false };

    assert!(key_data.is_control());
    assert!(!key_data.is_alt());
    assert!(!key_data.is_shift());
    assert!(!key_data.is_escape());
    assert!(!key_data.is_function_key());
    assert!(!key_data.is_arrow_key());
    assert!(!key_data.is_special_key());

    let esc_key = KeyData { code: KeyKind::Esc, modifiers: 0, char: None, is_release: false };
    assert!(esc_key.is_escape());

    let f1_key = KeyData { code: KeyKind::F(1), modifiers: 0, char: None, is_release: false };
    assert!(f1_key.is_function_key());

    let arrow_key = KeyData { code: KeyKind::Up, modifiers: 0, char: None, is_release: false };
    assert!(arrow_key.is_arrow_key());

    let special_key = KeyData { code: KeyKind::Enter, modifiers: 0, char: None, is_release: false };
    assert!(special_key.is_special_key());
}

#[test]
fn test_mouse_data_methods() {
    let press_event = MouseData { kind: MouseKind::Down, column: 10, row: 20, modifiers: 0 };
    assert!(press_event.is_press());
    assert!(!press_event.is_release());
    assert!(!press_event.is_drag());
    assert!(!press_event.is_scroll());

    let release_event = MouseData { kind: MouseKind::Up, column: 10, row: 20, modifiers: 0 };
    assert!(!release_event.is_press());
    assert!(release_event.is_release());
    assert!(!release_event.is_drag());
    assert!(!release_event.is_scroll());

    let drag_event = MouseData { kind: MouseKind::Drag, column: 10, row: 20, modifiers: 0 };
    assert!(!drag_event.is_press());
    assert!(!drag_event.is_release());
    assert!(drag_event.is_drag());
    assert!(!drag_event.is_scroll());

    let scroll_event = MouseData { kind: MouseKind::ScrollDown, column: 10, row: 20, modifiers: 0 };
    assert!(!scroll_event.is_press());
    assert!(!scroll_event.is_release());
    assert!(!scroll_event.is_drag());
    assert!(scroll_event.is_scroll());
}

#[test]
fn parse_reads_back_decimal_text() {
    for n in [0usize, 7, 10, 99, 12345, usize::MAX] {
        assert_eq!(nt_progress::bars::parse_usize(&n.to_string()), Some(n));
    }
}

#[test]
fn events_are_passed_on_and_mouse_events_only_when_enabled() {
    let key = KeyData::new(KeyKind::Char('q'), CONTROL);
    assert_eq!(convert_event(InputEvent::Key(key), false), Some(TerminalEvent::KeyPress(key)));
    assert_eq!(
        convert_event(InputEvent::Resize(80, 24), false),
        Some(TerminalEvent::Resize { width: 80, height: 24 })
    );
    let mouse = MouseData { kind: MouseKind::Down, column: 3, row: 4, modifiers: 0 };
    assert_eq!(convert_event(InputEvent::Mouse(mouse), false), None);
    assert_eq!(convert_event(InputEvent::Mouse(mouse), true), Some(TerminalEvent::MouseEvent(mouse)));
    assert_eq!(convert_event(InputEvent::FocusLost, true), Some(TerminalEvent::FocusLost));
    assert_eq!(convert_event(InputEvent::FocusGained, true), Some(TerminalEvent::FocusGained));
    assert_eq!(
        convert_event(InputEvent::Paste("abc".to_string()), false),
        Some(TerminalEvent::ControlCode("PASTE:abc".to_string()))
    );
}
