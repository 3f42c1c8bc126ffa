use nt_progress::errors::ModeCreationError;
use nt_progress::mode_parameters::ModeParameters;

#[test]
fn test_mode_parameters_creation() {
    let params = ModeParameters::new(10);
    assert_eq!(params.total_jobs(), 10);
    assert_eq!(params.max_lines(), None);
    assert_eq!(params.title(), None);
    assert_eq!(params.emoji_support(), None);
    assert_eq!(params.title_support(), None);
    assert_eq!(params.passthrough(), None);

    let params = ModeParameters::window(10, 5);
    assert_eq!(params.total_jobs(), 10);
    assert_eq!(params.max_lines(), Some(5));
    assert_eq!(params.emoji_support(), Some(false));
    assert_eq!(params.title_support(), Some(false));

    let params = ModeParameters::window_with_title(10, 5, "Title".to_string());
    assert_eq!(params.total_jobs(), 10);
    assert_eq!(params.max_lines(), Some(5));
    assert_eq!(params.title(), Some("Title"));
    assert_eq!(params.emoji_support(), Some(true));
    assert_eq!(params.title_support(), Some(true));

    let params = ModeParameters::limited(10);
    assert_eq!(params.total_jobs(), 10);
    assert_eq!(params.passthrough(), Some(false));

    let params = ModeParameters::capturing(10);
    assert_eq!(params.total_jobs(), 10);
}

#[test]
fn test_mode_parameters_validation() {
    let valid_window = ModeParameters::window(10, 5);
    assert!(valid_window.validate("window").is_ok());

    let valid_title = ModeParameters::window_with_title(10, 5, "Title".to_string());
    assert!(valid_title.validate("windowwithtitle").is_ok());

    let valid_limited = ModeParameters::limited(10);
    assert!(valid_limited.validate("limited").is_ok());

    let valid_capturing = ModeParameters::capturing(10);
    assert!(valid_capturing.validate("capturing").is_ok());
}

#[test]
fn test_mode_parameters_validation_errors() {
    let invalid_window = ModeParameters::new(10);
    assert!(matches!(
        invalid_window.validate("window"),
        Err(ModeCreationError::MissingParameter { .. })
    ));

    let invalid_title = ModeParameters::new(10).with_max_lines(5);
    assert!(matches!(
        invalid_title.validate("windowwithtitle"),
        Err(ModeCreationError::MissingParameter { .. })
    ));

    let invalid_size = ModeParameters::window(10, 0);
    assert!(matches!(
        invalid_size.validate("window"),
        Err(ModeCreationError::InvalidWindowSize { .. })
    ));

    let invalid_size = ModeParameters::window_with_title(10, 1, "Title".to_string());
    assert!(matches!(
        invalid_size.validate("windowwithtitle"),
        Err(ModeCreationError::InvalidWindowSize { .. })
    ));

    let params = ModeParameters::new(10);
    assert!(matches!(
        params.validate("unknown"),
        Err(ModeCreationError::Implementation(_))
    ));
}

#[test]
fn test_mode_parameters_builder_pattern() {
    let params = ModeParameters::new(10)
        .with_max_lines(5)
        .with_title("Title".to_string())
        .with_emoji_support(true)
        .with_title_support(true)
        .with_passthrough(false);

    assert_eq!(params.total_jobs(), 10);
    assert_eq!(params.max_lines(), Some(5));
    assert_eq!(params.title(), Some("Title"));
    assert_eq!(params.emoji_support(), Some(true));
    assert_eq!(params.title_support(), Some(true));
    assert_eq!(params.passthrough(), Some(false));
}

#[test]
fn test_mode_parameters_unknown_mode() {
    let params = ModeParameters::new(10);
    assert!(matches!(
        params.validate("unknown"),
        Err(ModeCreationError::Implementation(_))
    ));
}

#[test]
fn validation_names_are_case_insensitive() {
    let params = ModeParameters::window(3, 2);
    assert!(params.validate("WINDOW").is_ok());
    let params = ModeParameters::window(3, 0);
    match params.validate("Window") {
        Err(ModeCreationError::InvalidWindowSize { size, min_size, mode_name, reason }) => {
            assert_eq!(size, 0);
            assert_eq!(min_size, 1);
            assert_eq!(mode_name, "Window");
            assert_eq!(reason, Some("Window mode requires at least 1 lines".to_string()));
        }
        _ => panic!("expected InvalidWindowSize"),
    }
}

#[test]
fn validation_of_zero_jobs_and_unknown_mode_messages() {
    match ModeParameters::limited(0).validate("limited") {
        Err(ModeCreationError::ValidationError { mode_name, rule, value, reason }) => {
            assert_eq!(mode_name, "limited");
            assert_eq!(rule, "total_jobs");
            assert_eq!(value, "0");
            assert_eq!(reason, Some("total_jobs must be greater than 0".to_string()));
        }
        _ => panic!("expected ValidationError"),
    }
    match ModeParameters::new(1).validate("fancy") {
        Err(ModeCreationError::Implementation(m)) => assert_eq!(m, "Unknown mode: fancy"),
        _ => panic!("expected Implementation"),
    }
    match ModeParameters::new(1).with_max_lines(3).validate("window_with_title") {
        Err(ModeCreationError::MissingParameter { param_name, mode_name, reason }) => {
            assert_eq!(param_name, "title");
            assert_eq!(mode_name, "window_with_title");
            assert_eq!(reason, Some("Title is required for WindowWithTitle mode".to_string()));
        }
        _ => panic!("expected MissingParameter"),
    }
}
