use std::sync::Arc;

use nt_progress::errors::ModeCreationError;
use nt_progress::factory::{
    CapturingCreator, LimitedCreator, ModeCreator, ModeFactory, ModeRegistry, WindowCreator,
    WindowWithTitleCreator,
};
use nt_progress::mode_parameters::{ModeParameters, ThreadMode};
use nt_progress::modes::ThreadConfig;

#[test]
fn test_registry_creation() {
    let registry = ModeRegistry::new();
    assert_eq!(registry.len(), 0);
}

#[test]
fn test_creator_registration() {
    let mut registry = ModeRegistry::new();
    registry.register(LimitedCreator);
    registry.register(WindowCreator);

    assert_eq!(registry.len(), 2);
    assert!(registry.contains("limited"));
    assert!(registry.contains("window"));
}

#[test]
fn test_mode_creation() {
    let mut registry = ModeRegistry::new();
    registry.register(LimitedCreator);
    registry.register(WindowCreator);

    let config = registry.create("limited", &ModeParameters::limited(10)).unwrap();
    assert_eq!(config.lines_to_display(), 1);

    let config = registry.create("window", &ModeParameters::window(10, 3)).unwrap();
    assert_eq!(config.lines_to_display(), 3);
}

#[test]
fn test_mode_creation_with_invalid_params() {
    let mut registry = ModeRegistry::new();
    registry.register(WindowCreator);

    let result = registry.create("window", &ModeParameters::limited(10));
    assert!(result.is_err());

    match result {
        Err(ModeCreationError::MissingParameter { param_name, mode_name, reason }) => {
            assert_eq!(mode_name, "window");
            assert_eq!(param_name, "max_lines");
            assert!(reason.is_some());
            assert!(reason.unwrap().contains("requires"));
        }
        _ => panic!("Unexpected error type"),
    }
}

#[test]
fn test_factory_modes() {
    let factory = ModeFactory::new();
    let registry = factory.registry();

    assert!(registry.contains("limited"));
    assert!(registry.contains("capturing"));
    assert!(registry.contains("window"));
    assert!(registry.contains("window_with_title"));
}

#[test]
fn test_error_propagation() {
    let mut factory = ModeFactory::new();
    factory.set_error_propagation(true);

    let result = factory.create_mode(ThreadMode::Window(0), 1);
    assert!(result.is_err());

    factory.set_error_propagation(false);

    let result = factory.create_mode(ThreadMode::Window(0), 1);
    assert!(result.is_ok());
}

#[test]
fn test_factory_configuration() {
    let mut factory = ModeFactory::new();

    assert!(matches!(factory.default_mode(), ThreadMode::Limited));

    factory.set_default_mode(ThreadMode::Window(3));
    assert!(matches!(factory.default_mode(), ThreadMode::Window(3)));

    let config = factory.create_mode(ThreadMode::Window(3), 10).unwrap();
    assert_eq!(config.lines_to_display(), 3);
}

#[test]
fn test_factory_error_handling() {
    let mut factory = ModeFactory::new();
    factory.set_error_propagation(true);

    let result = factory.create_mode(ThreadMode::Window(0), 10);
    assert!(result.is_err(), "With error propagation enabled, invalid window size should fail");

    let result = factory.create_mode(ThreadMode::WindowWithTitle(0), 10);
    assert!(result.is_err(), "With error propagation enabled, invalid window with title size should fail");

    let factory = ModeFactory::new();

    let result = factory.create_mode(ThreadMode::Window(0), 10);
    assert!(result.is_ok(), "With error propagation disabled, invalid window size should use fallback");

    let result = factory.create_mode(ThreadMode::WindowWithTitle(0), 10);
    assert!(result.is_ok(), "With error propagation disabled, invalid window with title size should use fallback");

    let result = factory.create_mode(ThreadMode::Window(3), 10);
    assert!(result.is_ok());

    let result = factory.create_mode(ThreadMode::WindowWithTitle(3), 10);
    assert!(result.is_ok());
}

#[test]
fn test_factory_clone() {
    let mut factory1 = ModeFactory::new();
    factory1.set_default_mode(ThreadMode::Window(3));

    let factory2 = factory1.clone();

    assert!(matches!(factory1.default_mode(), ThreadMode::Window(3)));
    assert!(matches!(factory2.default_mode(), ThreadMode::Window(3)));

    factory1.set_default_mode(ThreadMode::Limited);
    assert!(matches!(factory1.default_mode(), ThreadMode::Limited));
    assert!(matches!(factory2.default_mode(), ThreadMode::Window(3)));
}

#[test]
fn test_window_with_title_support_flags() {
    let factory = ModeFactory::new();

    let config = factory.create_mode(ThreadMode::WindowWithTitle(3), 10).unwrap();

    let window_with_title = config.as_window_with_title().unwrap();

    assert!(window_with_title.has_emoji_support(), "Emoji support should be enabled by default");
    assert!(window_with_title.has_title_support(), "Title support should be enabled by default");
}

#[test]
fn test_factory_with_custom_registry() {
    let mut registry = ModeRegistry::new();
    registry.register(LimitedCreator);
    registry.register(WindowCreator);

    let factory = ModeFactory::with_registry(Arc::new(registry));

    let registry = factory.registry();
    assert!(registry.contains("limited"));
    assert!(registry.contains("window"));
    assert!(!registry.contains("capturing"));
    assert!(!registry.contains("window_with_title"));
}

#[test]
fn test_factory_with_modes() {
    let factory = ModeFactory::with_modes(|registry| {
        registry.register(LimitedCreator);
        registry.register(WindowCreator);
    });

    let registry = factory.registry();
    assert!(registry.contains("limited"));
    assert!(registry.contains("window"));
    assert!(!registry.contains("capturing"));
    assert!(!registry.contains("window_with_title"));
}

#[test]
fn test_validation_errors() {
    let mut registry = ModeRegistry::new();
    registry.register(LimitedCreator);
    registry.register(WindowCreator);
    registry.register(WindowWithTitleCreator);

    let result = registry.create("limited", &ModeParameters::limited(0));
    assert!(result.is_err());
    match result {
        Err(ModeCreationError::ValidationError { mode_name, rule, value, reason }) => {
            assert_eq!(mode_name, "limited");
            assert_eq!(rule, "total_jobs");
            assert_eq!(value, "0");
            assert!(reason.is_some());
            assert!(reason.unwrap().contains("must be greater than 0"));
        }
        _ => panic!("Expected ValidationError"),
    }

    let result = registry.create("window", &ModeParameters::window(10, 0));
    assert!(result.is_err());
    match result {
        Err(ModeCreationError::InvalidWindowSize { size, min_size, mode_name, reason }) => {
            assert_eq!(size, 0);
            assert_eq!(min_size, 1);
            assert_eq!(mode_name, "window");
            assert!(reason.is_some());
            assert!(reason.unwrap().contains("requires at least 1 lines"));
        }
        _ => panic!("Expected InvalidWindowSize error"),
    }

    let result = registry.create("window_with_title", &ModeParameters::window_with_title(10, 1, "Test".to_string()));
    assert!(result.is_err());
    match result {
        Err(ModeCreationError::InvalidWindowSize { size, min_size, mode_name, reason }) => {
            assert_eq!(size, 1);
            assert_eq!(min_size, 2);
            assert_eq!(mode_name, "window_with_title");
            assert!(reason.is_some());
            assert!(reason.unwrap().contains("requires at least 2 lines"));
        }
        _ => panic!("Expected InvalidWindowSize error"),
    }
}

#[test]
fn test_validation_success() {
    let mut registry = ModeRegistry::new();
    registry.register(LimitedCreator);
    registry.register(WindowCreator);
    registry.register(WindowWithTitleCreator);

    let result = registry.create("limited", &ModeParameters::limited(1));
    assert!(result.is_ok());

    let result = registry.create("window", &ModeParameters::window(10, 3));
    assert!(result.is_ok());

    let result = registry.create("window_with_title", &ModeParameters::window_with_title(10, 3, "Test".to_string()));
    assert!(result.is_ok());
}

#[test]
fn unregistered_modes_are_refused_with_the_registered_names() {
    let mut registry = ModeRegistry::new();
    registry.register(CapturingCreator);
    registry.register(LimitedCreator);
    registry.register(LimitedCreator);
    assert_eq!(registry.len(), 2);
    match registry.create("window", &ModeParameters::window(1, 2)) {
        Err(ModeCreationError::ModeNotRegistered { mode_name, available_modes }) => {
            assert_eq!(mode_name, "window");
            assert_eq!(available_modes, vec!["capturing".to_string(), "limited".to_string()]);
        }
        _ => panic!("expected ModeNotRegistered"),
    }
    assert_eq!(registry.mode_names(), vec!["capturing".to_string(), "limited".to_string()]);
}

#[test]
fn fallbacks_fail_only_without_jobs() {
    let factory = ModeFactory::new();
    assert!(factory.create_mode(ThreadMode::WindowWithTitle(1), 0).is_err());
    let config = factory.create_mode(ThreadMode::WindowWithTitle(1), 2).unwrap();
    assert_eq!(config.lines_to_display(), 3);
    let config = factory.create_mode(ThreadMode::Window(0), 2).unwrap();
    assert_eq!(config.lines_to_display(), 3);
}

#[test]
fn creators_fall_back_to_three_lines() {
    let window = WindowCreator.create_with_fallback(&ModeParameters::window(2, 0)).unwrap();
    assert_eq!(window.lines_to_display(), 3);
    let titled = WindowWithTitleCreator
        .create_with_fallback(&ModeParameters::window_with_title(2, 1, "T".to_string()))
        .unwrap();
    assert_eq!(titled.lines_to_display(), 3);
    assert_eq!(titled.get_lines(), vec!["T"]);
}
