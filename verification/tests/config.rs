use nt_progress::config::{Config, ModeKind};
use nt_progress::job_traits::{DependentJob, JobTracker, PausableJob, PrioritizedJob};
use nt_progress::mode_parameters::ThreadMode;
use nt_progress::modes::Capability;

#[test]
fn test_config_creation() {
    let config = Config::new(ThreadMode::Limited, 10).unwrap();
    assert_eq!(config.lines_to_display(), 1);

    let config = Config::new(ThreadMode::Window(5), 10).unwrap();
    assert_eq!(config.lines_to_display(), 5);

    let config = Config::new(ThreadMode::WindowWithTitle(5), 10).unwrap();
    assert_eq!(config.lines_to_display(), 5);
    assert_eq!(config.get_title(), Some("Progress"));
}

#[test]
fn test_config_as_type() {
    let config = Config::new(ThreadMode::Limited, 10).unwrap();
    assert!(config.mode().as_limited().is_some());
    assert!(config.mode().as_window().is_none());

    let config = Config::new(ThreadMode::Window(5), 10).unwrap();
    assert!(config.mode().as_window().is_some());
    assert!(config.mode().as_limited().is_none());
}

#[test]
fn test_config_capabilities() {
    let config = Config::new(ThreadMode::Window(5), 10).unwrap();

    assert!(config.supports_custom_size());
    assert!(!config.supports_title());
    assert!(!config.supports_emoji());

    let config = Config::new(ThreadMode::WindowWithTitle(5), 10).unwrap();

    assert!(config.supports_custom_size());
    assert!(config.supports_title());
    assert!(config.supports_emoji());

    assert!(config.supports_hierarchical_jobs());
    assert!(config.get_priority() == 0);
    assert!(!config.is_paused());
    assert!(!config.has_dependencies());
}

#[test]
fn test_config_pause_resume() {
    let mut config = Config::new(ThreadMode::Window(5), 10).unwrap();
    config.pause();
    assert!(config.is_paused());
    config.resume();
    assert!(!config.is_paused());
    config.set_total_jobs(5);
    assert_eq!(config.get_total_jobs(), 5);
}

#[test]
fn test_window_with_title_capabilities() {
    let config = Config::new(ThreadMode::WindowWithTitle(5), 10).unwrap();
    let mode = config.mode();
    assert_eq!(mode.kind(), ModeKind::WindowWithTitle);
    assert!(mode.supports_title());
    assert!(mode.supports_custom_size());
    assert!(mode.supports_emoji());
    assert!(mode.supports_title_and_emoji());
    assert!(mode.supports_standard_window());
    assert!(mode.supports_wrapped_text());
    assert!(mode.supports_progress());
    assert!(mode.supports_prioritized_job());
    assert!(mode.supports_pausable_job());
    assert!(mode.supports_dependent_job());
    assert_eq!(mode.capabilities().len(), 10);
}

#[test]
fn test_window_capabilities() {
    let config = Config::new(ThreadMode::Window(5), 10).unwrap();
    let mode = config.mode();
    assert!(!mode.supports_title());
    assert!(mode.supports_custom_size());
    assert!(!mode.supports_emoji());
    assert!(!mode.supports_title_and_emoji());
    assert!(mode.supports_standard_window());
    assert!(mode.supports_wrapped_text());
    assert!(mode.supports_progress());
    assert_eq!(
        mode.capabilities(),
        vec![
            Capability::CustomSize,
            Capability::StandardWindow,
            Capability::WrappedText,
            Capability::Progress,
            Capability::PrioritizedJob,
            Capability::PausableJob,
            Capability::DependentJob,
        ]
    );
}

#[test]
fn test_limited_capabilities() {
    let config = Config::new(ThreadMode::Limited, 10).unwrap();
    let mode = config.mode();
    assert!(!mode.supports_title());
    assert!(!mode.supports_custom_size());
    assert!(!mode.supports_capability(Capability::WrappedText));
    assert!(mode.supports_capability(Capability::PausableJob));
    assert_eq!(
        mode.capabilities(),
        vec![Capability::PrioritizedJob, Capability::PausableJob, Capability::DependentJob]
    );
}

#[test]
fn capabilities_a_mode_lacks_are_refused() {
    let mut config = Config::new(ThreadMode::Limited, 3).unwrap();
    assert!(config.set_title("x".to_string()).is_err());
    assert!(config.add_emoji("🚀").is_err());
    assert!(config.set_max_lines(4).is_err());
    assert!(config.set_progress_format("{p}").is_err());
    assert_eq!(config.get_title(), None);
    assert_eq!(config.get_emojis(), None);
    assert_eq!(config.get_max_lines(), None);
    assert_eq!(config.handle_message("hi".to_string()), vec!["hi"]);

    let mut config = Config::new(ThreadMode::WindowWithTitle(3), 3).unwrap();
    config.set_title("Build".to_string()).unwrap();
    config.add_emoji("🚀").unwrap();
    assert_eq!(config.get_emojis(), Some(vec!["🚀".to_string()]));
    assert_eq!(config.get_lines(), vec!["🚀 Build"]);
    config.set_progress_format("{done}").unwrap();
    assert_eq!(config.get_progress_format(), Some("{done}"));
    assert!(Config::new(ThreadMode::Window(0), 3).is_err());
    assert_eq!(Config::default().lines_to_display(), 1);
}

#[test]
fn modes_keep_their_height_and_titles_stay_first() {
    for mode in [ThreadMode::Limited, ThreadMode::Capturing, ThreadMode::Window(3), ThreadMode::WindowWithTitle(4)] {
        let mut config = Config::new(mode, 2).unwrap();
        let height = config.lines_to_display();
        for m in ["a", "[t] b", "c\nd"] {
            config.handle_message(m.to_string());
            assert_eq!(config.lines_to_display(), height);
        }
    }
    let mut config = Config::new(ThreadMode::WindowWithTitle(3), 2).unwrap();
    config.handle_message("x".to_string());
    assert_eq!(config.get_lines()[0], "Progress");
    let mut config = Config::new(ThreadMode::Capturing, 2).unwrap();
    config.handle_message("first".to_string());
    assert_eq!(config.handle_message("second".to_string()), vec!["second"]);
}
