use nt_progress::progress_bar::{ProgressBarConfig, ProgressBarStyle};

#[test]
fn test_progress_bar_style_from_str() {
    assert_eq!(ProgressBarStyle::from_str("standard").unwrap(), ProgressBarStyle::Standard);
    assert_eq!(ProgressBarStyle::from_str("BLOCK").unwrap(), ProgressBarStyle::Block);
    assert_eq!(ProgressBarStyle::from_str("braille").unwrap(), ProgressBarStyle::Braille);
    assert_eq!(ProgressBarStyle::from_str("dots").unwrap(), ProgressBarStyle::Dots);
    assert_eq!(ProgressBarStyle::from_str("gradient").unwrap(), ProgressBarStyle::Gradient);

    assert!(ProgressBarStyle::from_str("invalid").is_err());
}

#[test]
fn test_progress_bar_config_defaults() {
    let config = ProgressBarConfig::default();
    assert_eq!(config.style, ProgressBarStyle::Standard);
    assert_eq!(config.width, 20);
    assert!(config.show_percentage);
    assert!(config.show_fraction);
    assert!(config.prefix.is_none());
    assert!(config.template.is_none());
}

#[test]
fn test_progress_bar_config_builder() {
    let config = ProgressBarConfig::new()
        .style(ProgressBarStyle::Block)
        .width(30)
        .show_percentage(false)
        .show_fraction(true)
        .prefix("Loading")
        .chars('#', ' ');

    assert_eq!(config.style, ProgressBarStyle::Block);
    assert_eq!(config.width, 30);
    assert!(!config.show_percentage);
    assert!(config.show_fraction);
    assert_eq!(config.prefix, Some("Loading".to_string()));
    assert_eq!(config.fill_char, Some('#'));
    assert_eq!(config.empty_char, Some(' '));
}

#[test]
fn test_build_template() {
    let config = ProgressBarConfig::default();
    assert_eq!(config.build_template(), "{progress:percent} {progress:bar:bar:20} {completed}/{total}");

    let config = ProgressBarConfig::new().show_percentage(false);
    assert_eq!(config.build_template(), "{progress:bar:bar:20} {completed}/{total}");

    let config = ProgressBarConfig::new().show_fraction(false);
    assert_eq!(config.build_template(), "{progress:percent} {progress:bar:bar:20}");

    let config = ProgressBarConfig::new().prefix("Loading");
    assert_eq!(config.build_template(), "Loading {progress:percent} {progress:bar:bar:20} {completed}/{total}");

    let config = ProgressBarConfig::new().style(ProgressBarStyle::Block);
    assert_eq!(config.build_template(), "{progress:percent} {progress:bar:block:20} {completed}/{total}");

    let config = ProgressBarConfig::new().template("{task}: {progress:bar:bar:10} ({progress:percent})");
    assert_eq!(config.build_template(), "{task}: {progress:bar:bar:10} ({progress:percent})");
}

#[test]
fn build_template_with_custom_characters() {
    let config = ProgressBarConfig::new()
        .style(ProgressBarStyle::Dots)
        .chars('#', '.')
        .width(7)
        .show_percentage(false)
        .show_fraction(false);
    assert_eq!(config.build_template(), "{progress:bar:custom:dots:#:.:7}");
}

#[test]
fn invalid_style_message_names_the_input() {
    match ProgressBarStyle::from_str("fancy") {
        Err(e) => assert_eq!(e.to_string(), "Display operation error: Invalid progress bar style: fancy"),
        Ok(_) => panic!("expected an error"),
    }
}
