use crossterm::style::Color;
use nt_progress::indicators::{
    ColorName, CustomIndicatorType, ProgressIndicator, ProgressTemplate, TemplatePreset,
};

#[test]
fn test_color_name_parsing() {
    assert_eq!(ColorName::from_str("red"), Some(ColorName::Red));
    assert_eq!(ColorName::from_str("RED"), Some(ColorName::Red));
    assert_eq!(ColorName::from_str("Red"), Some(ColorName::Red));
    assert_eq!(ColorName::from_str("unknown"), None);

    assert_eq!(ColorName::Red.to_color(), Color::Red);
    assert_eq!(ColorName::Green.to_color(), Color::Green);
    assert_eq!(ColorName::Reset.to_color(), Color::Reset);
}

#[test]
fn test_progress_indicator_parsing() {
    assert_eq!(ProgressIndicator::from_str("bar"), Ok(ProgressIndicator::Bar));
    assert_eq!(ProgressIndicator::from_str("BAR"), Ok(ProgressIndicator::Bar));
    assert_eq!(ProgressIndicator::from_str("Bar"), Ok(ProgressIndicator::Bar));
    assert_eq!(ProgressIndicator::from_str("block"), Ok(ProgressIndicator::Block));
    assert_eq!(ProgressIndicator::from_str("spinner"), Ok(ProgressIndicator::Spinner));
    assert_eq!(ProgressIndicator::from_str("numeric"), Ok(ProgressIndicator::Numeric));
    assert_eq!(ProgressIndicator::from_str("interactive"), Ok(ProgressIndicator::Interactive));
    assert_eq!(ProgressIndicator::from_str("custom:dots"), Ok(ProgressIndicator::Custom("dots".to_string())));
    assert_eq!(ProgressIndicator::from_str("custom:braille"), Ok(ProgressIndicator::Custom("braille".to_string())));
    assert_eq!(ProgressIndicator::from_str("custom:gradient"), Ok(ProgressIndicator::Custom("gradient".to_string())));
    assert!(ProgressIndicator::from_str("unknown").is_err());
    assert!(ProgressIndicator::from_str("custom").is_err());
}

#[test]
fn presets_and_defaults() {
    assert_eq!(
        TemplatePreset::SimpleProgress.template_string(),
        "{progress:bar:10} {progress:percent} ({completed}/{total})"
    );
    assert_eq!(TemplatePreset::TaskStatus.create_template().template(), "Running task: {message}");
    assert_eq!(ProgressTemplate::new("x{y}").template(), "x{y}");
    assert_eq!(ProgressIndicator::default_spinner_frames(), vec!["-", "\\", "|", "/"]);
    assert_eq!(ProgressIndicator::default_block_chars(), "█▓▒░ ");
    assert_eq!(ProgressIndicator::default_interactive_chars(), ('=', ' ', '>'));
    assert_eq!(CustomIndicatorType::variants(), vec!["dots", "braille", "gradient"]);
    assert_eq!(CustomIndicatorType::from_str("Dots"), Ok(CustomIndicatorType::Dots));
    assert!(CustomIndicatorType::from_str("waves").is_err());
}
