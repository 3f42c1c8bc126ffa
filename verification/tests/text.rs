use nt_progress::text::{is_wide_char, TextWrapper};

#[test]
fn test_basic_wrapping() {
    let wrapper = TextWrapper::new(20);
    let input = "This is a test of the line wrapping functionality";
    let wrapped = wrapper.wrap(input);

    assert_eq!(wrapped, vec!["This is a test of ", "the line wrapping ", "functionality"]);
}

#[test]
fn test_long_words() {
    let wrapper = TextWrapper::new(10);
    let input = "Supercalifragilisticexpialidocious";

    let wrapped = wrapper.wrap(input);
    assert_eq!(wrapped.len(), 2);

    let wrapper = wrapper.break_long_words(false);
    let wrapped = wrapper.wrap(input);
    assert_eq!(wrapped.len(), 1);
    assert!(wrapped[0].ends_with("…"));
}

#[test]
fn test_unicode_wrapping() {
    let wrapper = TextWrapper::new(10);
    let input = "こんにちは世界";
    let wrapped = wrapper.wrap(input);

    assert_eq!(wrapped.len(), 2);
}

#[test]
fn test_mixed_text() {
    let wrapper = TextWrapper::new(20);
    let input = "Hello 你好 Bonjour こんにちは";
    let wrapped = wrapper.wrap(input);

    assert!(wrapped.len() >= 2);
}

#[test]
fn test_empty_text() {
    let wrapper = TextWrapper::new(10);
    let wrapped = wrapper.wrap("");

    assert_eq!(wrapped, vec![String::new()]);
}

#[test]
fn test_visual_width() {
    let wrapper = TextWrapper::new(10);

    assert_eq!(wrapper.visual_width("Hello"), 5);
    assert_eq!(wrapper.visual_width("你好"), 4);
    assert_eq!(wrapper.visual_width("こんにちは"), 10);
    assert_eq!(wrapper.visual_width("Hi 你好"), 7);
}

#[test]
fn custom_separators_and_markers() {
    let wrapper = TextWrapper::new(6).word_separators(vec!['|']).truncation_marker("~").break_long_words(false);
    assert_eq!(wrapper.wrap("abc|defghijk"), vec!["abc|", "defgh~"]);
    assert!(is_wide_char('世'));
    assert!(!is_wide_char('a'));
}
