use nt_progress::errors::ModeCreationError;
use nt_progress::modes::{WithEmoji, WithTitle, WithTitleAndEmoji};

struct MockTitled {
    title: String,
}

impl MockTitled {
    fn new(title: &str) -> Self {
        Self { title: title.to_string() }
    }
}

impl WithTitle for MockTitled {
    fn sets_title(&self, _title: String, _after: Self, _result: Result<(), ModeCreationError>) -> bool {
        true
    }

    fn set_title(&mut self, title: String) -> Result<(), ModeCreationError> {
        self.title = title;
        Ok(())
    }

    fn get_title(&self) -> &str {
        &self.title
    }
}

impl WithEmoji for MockTitled {
    fn adds_emoji(&self, _emoji: &str, _after: Self, _result: Result<(), ModeCreationError>) -> bool {
        true
    }

    fn add_emoji(&mut self, _emoji: &str) -> Result<(), ModeCreationError> {
        Ok(())
    }

    fn get_emojis(&self) -> Vec<String> {
        vec![]
    }
}

impl WithTitleAndEmoji for MockTitled {
    fn reset_with_title(&mut self, title: String) -> Result<(), ModeCreationError> {
        self.title = title;
        Ok(())
    }

    fn get_formatted_title(&self) -> String {
        self.title.clone()
    }
}

#[test]
fn test_with_title_and_emoji() {
    let mut titled = MockTitled::new("Initial");

    assert_eq!(titled.get_title(), "Initial");
    titled.set_title("Updated".to_string()).unwrap();
    assert_eq!(titled.get_title(), "Updated");

    titled.set_title_with_emoji("Combined".to_string(), "🔥").unwrap();
    assert_eq!(titled.get_title(), "Combined");

    titled.reset_with_title("Reset".to_string()).unwrap();
    assert_eq!(titled.get_title(), "Reset");
    assert_eq!(titled.get_formatted_title(), "Reset");
}
