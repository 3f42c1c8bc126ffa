use nt_progress::screen::{check_screen, contains_chars, ScreenMismatch};

fn chars(s: &str) -> Vec<char> {
    s.chars().collect()
}

#[test]
fn substrings_are_found_anywhere() {
    assert!(contains_chars(&chars("progress bar"), &chars("ss b")));
    assert!(contains_chars(&chars("abc"), &chars("")));
    assert!(contains_chars(&chars("abc"), &chars("abc")));
    assert!(!contains_chars(&chars("abc"), &chars("abcd")));
    assert!(!contains_chars(&chars("abcabd"), &chars("abe")));
}

#[test]
fn plain_screens_compare_up_to_trailing_whitespace() {
    assert_eq!(check_screen("line 1\nline 2  \n", "line 1\nline 2"), Ok(()));
    assert_eq!(check_screen("anything", ""), Ok(()));
    assert_eq!(check_screen("", "  \n"), Ok(()));
    assert_eq!(check_screen("line 1", "line 2"), Err(ScreenMismatch::Differs));
    assert_eq!(check_screen("", "expected"), Err(ScreenMismatch::Differs));
}

#[test]
fn concurrent_screens_need_every_expected_message() {
    let actual = "Thread 2: Message 0\nThread 0: Message 0\nThread 1: Message 0\n";
    let expected = "Thread 0: Message 0\nThread 1: Message 0\nThread 2: Message 0\n";
    assert_eq!(check_screen(actual, expected), Ok(()));
    let expected = "Thread 0: Message 0\nThread 0: Message 1\nThread 1: Message 0\nThread 3: Message 4\n";
    assert_eq!(
        check_screen(actual, expected),
        Err(ScreenMismatch::MissingMessages(vec![
            "Thread 0: Message 1".to_string(),
            "Thread 3: Message 4".to_string()
        ]))
    );
}
