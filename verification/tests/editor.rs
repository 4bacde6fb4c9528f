use download_manager::insert::{decide_submission, trim_text, Insert, ParsedUrl, Submission};
use download_manager::job::Status;

fn editor(text: &str, cursor: usize) -> Insert {
    let mut e = Insert::new();
    e.url = text.to_string();
    e.character_index = cursor;
    e
}

#[test]
fn new_editor_is_empty() {
    let e = Insert::new();
    assert_eq!(e.url, "");
    assert_eq!(e.character_index, 0);
}

#[test]
fn typing_appends_and_moves_cursor() {
    let mut e = Insert::new();
    e.enter_char('a');
    e.enter_char('b');
    e.enter_char('c');
    assert_eq!(e.url, "abc");
    assert_eq!(e.character_index, 3);
}

#[test]
fn typing_in_the_middle() {
    let mut e = editor("ac", 1);
    e.enter_char('b');
    assert_eq!(e.url, "abc");
    assert_eq!(e.character_index, 2);
}

#[test]
fn typing_with_cursor_past_end_appends() {
    let mut e = editor("ab", 9);
    e.enter_char('c');
    assert_eq!(e.url, "abc");
    assert_eq!(e.character_index, 3);
}

#[test]
fn typing_multibyte_characters() {
    let mut e = editor("hé", 1);
    e.enter_char('ü');
    assert_eq!(e.url, "hüé");
    assert_eq!(e.character_index, 2);
}

#[test]
fn backspace_deletes_left_of_cursor() {
    let mut e = editor("abc", 2);
    e.delete_char();
    assert_eq!(e.url, "ac");
    assert_eq!(e.character_index, 1);
}

#[test]
fn backspace_at_start_does_nothing() {
    let mut e = editor("abc", 0);
    e.delete_char();
    assert_eq!(e.url, "abc");
    assert_eq!(e.character_index, 0);
}

#[test]
fn backspace_with_cursor_past_end() {
    let mut e = editor("abc", 7);
    e.delete_char();
    assert_eq!(e.url, "abc");
    assert_eq!(e.character_index, 3);
}

#[test]
fn typing_then_deleting_restores() {
    let mut e = editor("hello", 2);
    e.enter_char('X');
    e.delete_char();
    assert_eq!(e.url, "hello");
    assert_eq!(e.character_index, 2);
}

#[test]
fn cursor_moves_are_clamped() {
    let mut e = editor("ab", 0);
    e.move_cursor_left();
    assert_eq!(e.character_index, 0);
    e.move_cursor_right();
    e.move_cursor_right();
    e.move_cursor_right();
    assert_eq!(e.character_index, 2);
    e.move_cursor_left();
    assert_eq!(e.character_index, 1);
    let mut far = editor("ab", usize::MAX);
    far.move_cursor_right();
    assert_eq!(far.character_index, 2);
}

#[test]
fn clean_empties() {
    let mut e = editor("abc", 2);
    e.clean();
    assert_eq!(e.url, "");
    assert_eq!(e.character_index, 0);
}

#[test]
fn trimming_white_space() {
    assert_eq!(trim_text("  a b \t\n"), "a b");
    assert_eq!(trim_text("   "), "");
    assert_eq!(trim_text(""), "");
    assert_eq!(trim_text("\u{00A0}x\u{3000}"), "x");
    let once = trim_text(" \r q \n");
    assert_eq!(trim_text(&once), once);
}

#[test]
fn submit_blank_gives_nothing() {
    let mut e = editor("   ", 3);
    assert!(matches!(e.submit_message(), Submission::Nothing));
    assert_eq!(e.url, "");
    assert_eq!(e.character_index, 0);
}

#[test]
fn submit_valid_url() {
    let mut e = editor("  https://example.com/files/a.zip  ", 5);
    match e.submit_message() {
        Submission::Accepted(job) => {
            assert_eq!(job.url, "https://example.com/files/a.zip");
            assert_eq!(job.filename, "a.zip");
            assert_eq!(job.status, Status::Pending);
            assert_eq!((job.id >> 76) & 0xf, 4);
        }
        other => panic!("unexpected {:?}", other),
    }
    assert_eq!(e.url, "");
    assert_eq!(e.character_index, 0);
}

#[test]
fn submit_unparsable_url() {
    let mut e = editor("not a url", 0);
    match e.submit_message() {
        Submission::Rejected(job) => {
            assert_eq!(job.url, "");
            assert_eq!(job.filename, "Failed to parse URL");
            assert_eq!(job.status, Status::Failed);
        }
        other => panic!("unexpected {:?}", other),
    }
    assert_eq!(e.url, "");
}

#[test]
fn submit_url_without_file_name() {
    let mut e = editor("https://example.com/", 0);
    match e.submit_message() {
        Submission::Rejected(job) => {
            assert_eq!(job.url, "https://example.com/");
            assert_eq!(job.filename, "Failed to get file name");
            assert_eq!(job.status, Status::Failed);
        }
        other => panic!("unexpected {:?}", other),
    }
}

#[test]
fn submit_url_that_cannot_be_a_base() {
    let mut e = editor("mailto:someone@example.com", 0);
    match e.submit_message() {
        Submission::Rejected(job) => {
            assert_eq!(job.url, "");
            assert_eq!(job.filename, "Failed to get file name");
        }
        other => panic!("unexpected {:?}", other),
    }
}

#[test]
fn decide_with_given_parse() {
    let parsed = ParsedUrl {
        text: "https://h/x/y.iso".to_string(),
        segments: Some(vec!["x".to_string(), "y.iso".to_string()]),
    };
    match decide_submission("https://h/x/y.iso", Some(parsed), 99) {
        Submission::Accepted(job) => {
            assert_eq!(job.id, 99);
            assert_eq!(job.filename, "y.iso");
            assert_eq!(job.url, "https://h/x/y.iso");
        }
        other => panic!("unexpected {:?}", other),
    }
    assert!(matches!(decide_submission("", None, 1), Submission::Nothing));
    match decide_submission("x", None, 3) {
        Submission::Rejected(job) => {
            assert_eq!(job.id, 3);
            assert_eq!(job.filename, "Failed to parse URL");
        }
        other => panic!("unexpected {:?}", other),
    }
    let empty_segments = ParsedUrl { text: "u:".to_string(), segments: Some(vec![]) };
    match decide_submission("u:", Some(empty_segments), 4) {
        Submission::Accepted(job) => assert_eq!(job.filename, "Failed to get file name"),
        other => panic!("unexpected {:?}", other),
    }
}
