use release::commit::{
    first_line_of, get_abbreviated_hash, get_short_message, summarize, summarize_all, CommitId,
    CommitRecord, ABBREVIATED_LEN, FULL_LEN,
};

fn record(hex: &str, message: Option<&str>) -> CommitRecord {
    CommitRecord {
        id: CommitId { hex: hex.to_string() },
        message: message.map(|m| m.to_string()),
        parents: Vec::new(),
    }
}

#[test]
fn short_message_is_the_first_line() {
    assert_eq!(get_short_message(&record("a", Some("First line\nSecond line"))), "First line");
    assert_eq!(get_short_message(&record("a", Some("Single line message"))), "Single line message");
    assert_eq!(get_short_message(&record("a", Some(""))), "");
    assert_eq!(get_short_message(&record("a", None)), "");
    assert_eq!(get_short_message(&record("a", Some("\nsecond"))), "");
    assert_eq!(get_short_message(&record("a", Some("one\n"))), "one");
    // Only the line feed ends the first line.
    assert_eq!(get_short_message(&record("a", Some("one\r\ntwo"))), "one\r");
    assert_eq!(get_short_message(&record("a", Some("é ü\nx"))), "é ü");
}

#[test]
fn first_line_of_text() {
    assert_eq!(first_line_of("a\nb\nc"), "a");
    assert_eq!(first_line_of(""), "");
    assert_eq!(first_line_of("\n"), "");
}

#[test]
fn abbreviation_keeps_seven_characters() {
    assert_eq!(ABBREVIATED_LEN, 7);
    assert_eq!(FULL_LEN, 40);
    let full = CommitId { hex: "0123456789abcdef0123456789abcdef01234567".to_string() };
    assert_eq!(get_abbreviated_hash(&full), "0123456");
    assert_eq!(get_abbreviated_hash(&CommitId { hex: "01234567".to_string() }), "0123456");
}

#[test]
fn short_identifiers_stay_as_they_are() {
    for hex in ["", "a", "abc", "abcdef", "abcdef0"] {
        assert_eq!(get_abbreviated_hash(&CommitId { hex: hex.to_string() }), hex);
    }
}

#[test]
fn summary_of_a_commit() {
    let commit = record("0123456789abcdef0123456789abcdef01234567", Some("Fix the walk\n\nIt broke off."));
    let summary = summarize(&commit);
    assert_eq!(summary.short_hash, "0123456");
    assert_eq!(summary.short_message, "Fix the walk");
    assert_eq!(summary.full_hash, "0123456789abcdef0123456789abcdef01234567");
    assert_eq!(summary.full_message, "Fix the walk\n\nIt broke off.");

    let unreadable = summarize(&record("abc", None));
    assert_eq!(unreadable.short_hash, "abc");
    assert_eq!(unreadable.short_message, "");
    assert_eq!(unreadable.full_message, "");
}

#[test]
fn summaries_keep_the_order() {
    let commits = vec![record("1111111111", Some("one")), record("2222222222", Some("two\nmore"))];
    let summaries = summarize_all(&commits);
    assert_eq!(summaries.len(), 2);
    assert_eq!(summaries[0].short_hash, "1111111");
    assert_eq!(summaries[1].short_message, "two");
    assert!(summarize_all(&Vec::new()).is_empty());
}
