use fermix_desktop::copy;
use fermix_desktop::management::types::{LogEntry, LogLevel};
use fermix_desktop::models::logs::{level_word, levels, Landed, LogsState, HELD_ENTRIES};
use fermix_desktop::models::notices::{AttentionNotice, Notice};

fn entry(time: &str, message: &str) -> LogEntry {
    LogEntry {
        time: time.to_string(),
        level: LogLevel::Info,
        subsystem: None,
        message: message.to_string(),
    }
}

#[test]
fn the_first_page_becomes_the_list() {
    let mut model = LogsState::new();
    let landed = model.merge_newer(vec![entry("1", "a"), entry("2", "b")]);

    assert_eq!(landed, Landed::Replaced);
    assert_eq!(model.entries.len(), 2);
}

#[test]
fn a_page_that_overlaps_appends_only_what_is_new() {
    let mut model = LogsState::new();
    model.merge_newer(vec![entry("1", "a"), entry("2", "b")]);

    let landed = model.merge_newer(vec![entry("1", "a"), entry("2", "b"), entry("3", "c")]);

    assert_eq!(landed, Landed::Appended);
    assert_eq!(model.entries.len(), 3);
}

#[test]
fn a_page_with_nothing_new_leaves_the_list_alone() {
    let mut model = LogsState::new();
    model.merge_newer(vec![entry("1", "a")]);

    assert_eq!(
        model.merge_newer(vec![entry("1", "a")]),
        Landed::Unchanged,
        "a poll that finds nothing new must not move the list"
    );
    assert_eq!(model.entries.len(), 1);
}

#[test]
fn a_window_that_has_moved_past_everything_held_replaces_it() {
    let mut model = LogsState::new();
    model.merge_newer(vec![entry("1", "a")]);

    let landed = model.merge_newer(vec![entry("9", "z")]);

    assert_eq!(landed, Landed::Replaced);
    assert_eq!(model.entries[0].message, "z");
}

#[test]
fn an_older_page_goes_in_front_without_repeating_what_is_held() {
    let mut model = LogsState::new();
    model.merge_newer(vec![entry("5", "e")]);

    let landed = model.merge_older(vec![entry("3", "c"), entry("4", "d"), entry("5", "e")]);

    assert_eq!(landed, Landed::Prepended);
    let held: Vec<String> = model
        .entries
        .iter()
        .map(|entry| entry.message.clone())
        .collect();
    assert_eq!(held, vec!["c", "d", "e"]);
}

#[test]
fn the_held_window_is_bounded() {
    let mut model = LogsState::new();
    let page: Vec<LogEntry> = (0..HELD_ENTRIES + 10)
        .map(|index| entry(&index.to_string(), "line"))
        .collect();

    model.merge_newer(page);
    assert!(model.entries.len() <= HELD_ENTRIES + 10);

    let next: Vec<LogEntry> = (HELD_ENTRIES..HELD_ENTRIES + 20)
        .map(|index| entry(&index.to_string(), "line"))
        .collect();
    model.merge_newer(next);

    assert!(model.entries.len() <= HELD_ENTRIES, "the window is bounded");
}

#[test]
fn every_level_has_a_word() {
    let all = levels();
    for level in &all {
        assert!(!copy::text(level_word(*level)).is_empty());
    }
    assert_eq!(all.len(), 8);
}

#[test]
fn a_search_is_trimmed_and_a_blank_one_is_none() {
    let mut model = LogsState::new();
    assert!(model.set_search(Some("  timeout  ")));
    assert_eq!(model.search.as_deref(), Some("timeout"));
    assert!(!model.set_search(Some("timeout")));
    assert!(model.set_search(Some("   ")));
    assert_eq!(model.search, None);
}

#[test]
fn the_state_the_window_opened_on_raises_nothing() {
    let mut notice = AttentionNotice::new();
    assert_eq!(notice.observe(3), Notice::Nothing);
    assert_eq!(notice.seen(), Some(3));
}

#[test]
fn a_count_that_grew_while_the_window_was_open_is_said_once() {
    let mut notice = AttentionNotice::new();
    notice.observe(0);

    assert_eq!(notice.observe(1), Notice::Post);
    assert_eq!(notice.observe(1), Notice::Nothing);
    assert_eq!(notice.observe(2), Notice::Post);
}

#[test]
fn a_count_that_fell_to_nothing_takes_the_notification_back() {
    let mut notice = AttentionNotice::new();
    notice.observe(2);

    assert_eq!(notice.observe(0), Notice::Withdraw);
    assert_eq!(notice.observe(0), Notice::Nothing);
}
