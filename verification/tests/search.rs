use fermix_desktop::models::plugins;

#[test]
fn the_search_ignores_case_and_the_spaces_around_it() {
    assert!(plugins::matches("  GMAIL ", "Gmail", None));
    assert!(plugins::matches("mail", "Inbox", Some("Read and send MAIL")));
    assert!(!plugins::matches("calendar", "Gmail", Some("Read and send mail")));
    assert!(plugins::matches("   ", "Anything", None));
}
