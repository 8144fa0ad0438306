use fermix_desktop::text::{is_whitespace, trim};
use fermix_desktop::copy::{fill, header_capitalized, replace, Key};

#[test]
fn header_capitalization_follows_the_gnome_rule() {
    assert_eq!(
        header_capitalized("reload settings from disk"),
        "Reload Settings From Disk"
    );
    assert_eq!(header_capitalized("back to Fermix"), "Back to Fermix");
    assert_eq!(header_capitalized("run doctor"), "Run Doctor");
    assert_eq!(header_capitalized("open at login"), "Open at Login");
}

#[test]
fn an_acronym_keeps_its_capitals() {
    assert_eq!(header_capitalized("MCPs"), "MCPs");
    assert_eq!(
        header_capitalized("use the Codex CLI sign-in"),
        "Use the Codex CLI Sign-in"
    );
}

#[test]
fn the_last_word_is_capitalized_even_when_it_is_minor() {
    assert_eq!(header_capitalized("what this is for"), "What This Is For");
}

#[test]
fn fill_substitutes_every_marker() {
    assert_eq!(
        fill(Key::DoctorSummaryFailed, &[("{count}", "3")]),
        "3 failed"
    );
}

#[test]
fn replace_changes_every_occurrence_and_nothing_else() {
    assert_eq!(replace("a{x}b{x}", "{x}", "1"), "a1b1");
    assert_eq!(replace("abc", "{x}", "1"), "abc");
}

#[test]
fn white_space_is_what_std_calls_white_space() {
    for code in 0u32..=0x10FFFF {
        if let Some(c) = char::from_u32(code) {
            assert_eq!(is_whitespace(c), c.is_whitespace(), "U+{code:04X}");
        }
    }
    assert_eq!(trim(" \u{3000}words\u{2028}\t"), "words");
}
