use fermix_desktop::management::types::{
    SettingValue, SettingsGetResult, SettingsPane, SettingsRow, SettingsRowKind, SettingsSection,
};
use fermix_desktop::models::settings_model::State;

fn row(key: &str, value: SettingValue) -> SettingsRow {
    SettingsRow {
        key: key.to_string(),
        kind: SettingsRowKind::Text,
        label: key.to_string(),
        footer: None,
        value,
        present: None,
        options: vec![],
        min: None,
        max: None,
        step: None,
        restart: false,
        read_only: false,
        suggestions: false,
        unit: None,
        format: None,
    }
}

fn state() -> State {
    let mut state = State::default();
    state.descriptors.insert(
        "memory".to_string(),
        SettingsGetResult {
            id: "memory".to_string(),
            title: "Memory".to_string(),
            rows: vec![
                row("depth", SettingValue::Number(3)),
                row("style", SettingValue::Text("brief".to_string())),
                row("tags", SettingValue::List(vec!["a".to_string()])),
            ],
        },
    );
    state
}

#[test]
fn a_draft_is_drawn_over_a_value_in_flight_and_both_over_the_daemons() {
    let mut state = state();
    state.in_flight.insert(
        ("memory".to_string(), "depth".to_string()),
        SettingValue::Number(5),
    );
    state.in_flight.insert(
        ("memory".to_string(), "style".to_string()),
        SettingValue::Text("long".to_string()),
    );
    state.drafts.insert(
        ("memory".to_string(), "style".to_string()),
        SettingValue::Text("terse".to_string()),
    );

    let drawn: Vec<SettingValue> = state
        .rows("memory")
        .into_iter()
        .map(|row| row.value)
        .collect();
    assert_eq!(
        drawn,
        vec![
            SettingValue::Number(5),
            SettingValue::Text("terse".to_string()),
            SettingValue::List(vec!["a".to_string()]),
        ]
    );
    assert!(state.rows("nothing").is_empty());
}

#[test]
fn escape_restores_the_daemons_own_value() {
    let mut state = state();
    state.drafts.insert(
        ("memory".to_string(), "depth".to_string()),
        SettingValue::Number(9),
    );
    assert_eq!(state.draft("memory", "depth"), Some(SettingValue::Number(9)));
    assert_eq!(
        state.daemon_value("memory", "depth"),
        Some(SettingValue::Number(3))
    );
    assert_eq!(state.daemon_value("memory", "nothing"), None);
    assert_eq!(state.draft("memory", "style"), None);
}

#[test]
fn the_sections_of_a_pane_are_the_published_ones_in_order() {
    let mut state = state();
    let section = |id: &str, pane: SettingsPane| SettingsSection {
        id: id.to_string(),
        pane,
        title: id.to_string(),
    };
    state.sections = vec![
        section("memory", SettingsPane::Memory),
        section("voice", SettingsPane::Voice),
        section("recall", SettingsPane::Memory),
    ];
    let ids: Vec<&str> = state
        .sections_of(SettingsPane::Memory)
        .into_iter()
        .map(|s| s.id.as_str())
        .collect();
    assert_eq!(ids, vec!["memory", "recall"]);
    assert_eq!(state.count_sections_of(SettingsPane::Memory), 2);
    assert_eq!(state.secret_store_kind(), None);
}
