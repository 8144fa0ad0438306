use fermix_desktop::copy::Key;
use fermix_desktop::management::types::SettingsPane;
use fermix_desktop::models::pane::{for_slug, groups, of_group, panes, slug, PaneKind};
use fermix_desktop::models::recovery::{log_lines, Cause};
use fermix_desktop::service::{DiagnosticsExport, ExportLogEntry};

#[test]
fn the_table_is_thirteen_panes_in_four_groups() {
    let all = panes();
    let all_groups = groups();
    assert_eq!(all.len(), 13);
    assert_eq!(all_groups.len(), 4);

    let grouped: usize = all_groups.iter().map(|group| of_group(*group).len()).sum();
    assert_eq!(grouped, all.len(), "every pane sits in a group");
}

#[test]
fn the_groups_hold_the_panes_the_redlines_name() {
    let names = |group: Key| -> Vec<Key> { of_group(group).iter().map(|row| row.title).collect() };

    assert_eq!(
        names(Key::SettingsGroupAssistant),
        vec![Key::PaneProviders, Key::PanePersonality, Key::PaneMemory]
    );
    assert_eq!(
        names(Key::SettingsGroupConnections),
        vec![Key::PaneChannels, Key::PaneIntegrations]
    );
    assert_eq!(
        names(Key::SettingsGroupCapabilities),
        vec![
            Key::PaneVoice,
            Key::PaneMeetings,
            Key::PaneComputer,
            Key::PaneCodingAgents,
            Key::PaneSearch,
            Key::PaneImages,
        ]
    );
    assert_eq!(
        names(Key::SettingsGroupSystem),
        vec![Key::PaneSandbox, Key::PanePermissions]
    );
}

#[test]
fn the_six_hand_built_panes_are_the_ones_the_design_names() {
    let hand_built: Vec<SettingsPane> = panes()
        .iter()
        .filter(|row| row.kind == PaneKind::HandBuilt)
        .map(|row| row.pane)
        .collect();

    assert_eq!(
        hand_built,
        vec![
            SettingsPane::Providers,
            SettingsPane::Channels,
            SettingsPane::Integrations,
            SettingsPane::Meetings,
            SettingsPane::Computer,
            SettingsPane::Permissions,
        ]
    );
}

#[test]
fn one_pane_carries_a_statement_over_its_controls() {
    let stated: Vec<SettingsPane> = panes()
        .iter()
        .filter(|row| row.kind == PaneKind::StatedDescriptor)
        .map(|row| row.pane)
        .collect();

    assert_eq!(
        stated,
        vec![SettingsPane::Voice],
        "the microphone statement belongs above the controls that open one"
    );
}

#[test]
fn every_pane_is_written_down_once_and_reads_back() {
    for row in panes() {
        let slug = slug(row.pane).expect("every pane in the table is spelled");
        assert_eq!(for_slug(slug), Some(row.pane));
    }
}

fn line(time: Option<&str>, level: Option<&str>, message: Option<&str>) -> ExportLogEntry {
    ExportLogEntry {
        time: time.map(str::to_string),
        level: level.map(str::to_string),
        message: message.map(str::to_string),
    }
}

#[test]
fn the_evidence_is_the_exports_own_log_tail() {
    let export = DiagnosticsExport {
        log_entries: Some(vec![
            line(Some("2026-01-01T00:00:00Z"), Some("info"), Some("started")),
            line(
                Some("2026-01-01T00:00:00+0000"),
                None,
                Some("host fermix[4711]: started"),
            ),
        ]),
    };
    assert_eq!(
        log_lines(&export),
        vec![
            "2026-01-01T00:00:00Z info started".to_string(),
            "2026-01-01T00:00:00+0000 host fermix[4711]: started".to_string(),
        ]
    );
}

#[test]
fn a_source_that_could_not_be_read_has_no_evidence_rather_than_a_blank_line() {
    let unreadable = DiagnosticsExport { log_entries: None };
    assert!(log_lines(&unreadable).is_empty());
    let empty = DiagnosticsExport {
        log_entries: Some(vec![]),
    };
    assert!(log_lines(&empty).is_empty());
    let partial = DiagnosticsExport {
        log_entries: Some(vec![line(None, Some("info"), Some("no time"))]),
    };
    assert!(log_lines(&partial).is_empty());
}

#[test]
fn a_cause_always_carries_somebody_elses_sentence() {
    let cause = Cause::ConfigUnreadable("expected a table key".into());
    assert_eq!(cause.sentence(), "expected a table key");
    assert_eq!(cause.title(), Key::RecoveryConfigUnreadableTitle);

    let cause = Cause::ServiceRefused("This session has no user service manager.".into());
    assert_eq!(cause.title(), Key::RecoveryServiceRefusedTitle);
}
