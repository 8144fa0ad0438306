use std::collections::BTreeSet;

use fermix_desktop::actions::{
    actions, application_action_names, group, listed, primary_menu, spec, window_action_names,
    Group,
};

#[test]
fn every_action_is_prefixed_and_named_once() {
    let mut seen = BTreeSet::new();
    for spec in actions() {
        assert!(
            spec.name.starts_with("app.") || spec.name.starts_with("win."),
            "{} has no scope",
            spec.name
        );
        assert!(seen.insert(spec.name), "{} appears twice", spec.name);
    }
}

#[test]
fn no_accelerator_is_bound_to_two_actions() {
    let mut seen = BTreeSet::new();
    for spec in actions() {
        for accel in spec.accels {
            assert!(seen.insert(accel), "{accel} is bound twice");
        }
    }
}

#[test]
fn every_menu_row_names_an_action_that_exists() {
    for (name, _) in primary_menu() {
        assert!(
            spec(name).is_some(),
            "{name} is in the menu and not in the table"
        );
    }
}

#[test]
fn the_menu_is_the_six_rows_the_redlines_fix_in_their_order() {
    let names: Vec<&str> = primary_menu().iter().map(|(name, _)| *name).collect();
    assert_eq!(
        names,
        vec![
            "win.settings",
            "win.run-doctor",
            "win.restart",
            "app.shortcuts",
            "app.about",
            "app.quit",
        ]
    );
}

#[test]
fn every_action_a_person_can_reach_lands_in_a_shortcuts_group() {
    let grouped: usize = [Group::General, Group::Navigation, Group::Actions]
        .into_iter()
        .map(|which| group(which).len())
        .sum();
    let table = actions();
    let reachable = table.iter().filter(|spec| listed(spec)).count();

    assert_eq!(grouped, reachable);
    assert!(
        reachable < table.len(),
        "the one action a notification takes is in the map and not a keyboard path"
    );
}

#[test]
fn the_two_scopes_partition_the_table() {
    assert_eq!(
        window_action_names().len() + application_action_names().len(),
        actions().len()
    );
}

#[test]
fn the_keyboard_paths_the_redlines_name_are_all_bound() {
    let required = [
        ("win.settings", "<Control>comma"),
        ("win.home", "<Control>1"),
        ("win.doctor", "<Control>2"),
        ("win.logs", "<Control>3"),
        ("win.search", "<Control>f"),
        ("win.run-doctor", "<Control>r"),
        ("win.restart", "<Shift><Control>r"),
        ("win.toggle-sidebar", "F9"),
        ("win.back", "Escape"),
        ("win.back", "<Alt>Left"),
        ("win.close", "<Control>w"),
        ("app.quit", "<Control>q"),
        ("app.shortcuts", "<Control>question"),
    ];

    for (name, accel) in required {
        let spec = spec(name).unwrap_or_else(|| panic!("{name} is missing"));
        assert!(
            spec.accels.contains(&accel),
            "{name} is not bound to {accel}"
        );
    }
}

#[test]
fn a_window_adds_its_actions_without_their_scope() {
    let names = window_action_names();
    assert!(names.contains(&"settings".to_string()));
    assert!(names.contains(&"toggle-sidebar".to_string()));
    assert!(!names.iter().any(|name| name.starts_with("win.")));
    assert_eq!(
        application_action_names(),
        vec!["quit", "about", "home", "shortcuts"]
    );
}

#[test]
fn the_route_a_notification_takes_is_in_the_map_and_not_listed() {
    let home = spec("app.home").expect("the route back is in the map");
    assert!(home.accels.is_empty());
    assert!(!listed(&home));
    assert!(listed(&spec("app.about").expect("about is in the map")));
    assert!(spec("win.nothing").is_none());
}

#[test]
fn a_group_keeps_table_order() {
    let actions_group: Vec<&str> = group(Group::Actions).iter().map(|spec| spec.name).collect();
    assert_eq!(actions_group, vec!["win.run-doctor", "win.restart"]);
    let general: Vec<&str> = group(Group::General).iter().map(|spec| spec.name).collect();
    assert_eq!(
        general,
        vec!["app.quit", "app.about", "app.shortcuts", "win.close"]
    );
}
