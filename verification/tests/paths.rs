use fermix_desktop::paths::{Paths, PACKAGED_CLI};
use fermix_desktop::registry::{exemptions, surface, surfaces};
use fermix_desktop::runtime::{
    bundled_icon_search_path_when, compiled_schemas_file, icon_directory, schema_directory,
    RuntimeEnv, PRIVATE_PREFIX, SCHEMA_DIR_VARIABLE,
};

#[test]
fn without_a_development_configuration_the_packaged_path_is_used() {
    let paths = Paths::resolve_from(None, None);
    assert_eq!(paths.cli(), PACKAGED_CLI);
    assert_eq!(paths.fixture_home(), None);
    assert_eq!(paths.fixture_socket(), None);
}

#[test]
fn a_fixture_home_names_the_socket_inside_it() {
    let paths = Paths::resolve_from(None, Some("/tmp/fixture".to_string()));
    assert_eq!(
        paths.fixture_socket(),
        Some("/tmp/fixture/daemon.sock".to_string())
    );
    assert_eq!(paths.fixture_home(), Some("/tmp/fixture"));
}

#[test]
fn a_stand_in_command_line_replaces_the_packaged_one() {
    let paths = Paths::resolve_from(Some("/tmp/fake/fermix".to_string()), None);
    assert_eq!(paths.cli(), "/tmp/fake/fermix");
}

#[test]
fn a_release_build_reads_neither_variable() {
    assert_eq!(Paths::packaged(), Paths::resolve_from(None, None));
}

#[test]
fn every_surface_names_a_counterpart_or_an_exemption() {
    for surface in surfaces() {
        assert!(
            surface.counterpart.is_some() != surface.exemption.is_some(),
            "{} names both a counterpart and an exemption, or neither",
            surface.file
        );
    }
}

#[test]
fn every_exemption_says_why() {
    for exemption in exemptions() {
        assert!(
            exemption.sentence.len() > 40,
            "{} is exempt without a reason a reader can weigh",
            exemption.counterpart
        );
    }
}

#[test]
fn the_exemptions_are_the_four_the_design_names() {
    let named: Vec<&str> = exemptions()
        .iter()
        .map(|exemption| exemption.counterpart)
        .collect();

    assert_eq!(
        named,
        vec![
            "the login item row",
            "computer_use.grant.start",
            "computer history",
            "the Choose apps picker",
        ]
    );
}

#[test]
fn a_file_that_draws_is_found_by_its_own_path() {
    assert!(surface("src/ui/settings/providers.rs").is_some());
    assert!(surface("src/ui/settings/nothing.rs").is_none());
    assert_eq!(
        surface("src/ui/settings/dialogs/restart.rs").and_then(|s| s.counterpart),
        Some("Settings/RestartSheet.swift")
    );
}

#[test]
fn the_schema_directory_sits_under_the_prefix_the_package_installs() {
    assert_eq!(
        schema_directory(PRIVATE_PREFIX),
        "/usr/lib/fermix-desktop/share/glib-2.0/schemas"
    );
    assert_eq!(
        icon_directory(PRIVATE_PREFIX),
        "/usr/lib/fermix-desktop/share/icons"
    );
    assert_eq!(
        compiled_schemas_file(PRIVATE_PREFIX),
        "/usr/lib/fermix-desktop/share/glib-2.0/schemas/gschemas.compiled"
    );
}

#[test]
fn an_absent_variable_is_restored_by_unsetting_it_rather_than_emptying_it() {
    let captured = RuntimeEnv::restoring(vec![(SCHEMA_DIR_VARIABLE.to_string(), None)]);
    assert_eq!(
        captured.restores(),
        &[(SCHEMA_DIR_VARIABLE.to_string(), None)]
    );
}

#[test]
fn a_development_run_sets_nothing_and_restores_nothing() {
    let (set, captured) = RuntimeEnv::capture_when(false, "/tmp/x/usr/lib/fermix-desktop", None);
    assert_eq!(set, None);
    assert_eq!(captured, RuntimeEnv::unchanged());
    assert!(captured.restores().is_empty());
}

#[test]
fn the_private_runtime_sets_the_schema_directory_and_remembers_the_old_one() {
    let (set, captured) =
        RuntimeEnv::capture_when(true, PRIVATE_PREFIX, Some("/home/me/schemas".to_string()));
    assert_eq!(
        set,
        Some("/usr/lib/fermix-desktop/share/glib-2.0/schemas".to_string())
    );
    assert_eq!(
        captured.restores(),
        &[(
            SCHEMA_DIR_VARIABLE.to_string(),
            Some("/home/me/schemas".to_string())
        )]
    );
}

#[test]
fn the_packaged_runtime_contributes_its_bundled_icon_theme() {
    assert_eq!(
        bundled_icon_search_path_when(true, "/tmp/p/usr/lib/fermix-desktop"),
        Some("/tmp/p/usr/lib/fermix-desktop/share/icons".to_string())
    );
}

#[test]
fn a_host_toolkit_contributes_no_bundled_icon_theme() {
    assert_eq!(
        bundled_icon_search_path_when(false, "/tmp/p/usr/lib/fermix-desktop"),
        None
    );
}
