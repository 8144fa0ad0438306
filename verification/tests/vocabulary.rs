use fermix_desktop::management::errors::WireError;
use fermix_desktop::management::types::{
    ConfigState, LegacyServiceUnit, ReadinessFailure, RestartState, SecretAclRestricted,
    SettingsPane as Pane, SetupCoexistence, SetupComputerHistory, SetupFeatures,
    SetupPersonalization, SetupPersonalizationPresent, SetupReadiness, SetupStateResult,
};
use fermix_desktop::management::vocabulary::{
    gaps, pane_for_slug, pane_slug, Gap, Readiness, Refusal,
};

fn failure(component: &str, gating: bool, pane: Pane, detail_key: &str) -> ReadinessFailure {
    ReadinessFailure {
        component: component.to_string(),
        gating,
        pane,
        detail_key: detail_key.to_string(),
    }
}

fn minimal(failures: Vec<ReadinessFailure>) -> SetupStateResult {
    SetupStateResult {
        readiness: SetupReadiness {
            status: Some("setup_required".to_string()),
            failures,
        },
        restart: RestartState {
            required: false,
            reasons: vec![],
        },
        providers: vec![],
        channels: vec![],
        personalization: SetupPersonalization {
            present: SetupPersonalizationPresent {
                user_name: false,
                timezone: false,
                communication_style: false,
            },
        },
        features: SetupFeatures {
            voice: false,
            voice_notes: false,
            meetings: false,
            computer_use: false,
            computer_history: SetupComputerHistory {
                enabled: false,
                installed: false,
                ready: false,
            },
        },
        profile: None,
        coexistence: SetupCoexistence {
            legacy_service_unit: LegacyServiceUnit {
                present: false,
                scope: None,
                path: None,
            },
            config_state: ConfigState::Clear,
            secret_acl_restricted: SecretAclRestricted {
                present: None,
                keys: vec![],
            },
        },
        secrets: None,
    }
}

#[test]
fn readiness_is_read_from_the_word_the_daemon_published() {
    assert_eq!(Readiness::parse(Some("ready")), Readiness::Ready);
    assert_eq!(
        Readiness::parse(Some("setup_required")),
        Readiness::SetupRequired
    );
    assert_eq!(Readiness::parse(None), Readiness::Unknown);
    assert_eq!(
        Readiness::parse(Some("something_newer")),
        Readiness::Unknown
    );
}

#[test]
fn every_published_detail_key_family_is_read() {
    assert_eq!(Gap::parse("personalization"), Gap::Personalization);
    assert_eq!(
        Gap::parse("provider:unknown_configured"),
        Gap::Provider(None)
    );
    assert_eq!(
        Gap::parse("provider:missing_credentials:openai"),
        Gap::Provider(Some("openai".into()))
    );
    assert_eq!(
        Gap::parse("channel:whatsapp"),
        Gap::Channel("whatsapp".into())
    );
    assert_eq!(Gap::parse("realtime:openai"), Gap::Realtime);
    assert_eq!(Gap::parse("restart_pending"), Gap::RestartPending);
    assert_eq!(
        Gap::parse("external_config_change"),
        Gap::ExternalConfigChange
    );
    assert_eq!(Gap::parse("legacy_service_unit"), Gap::LegacyServiceUnit);
    assert_eq!(Gap::parse("engine_path_baseline"), Gap::EnginePathBaseline);
}

#[test]
fn a_key_this_build_has_never_seen_keeps_its_own_name() {
    assert_eq!(
        Gap::parse("a_gap_from_the_future"),
        Gap::Unrecognized("a_gap_from_the_future".into())
    );
    assert_eq!(
        Gap::parse("channel:").identifier(),
        Some("channel:"),
        "an empty parameter is not a channel called nothing"
    );
}

#[test]
fn the_gaps_of_a_state_are_its_failures_then_its_standing_descriptors() {
    let mut state = minimal(vec![
        failure("personalization", true, Pane::Personality, "personalization"),
        failure("channel:whatsapp", false, Pane::Channels, "channel:whatsapp"),
    ]);
    state.restart.required = true;
    state.coexistence.config_state = ConfigState::ExternalChange;
    state.coexistence.legacy_service_unit = LegacyServiceUnit {
        present: true,
        scope: Some("user".to_string()),
        path: Some("/x".to_string()),
    };

    assert_eq!(
        gaps(&state),
        vec![
            Gap::Personalization,
            Gap::Channel("whatsapp".into()),
            Gap::RestartPending,
            Gap::ExternalConfigChange,
            Gap::LegacyServiceUnit,
        ]
    );
}

#[test]
fn a_restart_the_daemon_already_listed_is_not_listed_twice() {
    let mut state = minimal(vec![failure(
        "restart",
        false,
        Pane::Providers,
        "restart_pending",
    )]);
    state.restart.required = true;

    assert_eq!(gaps(&state), vec![Gap::RestartPending]);
}

#[test]
fn a_restricted_secret_list_is_never_a_row_on_this_platform() {
    let mut state = minimal(vec![]);
    state.coexistence.secret_acl_restricted = SecretAclRestricted {
        present: Some(true),
        keys: vec!["a".to_string()],
    };

    assert!(gaps(&state).is_empty());
}

#[test]
fn every_pane_the_daemon_publishes_round_trips_through_its_slug() {
    for pane in [
        Pane::Providers,
        Pane::Personality,
        Pane::Memory,
        Pane::Channels,
        Pane::Integrations,
        Pane::Voice,
        Pane::Meetings,
        Pane::Computer,
        Pane::Coding,
        Pane::Search,
        Pane::Images,
        Pane::Sandbox,
        Pane::Permissions,
    ] {
        let slug = pane_slug(pane).expect("every published pane is spelled");
        assert_eq!(pane_for_slug(slug), Some(pane));
    }

    assert_eq!(pane_slug(Pane::Unrecognized), None);
    assert_eq!(pane_for_slug("a_pane_from_the_future"), None);
}

#[test]
fn the_four_refusals_the_product_routes_on_are_read_and_the_rest_are_one() {
    let refusal = |code: &str| {
        Refusal::of(&WireError {
            code: code.to_string(),
            message: String::new(),
            sentence: None,
            details: vec![],
        })
    };

    assert_eq!(refusal("external_change"), Refusal::ExternalChange);
    assert_eq!(refusal("config_unreadable"), Refusal::ConfigUnreadable);
    assert_eq!(refusal("cursor_expired"), Refusal::CursorExpired);
    assert_eq!(refusal("busy"), Refusal::Busy);
    assert_eq!(refusal("internal_error"), Refusal::Other);
}
