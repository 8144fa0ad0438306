use fermix_desktop::management::vocabulary::Gap;
use fermix_desktop::models::home::{words_and_action, AttentionAction};
use fermix_desktop::actions::{primary_menu, spec};
use fermix_desktop::management::contract::{method_minimum, methods};
use fermix_desktop::management::types::SettingsPane;
use fermix_desktop::management::vocabulary::{pane_for_slug, pane_slug};
use fermix_desktop::management::types::SettingValue;
use fermix_desktop::models::onboarding::{blocked, first_incomplete, Block, Stage};
use fermix_desktop::models::secret_store::Availability;
use fermix_desktop::models::settings_model::State;

#[test]
fn every_availability_reads_back_through_its_word() {
    for availability in [
        Availability::Ready,
        Availability::Locked,
        Availability::Unavailable,
    ] {
        assert_eq!(Availability::of(availability.word()), Some(availability));
    }
    assert_eq!(Availability::of("open"), None);
}

#[test]
fn the_finish_gate_is_the_daemons_own() {
    let mut state = State::default();
    assert_eq!(blocked(&state), Some(Block::DaemonNotLive));
    assert_eq!(first_incomplete(&state), Stage::Welcome);

    state.reachable = Some(true);
    assert_eq!(blocked(&state), None);
    assert_eq!(first_incomplete(&state), Stage::Ready);

    state.restart.required = true;
    assert_eq!(blocked(&state), Some(Block::Restart));
}

#[test]
fn escape_undoes_an_edit() {
    let mut state = State::default();
    let id = ("memory".to_string(), "depth".to_string());
    state.set_draft(id.clone(), SettingValue::Number(4));
    assert_eq!(state.value_of(&id), Some(&SettingValue::Number(4)));
    assert!(state.discard_draft(&id));
    assert_eq!(state.value_of(&id), None);
    assert!(!state.discard_draft(&id));
}

use fermix_desktop::management::client::ManagementClient;
use fermix_desktop::management::contract::VersionRange;
use fermix_desktop::management::errors::ManagementError;
use fermix_desktop::management::types::{
    EngineIdentity, HelloCapabilities, HelloResult, ProtocolRange, SetupEndpoint,
};

fn hello(minimum: u32, maximum: u32) -> HelloResult {
    HelloResult {
        protocol: ProtocolRange {
            current_version: maximum,
            minimum_version: minimum,
            maximum_version: maximum,
        },
        capabilities: HelloCapabilities {
            methods: vec!["hello".to_string()],
            minimum_versions: vec![],
        },
        engine: EngineIdentity {
            engine_id: "e".to_string(),
            product_version: "1.0.0".to_string(),
            build_id: None,
            source_commit: None,
            distribution_identity: "debian".to_string(),
            artifact_target: None,
            architecture: "x86_64".to_string(),
            pid: "1".to_string(),
        },
        setup: SetupEndpoint {
            origin: "http://127.0.0.1:4030".to_string(),
            path: "/setup".to_string(),
        },
    }
}

#[test]
fn the_negotiated_version_is_the_highest_both_halves_speak() {
    let mut client = ManagementClient::unbound();
    let app = VersionRange { min: 2, max: 3 };
    assert!(client.adopt(hello(1, 5), app).is_ok());
    assert_eq!(client.negotiated_version(), Some(3));

    let mut client = ManagementClient::unbound();
    assert!(client.adopt(hello(1, 2), app).is_ok());
    assert_eq!(client.negotiated_version(), Some(2));

    let mut client = ManagementClient::unbound();
    match client.adopt(hello(4, 6), app) {
        Err(ManagementError::VersionsDoNotOverlap { app, daemon }) => {
            assert_eq!(app, (2, 3));
            assert_eq!(daemon, (4, 6));
        }
        other => panic!("expected no overlap, got {other:?}"),
    }
    assert_eq!(client.negotiated_version(), None);
}

#[test]
fn a_looked_up_action_carries_the_name_asked_for() {
    for (name, _) in primary_menu() {
        assert_eq!(spec(name).expect("a menu row names an action").name, name);
    }
    assert!(spec("app.invent").is_none());
}

#[test]
fn every_method_is_published_once_in_order() {
    let listed = methods();
    assert!(!listed.is_empty());
    for pair in listed.windows(2) {
        assert!(pair[0].0 < pair[1].0, "{} then {}", pair[0].0, pair[1].0);
    }
    for (method, minimum) in &listed {
        assert_eq!(method_minimum(method), Some(*minimum));
    }
}

#[test]
fn every_routable_pane_reads_back_as_itself() {
    for pane in [
        SettingsPane::Providers,
        SettingsPane::Personality,
        SettingsPane::Memory,
        SettingsPane::Channels,
        SettingsPane::Integrations,
        SettingsPane::Voice,
        SettingsPane::Meetings,
        SettingsPane::Computer,
        SettingsPane::Coding,
        SettingsPane::Search,
        SettingsPane::Images,
        SettingsPane::Sandbox,
        SettingsPane::Permissions,
    ] {
        let slug = pane_slug(pane).expect("a routable pane is spelled");
        assert_eq!(pane_for_slug(slug), Some(pane));
    }
    assert_eq!(pane_slug(SettingsPane::Unrecognized), None);
    assert_eq!(pane_for_slug("a_pane_from_the_future"), None);
}

#[test]
fn a_recognised_gap_ignores_its_pane() {
    let recognised = [
        Gap::Personalization,
        Gap::Provider(Some("openai".to_string())),
        Gap::Provider(None),
        Gap::Channel("telegram".to_string()),
        Gap::Realtime,
        Gap::RestartPending,
        Gap::ExternalConfigChange,
        Gap::ConfigUnreadable,
        Gap::LegacyServiceUnit,
        Gap::EnginePathBaseline,
    ];
    for gap in &recognised {
        let plain = words_and_action(gap, None);
        assert_eq!(words_and_action(gap, Some(SettingsPane::Voice)), plain);
        assert_eq!(words_and_action(gap, Some(SettingsPane::Unrecognized)), plain);
        assert_eq!(plain.1.is_none(), *gap == Gap::ConfigUnreadable);
    }
    assert_eq!(words_and_action(&Gap::ExternalConfigChange, None).1, Some(AttentionAction::Reload));
    assert_eq!(words_and_action(&Gap::RestartPending, None).1, Some(AttentionAction::Restart));
    assert_eq!(words_and_action(&Gap::LegacyServiceUnit, None).1, Some(AttentionAction::OpenDoctor));
    assert_eq!(words_and_action(&Gap::EnginePathBaseline, None).1, Some(AttentionAction::OpenDoctor));
    assert!(matches!(
        words_and_action(&Gap::Realtime, None).1,
        Some(AttentionAction::OpenPane(SettingsPane::Voice, _))
    ));
    let unknown = Gap::Unrecognized("gap.from_the_future".to_string());
    assert!(matches!(
        words_and_action(&unknown, Some(SettingsPane::Memory)).1,
        Some(AttentionAction::OpenPane(SettingsPane::Memory, _))
    ));
    assert_eq!(words_and_action(&unknown, None).1, None);
}
