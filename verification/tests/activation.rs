use fermix_desktop::copy;
use fermix_desktop::management::errors::ManagementError;
use fermix_desktop::models::activation::{
    is_crash_loop, linger_command, preflight_body_key, preflight_of_status, preflight_of_status_in,
    protocol_refusal, protocol_refusal_in, range, Step, StepState,
    CRASH_LOOP_RESTARTS,
};
use fermix_desktop::models::home::{skew_rows, skew_rows_in};
use fermix_desktop::models::settings_model::State;
use fermix_desktop::service::{Alignment, GuiAlignment, ServiceCode, ServiceStatus, UnitStatus};

fn status_with(sub_state: Option<&str>, restart_count: u32) -> ServiceStatus {
    ServiceStatus {
        enabled: false,
        alignment: Alignment::Aligned,
        sub_state: sub_state.map(str::to_string),
        restart_count,
        unit: UnitStatus {
            foreign: false,
            effective_path: None,
        },
        path_source: "baseline".to_string(),
        foreign_distribution: None,
        answers_nothing: false,
        bound_home: Some("/home/me/.fermix".to_string()),
    }
}

#[test]
fn every_row_of_the_ladder_says_something() {
    for step in Step::all() {
        assert!(!copy::text(step.key()).is_empty());
    }
    for state in [
        StepState::Waiting,
        StepState::Working,
        StepState::Done,
        StepState::Failed,
    ] {
        assert!(!copy::text(state.key()).is_empty());
    }
}

#[test]
fn a_refusal_stops_on_the_row_its_own_code_names() {
    assert_eq!(Step::of_code(ServiceCode::LingerDenied), Step::EnableLinger);
    assert_eq!(Step::of_code(ServiceCode::InvalidHome), Step::BindHome);
    assert_eq!(
        Step::of_code(ServiceCode::HealthUnavailable),
        Step::VerifyDaemon
    );
    assert_eq!(
        Step::of_code(ServiceCode::SystemctlFailed),
        Step::StartService
    );
}

#[test]
fn a_version_window_reads_as_one_number_when_both_ends_agree() {
    assert_eq!(range(2, 2), "2");
    assert_eq!(range(1, 2), "1\u{2013}2");
}

#[test]
fn a_crash_loop_is_a_restarting_unit_or_a_spent_start_budget() {
    assert!(is_crash_loop(&status_with(Some("auto-restart"), 0)));
    assert!(is_crash_loop(&status_with(
        Some("dead"),
        CRASH_LOOP_RESTARTS
    )));
    assert!(!is_crash_loop(&status_with(Some("running"), 0)));
    assert!(!is_crash_loop(&status_with(None, 0)));
}

#[test]
fn an_install_that_answered_marks_every_row_it_answers_for() {
    assert_eq!(
        Step::installed_by_the_command_line(),
        vec![Step::BindHome, Step::EnableLinger, Step::StartService]
    );
    let all = Step::all();
    for step in Step::installed_by_the_command_line() {
        assert!(all.contains(&step), "{step:?} is a row of the ladder");
    }
}

#[test]
fn the_linger_command_names_this_account_rather_than_a_placeholder() {
    let command = linger_command("alice");
    assert!(!command.contains("<user>"), "{command}");
    assert!(command.starts_with("sudo loginctl enable-linger "));
    assert_eq!(command, "sudo loginctl enable-linger alice");
}

#[test]
fn a_version_mismatch_names_both_windows() {
    let error = ManagementError::VersionsDoNotOverlap { app: (2, 3), daemon: (4, 5) };
    let english = "This window speaks versions {app_range} and the background service speaks {daemon_range}. Update both packages together.";
    let refusal = protocol_refusal_in(&error, english).expect("a mismatch is refused");
    assert_eq!(
        refusal.body,
        "This window speaks versions 2\u{2013}3 and the background service speaks 4\u{2013}5. Update both packages together."
    );
    assert_eq!(protocol_refusal(&error).expect("refused").body, refusal.body);
    let french = protocol_refusal_in(&error, "Versions {app_range} contre {daemon_range}.").expect("refused");
    assert_eq!(french.body, "Versions 2\u{2013}3 contre 4\u{2013}5.");
    assert!(protocol_refusal_in(&ManagementError::NoAnswer { method: "hello".to_string() }, english).is_none());
}

#[test]
fn each_build_comparison_row_reads_its_own_words() {
    let mut state = State::default();
    let mut status = status_with(Some("running"), 0);
    status.alignment = Alignment::PendingRestart;
    state.service = Some(status);
    let rows = skew_rows_in(&state, GuiAlignment::Stale, "engine words", "window words");
    assert_eq!(rows.len(), 2);
    assert_eq!(rows[0].id, "engine-skew");
    assert_eq!(rows[0].detail.as_deref(), Some("engine words"));
    assert_eq!(rows[1].id, "gui-skew");
    assert_eq!(rows[1].detail.as_deref(), Some("window words"));
    let read = skew_rows(&state, GuiAlignment::Stale);
    assert_eq!(
        read[1].detail.as_deref(),
        Some("Quit Fermix and open it again to use the version that is installed.")
    );
    assert!(skew_rows_in(&State::default(), GuiAlignment::Current, "a", "b").is_empty());
}

#[test]
fn a_preflight_paragraph_reads_what_gettext_answered_for_its_words() {
    let mut status = status_with(Some("running"), 0);
    assert_eq!(preflight_body_key(&status), None);
    assert!(preflight_of_status_in(&status, "anything").is_none());
    status.alignment = Alignment::PendingRestart;
    assert_eq!(preflight_body_key(&status), Some(copy::Key::PreflightEngineSkewBody));
    let refusal = preflight_of_status_in(&status, "Redémarrez le service.").expect("refused");
    assert_eq!(refusal.body, "Redémarrez le service.");
    assert_eq!(refusal.title, copy::Key::PreflightEngineSkewTitle);
    let english = preflight_of_status(&status).expect("refused");
    assert_eq!(english.body, copy::text(copy::Key::PreflightEngineSkewBody));
    status.foreign_distribution = Some("nixos".to_string());
    let foreign = preflight_of_status_in(&status, "words").expect("refused");
    assert_eq!(foreign.title, copy::Key::PreflightForeignDistributionTitle);
    assert_eq!(foreign.body, "words");
    assert_eq!(foreign.sentence.as_deref(), Some("nixos"));
}
