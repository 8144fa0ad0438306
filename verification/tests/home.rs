use fermix_desktop::copy;
use fermix_desktop::management::types::{JobFailure, JobFailureCode, JobKind, JobStatus, JobView};
use fermix_desktop::management::types::SettingValue;
use fermix_desktop::models::computer::{install_finished, InstallFinish};
use fermix_desktop::models::settings_model::Sentence;
use fermix_desktop::models::home::{
    attention_rows, facts, facts_in, status_word, toolbar_action, uptime, uptime_in, uptime_key,
    FactWords, StatusWord,
};
use fermix_desktop::models::jobs::{newest_of_kind, phase_word, poll_cap, JobState, POLL_CAP};
use fermix_desktop::models::settings_model::State;

#[test]
fn uptime_reads_in_the_two_largest_units_that_fit() {
    assert_eq!(uptime(0), "Just started");
    assert_eq!(uptime(59_000), "Just started");
    assert_eq!(uptime(90_000), "1 min");
    assert_eq!(uptime(3_600_000 + 120_000), "1 h 2 min");
    assert_eq!(uptime(86_400_000 * 2 + 3_600_000 * 3), "2 d 3 h");
}

#[test]
fn nothing_read_yet_claims_nothing() {
    let state = State::default();
    assert_eq!(status_word(&state), StatusWord::Unknown);
    assert_eq!(toolbar_action(&state), None);
    assert!(attention_rows(&state).is_empty());
}

#[test]
fn a_daemon_that_does_not_answer_is_not_running() {
    let mut state = State::default();
    state.reachable = Some(false);
    assert_eq!(status_word(&state), StatusWord::NotRunning);
    assert_eq!(toolbar_action(&state), None);
}

#[test]
fn the_facts_say_unavailable_rather_than_nothing() {
    let facts = facts(&State::default(), None, None);
    assert_eq!(facts.len(), 9);
    for fact in &facts {
        assert!(!fact.value.is_empty(), "{:?} has no value", fact.label);
    }
}

#[test]
fn the_cap_is_the_budget_and_never_more_than_the_ceiling() {
    assert_eq!(poll_cap(15_000), 20);
    assert_eq!(poll_cap(900_000), 905);
    assert_eq!(poll_cap(u64::MAX), POLL_CAP);
}

#[test]
fn every_published_phase_has_a_word_and_a_newer_one_has_none() {
    for phase in [
        "calling",
        "binding",
        "awaiting_browser",
        "verifying",
        "reading_keychain",
        "downloading",
        "probing",
        "listing",
        "sidecar_downloading",
        "awaiting_sign_in",
    ] {
        let key = phase_word(phase).unwrap_or_else(|| panic!("{phase} has no word"));
        assert!(!copy::text(key).is_empty());
    }

    assert_eq!(phase_word("a_phase_from_the_future"), None);
}

fn job(id: &str, kind: JobKind, status: JobStatus) -> JobView {
    JobView {
        job_id: id.to_string(),
        kind,
        status,
        phase: None,
        progress: None,
        budget_ms: 15_000,
        started_at: "2026-08-19T12:00:00Z".to_string(),
        finished_at: None,
        result: None,
        failure: None,
    }
}

#[test]
fn reopening_finds_the_newest_run_of_its_kind() {
    let jobs = vec![
        job("a", JobKind::Auth, JobStatus::Completed),
        job("b", JobKind::PluginInstall, JobStatus::Running),
        job("c", JobKind::Auth, JobStatus::Running),
    ];
    assert_eq!(
        newest_of_kind(jobs.clone(), JobKind::Auth).map(|j| j.job_id),
        Some("c".to_string())
    );
    assert!(newest_of_kind(jobs, JobKind::MeetingsSignin).is_none());
}

#[test]
fn a_running_job_is_polled_and_a_finished_one_is_not() {
    let mut state = JobState::new();
    assert!(!state.is_terminal());
    assert!(state.adopt(job("a", JobKind::Auth, JobStatus::Running)));
    assert!(!state.is_terminal());
    state.read_landed(job("a", JobKind::Auth, JobStatus::Completed));
    assert!(state.is_terminal());
    assert!(!state.adopt(job("b", JobKind::Auth, JobStatus::Failed)));
}

#[test]
fn a_budget_past_the_u32_range_is_still_capped_at_the_ceiling() {
    assert_eq!(poll_cap(4_294_967_296_000), POLL_CAP);
    assert_eq!(POLL_CAP, 2_000);
}

#[test]
fn uptime_reads_its_words_as_gettext_answered_them() {
    assert_eq!(uptime_key(0), copy::Key::HomeUptimeJustStarted);
    assert_eq!(uptime_key(90_000), copy::Key::HomeUptimeMinutes);
    assert_eq!(uptime_key(3_720_000), copy::Key::HomeUptimeHoursMinutes);
    assert_eq!(uptime_key(183_600_000), copy::Key::HomeUptimeDaysHours);
    assert_eq!(uptime_in(0, "Just started"), "Just started");
    assert_eq!(uptime_in(90_000, "{minutes} min"), "1 min");
    assert_eq!(uptime_in(3_720_000, "{hours} h {minutes} min"), "1 h 2 min");
    assert_eq!(uptime_in(183_600_000, "{days} d {hours} h"), "2 d 3 h");
    assert_eq!(uptime_in(183_600_000, "{days} j {hours} h"), "2 j 3 h");
    assert_eq!(uptime_in(59_000, "Vient de démarrer"), "Vient de démarrer");
}

#[test]
fn a_fact_not_answered_and_one_answered_with_nothing_read_differently() {
    let english = FactWords {
        unavailable: "Unavailable".to_string(),
        none: "None".to_string(),
        uptime: String::new(),
    };
    let listed = facts_in(&State::default(), None, None, &english);
    assert_eq!(listed.len(), 9);
    for fact in &listed {
        assert_eq!(fact.value, "Unavailable", "{:?}", fact.label);
    }
    let read = facts(&State::default(), None, None);
    for fact in &read {
        assert_eq!(fact.value, "Unavailable", "{:?}", fact.label);
    }
    let french = FactWords {
        unavailable: "Indisponible".to_string(),
        none: "Aucun".to_string(),
        uptime: String::new(),
    };
    for fact in &facts_in(&State::default(), None, Some(3), &french)[..1] {
        assert_eq!(fact.value, "Indisponible");
    }
    assert_eq!(facts_in(&State::default(), None, Some(3), &french)[1].value, "3");
}

#[test]
fn a_finished_install_switches_the_feature_on_unless_it_failed() {
    let done = job("c", JobKind::CapabilityInstall, JobStatus::Completed);
    match install_finished(Some(&done)) {
        InstallFinish::SwitchOn { section, key, value } => {
            assert_eq!(section, "computer_use");
            assert_eq!(key, "computer_use_enabled");
            assert_eq!(value, SettingValue::Toggle(true));
        }
        other => panic!("expected the switch written on, got {other:?}"),
    }
    assert!(matches!(install_finished(None), InstallFinish::SwitchOn { .. }));
    let mut failed = job("c", JobKind::CapabilityInstall, JobStatus::Failed);
    failed.failure = Some(JobFailure {
        code: JobFailureCode::Refused,
        sentence: "The helper could not be installed.".to_string(),
    });
    match install_finished(Some(&failed)) {
        InstallFinish::Refuse(sentence) => assert_eq!(
            sentence,
            Sentence {
                code: None,
                text: "The helper could not be installed.".to_string(),
                reason: None
            }
        ),
        other => panic!("expected the failure kept, got {other:?}"),
    }
}
