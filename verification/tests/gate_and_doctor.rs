use fermix_desktop::copy;
use fermix_desktop::management::types::{
    CheckStatus, DoctorApplicability, DoctorCategory, DoctorCheck, DoctorSeverity, Json,
};
use fermix_desktop::models::api::{Gate, Permit, MAX_CONCURRENT_READS, MAX_QUEUED};
use fermix_desktop::models::doctor::{
    evidence_lines, name_of, poll_cap, status_pill, status_word, CheckName, POLL_CAP,
};

#[test]
fn a_fifth_concurrent_read_is_coalesced_away() {
    let mut gate = Gate::new();
    let held: Vec<Permit> = (0..MAX_CONCURRENT_READS)
        .map(|_| gate.read().expect("a read permit"))
        .collect();

    assert!(gate.read().is_none());
    for permit in held {
        gate.release(permit);
    }
    assert!(gate.read().is_some());
}

#[test]
fn a_permit_gives_its_count_back_when_it_is_dropped() {
    let mut gate = Gate::new();
    let permit = gate.read().expect("a read permit");
    assert_eq!(gate.outstanding(), 1);
    gate.release(permit);
    assert_eq!(gate.outstanding(), 0);
}

#[test]
fn only_one_lifecycle_mutation_runs_at_a_time() {
    let mut gate = Gate::new();
    let held = gate.lifecycle().expect("a lifecycle permit");

    assert!(gate.lifecycle().is_none());
    gate.release(held);
    assert!(gate.lifecycle().is_some());
}

#[test]
fn work_past_the_queue_ceiling_is_refused_rather_than_discarded() {
    let mut gate = Gate::new();
    let held: Vec<Permit> = (0..MAX_QUEUED)
        .map(|_| gate.write().expect("a write permit"))
        .collect();

    assert!(gate.write().is_none());
    assert!(gate.read().is_none());
    for permit in held {
        gate.release(permit);
    }
    assert!(gate.write().is_some());
}

#[test]
fn the_cap_follows_the_daemons_own_budget_and_never_passes_the_ceiling() {
    assert_eq!(poll_cap(10_000), 40);
    assert_eq!(poll_cap(30_000), 80);
    assert_eq!(poll_cap(u64::MAX), POLL_CAP);
}

#[test]
fn every_published_status_has_a_word_and_a_pill() {
    for status in [
        CheckStatus::Passed,
        CheckStatus::Warning,
        CheckStatus::Failed,
        CheckStatus::NotApplicable,
        CheckStatus::Unavailable,
        CheckStatus::Skipped,
        CheckStatus::Cancelled,
        CheckStatus::TimedOut,
    ] {
        assert!(!copy::text(status_word(status)).is_empty());
        assert_eq!(
            copy::text(status_pill(status)).chars().count(),
            1,
            "a pill is one letter"
        );
    }
}

fn check(id: &str, status: CheckStatus, evidence: Vec<(&str, Json)>) -> DoctorCheck {
    DoctorCheck {
        id: id.to_string(),
        category: DoctorCategory::Runtime,
        severity: DoctorSeverity::Critical,
        applicability: DoctorApplicability::Always,
        origin: "engine".to_string(),
        status,
        summary: "a summary".to_string(),
        evidence: evidence
            .into_iter()
            .map(|(key, value)| (key.to_string(), value))
            .collect(),
        remediation_code: None,
        duration_ms: 11,
        finished_at: "2026-08-19T12:00:00Z".to_string(),
        remediation: None,
    }
}

#[test]
fn a_check_is_named_by_the_daemon_where_the_daemon_named_it() {
    let check = check(
        "daemon_socket",
        CheckStatus::Warning,
        vec![
            ("source_name", Json::Text("daemon socket".to_string())),
            ("source_status", Json::Text("warn".to_string())),
        ],
    );

    assert_eq!(name_of(&check), CheckName::Words("daemon socket".into()));
    assert_eq!(
        evidence_lines(&check.evidence),
        vec![
            ("source_name".to_string(), "daemon socket".to_string()),
            ("source_status".to_string(), "warn".to_string()),
        ]
    );
}

#[test]
fn a_check_with_no_published_name_leads_with_its_identifier() {
    let check = check("home_permissions", CheckStatus::Passed, vec![]);

    assert_eq!(
        name_of(&check),
        CheckName::Identifier("home_permissions".into())
    );
}

#[test]
fn a_blank_published_name_is_no_name_and_a_nested_value_keeps_its_shape() {
    let check = check(
        "x",
        CheckStatus::Passed,
        vec![
            ("source_name", Json::Text("   ".to_string())),
            ("counts", Json::Nested("{\"a\":1}".to_string())),
            ("absent", Json::Null),
        ],
    );
    assert_eq!(name_of(&check), CheckName::Identifier("x".into()));
    assert_eq!(
        evidence_lines(&check.evidence),
        vec![
            ("source_name".to_string(), "   ".to_string()),
            ("counts".to_string(), "{\"a\":1}".to_string()),
            ("absent".to_string(), String::new()),
        ]
    );
}
