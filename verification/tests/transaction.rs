use fermix_desktop::copy::Key;
use fermix_desktop::management::errors::{ManagementError, TransportError};
use fermix_desktop::management::health::{Health, Origin};
use fermix_desktop::models::activation::{Outcome, Step, StepState};
use fermix_desktop::models::transaction::{Ask, Stage, Transaction};
use fermix_desktop::service::{Alignment, ServiceError, ServiceStatus, UnitStatus};

fn status() -> ServiceStatus {
    ServiceStatus {
        enabled: true,
        alignment: Alignment::Aligned,
        sub_state: Some("running".to_string()),
        restart_count: 0,
        unit: UnitStatus {
            foreign: false,
            effective_path: None,
        },
        path_source: "baseline".to_string(),
        foreign_distribution: None,
        answers_nothing: false,
        bound_home: Some("/home/me/.fermix".to_string()),
    }
}

fn rows(transaction: &Transaction) -> Vec<StepState> {
    transaction.steps.iter().map(|(_, state)| *state).collect()
}

#[test]
fn a_transaction_that_activates_marks_every_row_done() {
    let (mut transaction, first) = Transaction::begin();
    assert_eq!(first, Ask::ServiceStatus);
    assert_eq!(rows(&transaction), vec![StepState::Waiting; 5]);

    assert_eq!(
        transaction.preflight_answered(None, Some(&status())),
        Ask::Install
    );
    assert_eq!(
        rows(&transaction),
        vec![
            StepState::Working,
            StepState::Working,
            StepState::Working,
            StepState::Waiting,
            StepState::Waiting
        ]
    );

    assert_eq!(transaction.install_answered(Ok(()), "me"), Ask::Hello);
    let origin = Origin::parse("http://127.0.0.1:4030").expect("parses");
    assert_eq!(
        transaction.hello_answered(Ok("http://127.0.0.1:4030".to_string())),
        Ask::Probe {
            origin: origin.clone(),
            wait: false
        }
    );
    assert_eq!(
        transaction.probe_answered(origin.clone(), Health::Unreachable),
        Ask::Probe {
            origin: origin.clone(),
            wait: true
        }
    );
    assert_eq!(
        transaction.probe_answered(origin, Health::Live),
        Ask::ReadSetup
    );
    assert_eq!(
        transaction.setup_answered(Ok(())),
        Ask::Finish {
            outcome: Outcome::Activated,
            collect_evidence: false
        }
    );
    assert_eq!(transaction.stage, Stage::Over);
    assert_eq!(rows(&transaction), vec![StepState::Done; 5]);
}

#[test]
fn a_preflight_refusal_stops_before_anything_is_written_and_collects_nothing() {
    let (mut transaction, _) = Transaction::begin();
    let mut foreign = status();
    foreign.foreign_distribution = Some("fedora".to_string());

    match transaction.preflight_answered(None, Some(&foreign)) {
        Ask::Finish {
            outcome: Outcome::Refused(refusal),
            collect_evidence,
        } => {
            assert!(refusal.before_mutation);
            assert_eq!(refusal.title, Key::PreflightForeignDistributionTitle);
            assert_eq!(refusal.sentence.as_deref(), Some("fedora"));
            assert!(!collect_evidence);
        }
        other => panic!("expected a refusal, got {other:?}"),
    }
    assert_eq!(rows(&transaction), vec![StepState::Waiting; 5]);
}

#[test]
fn a_refused_install_fails_the_row_its_code_names() {
    let (mut transaction, _) = Transaction::begin();
    transaction.preflight_answered(None, None);
    let ask = transaction.install_answered(
        Err(ServiceError::Refused {
            code: "linger_denied".to_string(),
            sentence: "linger is not allowed".to_string(),
        }),
        "me",
    );
    match ask {
        Ask::Finish {
            outcome: Outcome::Refused(refusal),
            collect_evidence,
        } => {
            assert!(!refusal.before_mutation);
            assert!(collect_evidence);
            assert_eq!(refusal.sentence.as_deref(), Some("linger is not allowed"));
        }
        other => panic!("expected a refusal, got {other:?}"),
    }
    let linger = transaction
        .steps
        .iter()
        .find(|(step, _)| *step == Step::EnableLinger)
        .map(|(_, state)| *state);
    assert_eq!(linger, Some(StepState::Failed));
}

#[test]
fn a_negotiation_that_fails_asks_whether_the_unit_keeps_dying() {
    let (mut transaction, _) = Transaction::begin();
    transaction.preflight_answered(None, None);
    transaction.install_answered(Ok(()), "me");
    assert_eq!(
        transaction.hello_answered(Err(ManagementError::Transport(TransportError::NotRunning))),
        Ask::UnitHealth
    );
    let mut dying = status();
    dying.sub_state = Some("auto-restart".to_string());
    match transaction.unit_health_answered(Some(&dying)) {
        Ask::Finish {
            outcome: Outcome::Refused(refusal),
            ..
        } => assert_eq!(refusal.title, Key::ActivationCrashLoopTitle),
        other => panic!("expected a crash loop, got {other:?}"),
    }
}

#[test]
fn a_web_door_held_by_something_else_is_said_when_the_budget_runs_out() {
    let (mut transaction, _) = Transaction::begin();
    transaction.preflight_answered(None, None);
    transaction.install_answered(Ok(()), "me");
    let origin = Origin::parse("http://127.0.0.1:4030").expect("parses");
    transaction.hello_answered(Ok("http://127.0.0.1:4030".to_string()));
    transaction.probe_answered(
        origin,
        Health::Occupied("HTTP/1.1 404 Not Found".to_string()),
    );
    match transaction.budget_spent() {
        Ask::Finish {
            outcome: Outcome::Refused(refusal),
            ..
        } => {
            assert_eq!(refusal.title, Key::ActivationBindFailureTitle);
            assert_eq!(refusal.sentence.as_deref(), Some("HTTP/1.1 404 Not Found"));
        }
        other => panic!("expected a bind failure, got {other:?}"),
    }
}

#[test]
fn an_origin_this_door_cannot_read_stops_the_transaction() {
    let (mut transaction, _) = Transaction::begin();
    transaction.preflight_answered(None, None);
    transaction.install_answered(Ok(()), "me");
    match transaction.hello_answered(Ok("https://127.0.0.1:4030".to_string())) {
        Ask::Finish {
            outcome: Outcome::Refused(refusal),
            ..
        } => assert_eq!(refusal.sentence.as_deref(), Some("https://127.0.0.1:4030")),
        other => panic!("expected a refusal, got {other:?}"),
    }
}
