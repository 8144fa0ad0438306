use fermix_desktop::copy::Key;
use fermix_desktop::management::types::SettingValue;
use fermix_desktop::models::activation::StepState;
use fermix_desktop::models::onboarding::{
    account_name, applying_steps, first_of, Answers, ApplyStep, Leading, Stage, ASSISTANT_KEY,
    NAME_KEY,
};

#[test]
fn the_four_dots_are_the_four_steps_and_the_ladders_inherit_theirs() {
    assert_eq!(Stage::Welcome.progress(), Some(0));
    assert_eq!(Stage::Starting.progress(), Some(0));
    assert_eq!(Stage::ConnectAi.progress(), Some(1));
    assert_eq!(Stage::AboutYou.progress(), Some(2));
    assert_eq!(Stage::Applying.progress(), Some(2));
    assert_eq!(Stage::Ready.progress(), Some(3));
    assert_eq!(Stage::BootFailed.progress(), None);
}

#[test]
fn the_mechanical_screens_draw_no_dots_over_their_own_ladder() {
    assert!(Stage::Welcome.draws_progress());
    assert!(Stage::ConnectAi.draws_progress());
    assert!(Stage::AboutYou.draws_progress());
    assert!(Stage::Ready.draws_progress());
    assert!(!Stage::Starting.draws_progress());
    assert!(!Stage::Applying.draws_progress());
    assert!(!Stage::BootFailed.draws_progress());
}

#[test]
fn escape_reaches_every_leading_control_but_the_one_that_stops_a_transaction() {
    assert!(Leading::Back.answers_escape());
    assert!(Leading::Leave(Key::ActionBack).answers_escape());
    assert!(!Leading::Cancel.answers_escape());
}

#[test]
fn one_write_carries_all_four_answers() {
    let answers = Answers {
        name: "Ada".into(),
        timezone: "Europe/London".into(),
        style: "Answer in as few words as the question allows.".into(),
        assistant: "Fermix".into(),
    };

    let values = answers.values();
    assert_eq!(values.len(), 4);
    let get = |key: &str| {
        values
            .iter()
            .find(|(name, _)| name == key)
            .map(|(_, value)| value.clone())
    };
    assert_eq!(get(NAME_KEY), Some(SettingValue::Text("Ada".to_string())));
    assert_eq!(
        get(ASSISTANT_KEY),
        Some(SettingValue::Text("Fermix".to_string()))
    );
}

#[test]
fn the_ladder_is_the_steps_this_run_takes_and_no_others() {
    assert_eq!(
        applying_steps(true, false),
        vec![(ApplyStep::Save, StepState::Waiting)]
    );
    assert_eq!(
        applying_steps(false, true),
        vec![(ApplyStep::Restart, StepState::Waiting)]
    );
    assert_eq!(applying_steps(true, true).len(), 2);
    assert_eq!(applying_steps(true, true)[1].0, ApplyStep::Restart);
    assert!(applying_steps(false, false).is_empty());
}

#[test]
fn an_answer_the_daemon_already_holds_wins_over_this_computers_own() {
    assert_eq!(first_of("Ada".into(), "ada".into()), "Ada");
    assert_eq!(first_of(String::new(), "ada".into()), "ada");
}

#[test]
fn an_account_is_named_by_its_real_name_before_its_login() {
    assert_eq!(account_name("Ada Lovelace".into(), "ada".into()), "Ada Lovelace");
    assert_eq!(account_name(String::new(), "ada".into()), "ada");
}
