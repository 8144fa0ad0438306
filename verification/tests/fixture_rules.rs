use fermix_desktop::fixtures::{
    body_lines, golden_record, lay_over, read_goldens, parse_goldens, parse_refusals, parse_with_sequences, refusal_record,
    scenario_record, LineRecord, ResponsesRead, ScenarioRecord, answer_plan, is_scenario, record_kind, AnswerPlan, RecordKind, ResponsesMember, is_silent, lookup_key, scenario_names, section_of_key, sequence_step,
    silent_scenarios, version_verdict, VersionVerdict,
};

#[test]
fn a_scenario_that_does_not_exist_is_refused_rather_than_defaulted() {
    assert!(!is_scenario("no_such_scenario"));
    assert!(is_scenario("default"));
    assert!(is_scenario("secret_store_file"));
    assert_eq!(scenario_names().len(), 27);
}

#[test]
fn nothing_answers_in_the_two_silent_scenarios() {
    assert!(is_silent("not_running"));
    assert!(is_silent("onboarding_welcome"));
    assert!(!is_silent("default"));
    for name in silent_scenarios() {
        assert!(is_scenario(name));
    }
}

#[test]
fn a_settings_section_is_keyed_by_its_own_name() {
    assert_eq!(lookup_key("settings.get", Some("memory")), "settings.get:memory");
    assert_eq!(lookup_key("overview.get", Some("memory")), "overview.get");
    assert_eq!(lookup_key("settings.get", None), "settings.get");
    assert_eq!(section_of_key("settings.get:sandbox"), Some("sandbox".to_string()));
    assert_eq!(section_of_key("overview.get"), None);
}

#[test]
fn a_version_outside_the_window_meets_the_published_refusal() {
    assert_eq!(version_verdict(4), VersionVerdict::DaemonTooOld);
    assert_eq!(version_verdict(1), VersionVerdict::ClientTooOld);
    assert_eq!(version_verdict(2), VersionVerdict::Answer);
    assert_eq!(version_verdict(3), VersionVerdict::Answer);
}

#[test]
fn a_sequence_holds_on_its_last_record() {
    assert_eq!(sequence_step(0, 3), (Some(0), 1));
    assert_eq!(sequence_step(2, 3), (Some(2), 3));
    assert_eq!(sequence_step(3, 3), (Some(2), 3));
    assert_eq!(sequence_step(0, 0), (None, 0));
}

#[test]
fn a_method_with_no_golden_is_refused_rather_than_invented() {
    assert_eq!(answer_plan(3, false, false), AnswerPlan::Refuse("method_not_found"));
    assert_eq!(answer_plan(3, false, true), AnswerPlan::Stored);
    assert_eq!(answer_plan(3, true, true), AnswerPlan::NextInSequence);
    assert_eq!(answer_plan(9, true, true), AnswerPlan::Refuse("daemon_too_old"));
    assert_eq!(answer_plan(0, true, true), AnswerPlan::Refuse("client_too_old"));
}

#[test]
fn a_record_is_a_sequence_a_single_answer_or_refused_by_its_number() {
    assert_eq!(
        record_kind(0, true, ResponsesMember::List, false),
        Ok(RecordKind::Sequence)
    );
    assert_eq!(
        record_kind(0, true, ResponsesMember::Absent, true),
        Ok(RecordKind::Single)
    );
    assert_eq!(
        record_kind(2, false, ResponsesMember::Absent, true),
        Err("record 3 carries no method".to_string())
    );
    assert_eq!(
        record_kind(0, true, ResponsesMember::Other, true),
        Err("record 1 carries a responses that is not a list".to_string())
    );
    assert_eq!(
        record_kind(4, true, ResponsesMember::Absent, false),
        Err("record 5 carries no response".to_string())
    );
}

#[test]
fn a_body_is_cut_at_each_line_feed() {
    assert_eq!(body_lines("a\nb\r\n\nc"), vec!["a", "b\r", "", "c"]);
    assert_eq!(body_lines("a\n"), vec!["a", ""]);
    assert_eq!(body_lines(""), vec![""]);
}

#[test]
fn a_scenario_lays_single_records_and_sequences_over_the_goldens() {
    let body = "{\"method\":\"overview.get\",\"response\":{\"result\":{\"b\":1,\"a\":2}}}\n\n   \n{\"method\":\"settings.get\",\"response\":{\"result\":{\"id\":\"voice\"}}}\n{\"method\":\"job.get\",\"responses\":[{\"result\":1},{\"result\":2}]}\n";
    let (replaced, sequences) = parse_with_sequences(body).expect("parses");
    assert_eq!(
        replaced,
        vec![
            (
                "overview.get".to_string(),
                "{\"result\":{\"a\":2,\"b\":1}}".to_string()
            ),
            (
                "settings.get:voice".to_string(),
                "{\"result\":{\"id\":\"voice\"}}".to_string()
            ),
        ]
    );
    assert_eq!(
        sequences,
        vec![(
            "job.get".to_string(),
            vec!["{\"result\":1}".to_string(), "{\"result\":2}".to_string()]
        )]
    );
}

#[test]
fn a_refused_record_names_its_line() {
    assert_eq!(
        parse_with_sequences("\n{\"response\":{}}\n"),
        Err("record 2 carries no method".to_string())
    );
    assert_eq!(
        parse_with_sequences("{\"method\":\"job.get\",\"responses\":{}}"),
        Err("record 1 carries a responses that is not a list".to_string())
    );
    assert_eq!(
        parse_with_sequences("{\"method\":\"job.get\"}"),
        Err("record 1 carries no response".to_string())
    );
    let refused = parse_with_sequences("\n\n{not json").expect_err("refused");
    assert!(refused.starts_with("record 3 does not parse: "), "{refused}");
}

#[test]
fn the_goldens_take_one_response_per_record_and_ignore_a_sequence() {
    assert_eq!(
        parse_goldens("{\"method\":\"hello\",\"response\":{\"result\":{}},\"responses\":[]}\n"),
        Ok(vec![("hello".to_string(), "{\"result\":{}}".to_string())])
    );
    assert_eq!(
        parse_goldens("{\"method\":\"hello\",\"responses\":[]}"),
        Err("record 1 carries no response".to_string())
    );
}

#[test]
fn the_first_refusal_of_a_code_is_the_one_that_answers() {
    let body = "{\"code\":\"method_not_found\",\"response\":{\"error\":1}}\n{\"code\":\"busy\",\"response\":{\"error\":2}}\n{\"code\":\"method_not_found\",\"response\":{\"error\":3}}\n";
    assert_eq!(
        parse_refusals(body),
        Ok(vec![
            ("method_not_found".to_string(), "{\"error\":1}".to_string()),
            ("busy".to_string(), "{\"error\":2}".to_string()),
        ])
    );
    assert_eq!(
        parse_refusals("{\"response\":{}}"),
        Err("error record 1 carries no code".to_string())
    );
    assert_eq!(
        parse_refusals("{\"code\":\"busy\"}"),
        Err("error record 1 carries no response".to_string())
    );
}

fn read(method: Option<&str>, responses: ResponsesRead, response: Option<&str>, section: Option<&str>) -> LineRecord {
    LineRecord {
        method: method.map(str::to_string),
        code: None,
        responses,
        response: response.map(str::to_string),
        section: section.map(str::to_string),
    }
}

#[test]
fn one_read_record_lays_itself_over_the_goldens() {
    match scenario_record(0, Ok(read(Some("settings.get"), ResponsesRead::Absent, Some("{}"), Some("voice")))) {
        Ok(ScenarioRecord::Replace { key, text }) => {
            assert_eq!(key, "settings.get:voice");
            assert_eq!(text, "{}");
        }
        _ => panic!("expected a replacement"),
    }
    match scenario_record(
        4,
        Ok(read(Some("job.get"), ResponsesRead::List(vec!["1".to_string()]), Some("{}"), None)),
    ) {
        Ok(ScenarioRecord::Sequence { method, records }) => {
            assert_eq!(method, "job.get");
            assert_eq!(records, vec!["1".to_string()]);
        }
        _ => panic!("expected a sequence"),
    }
    assert!(matches!(
        scenario_record(6, Err("EOF while parsing".to_string())),
        Err(words) if words == "record 7 does not parse: EOF while parsing"
    ));
    assert!(matches!(
        scenario_record(0, Ok(read(None, ResponsesRead::Absent, Some("{}"), None))),
        Err(words) if words == "record 1 carries no method"
    ));
    assert_eq!(
        golden_record(1, Ok(read(Some("hello"), ResponsesRead::Other, Some("{}"), Some("voice")))),
        Ok(("hello".to_string(), "{}".to_string()))
    );
    assert_eq!(
        golden_record(1, Ok(read(Some("hello"), ResponsesRead::Absent, None, None))),
        Err("record 2 carries no response".to_string())
    );
    let mut refusal = read(None, ResponsesRead::Absent, Some("{\"error\":1}"), None);
    refusal.code = Some("busy".to_string());
    assert_eq!(
        refusal_record(2, Ok(refusal)),
        Ok(("busy".to_string(), "{\"error\":1}".to_string()))
    );
    assert_eq!(
        refusal_record(2, Ok(read(None, ResponsesRead::Absent, Some("{}"), None))),
        Err("error record 3 carries no code".to_string())
    );
}

#[test]
fn a_later_record_under_the_same_key_stands_over_an_earlier_one() {
    let body = "{\"method\":\"hello\",\"response\":1}\n{\"method\":\"job.get\",\"responses\":[1]}\n{\"method\":\"overview.get\",\"response\":2}\n{\"method\":\"hello\",\"response\":3}\n{\"method\":\"job.get\",\"responses\":[4]}\n";
    let (replaced, sequences) = parse_with_sequences(body).expect("parses");
    assert_eq!(
        replaced,
        vec![
            ("hello".to_string(), "3".to_string()),
            ("overview.get".to_string(), "2".to_string()),
        ]
    );
    assert_eq!(sequences, vec![("job.get".to_string(), vec!["4".to_string()])]);
    assert_eq!(
        parse_goldens("{\"method\":\"hello\",\"response\":1}\n{\"method\":\"hello\",\"response\":2}"),
        Ok(vec![("hello".to_string(), "2".to_string())])
    );
    let pair = |k: &str, v: &str| (k.to_string(), v.to_string());
    assert_eq!(
        lay_over(vec![pair("a", "1"), pair("b", "2")], &vec![pair("b", "9"), pair("c", "3")]),
        vec![pair("a", "1"), pair("b", "9"), pair("c", "3")]
    );
}

#[test]
fn the_goldens_are_read_in_order_and_the_scenario_laid_over_them() {
    let success = "{\"method\":\"hello\",\"response\":1}\n{\"method\":\"overview.get\",\"response\":2}";
    let overrides = "{\"method\":\"overview.get\",\"response\":5}\n{\"method\":\"job.get\",\"responses\":[6]}";
    let errors = "{\"code\":\"busy\",\"response\":7}";
    let read = read_goldens(success, overrides, errors).expect("reads");
    assert_eq!(
        read.responses,
        vec![
            ("hello".to_string(), "1".to_string()),
            ("overview.get".to_string(), "5".to_string()),
        ]
    );
    assert_eq!(read.sequences, vec![("job.get".to_string(), vec!["6".to_string()])]);
    assert_eq!(read.refusals, vec![("busy".to_string(), "7".to_string())]);
    assert_eq!(
        read_goldens("{\"response\":1}", "{not json", "{not json").err(),
        Some("record 1 carries no method".to_string())
    );
    assert_eq!(
        read_goldens(success, "{\"response\":1}", "{not json").err(),
        Some("record 1 carries no method".to_string())
    );
    assert!(read_goldens(success, overrides, "{\"response\":1}")
        .err()
        .expect("refused")
        .starts_with("error record 1"));
}
