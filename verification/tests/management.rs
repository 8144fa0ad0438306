use fermix_desktop::management::client::{
    call_step, decode_parsed, decode_response, CallStep, may_send, params_fit, published_minimum, wire_error_of, Envelope, Issued,
    ManagementClient,
};
use fermix_desktop::management::contract::{
    limits, method_minimum, methods, protocol_version, supported_range,
};
use fermix_desktop::management::errors::{FrameError, ManagementError, WireError};
use fermix_desktop::management::framing::{ceiling, decode, encode};
use fermix_desktop::management::health::{
    health_of, is_ok, line_is_in, request_for, status_line_of, Health, Origin,
};
use fermix_desktop::management::types::Json;

#[test]
fn the_window_is_read_from_the_schema() {
    let range = supported_range();
    assert!(range.min >= 1);
    assert!(range.max >= range.min);
    assert!(range.contains(protocol_version()));
}

#[test]
fn every_published_method_carries_a_minimum_inside_the_window() {
    let range = supported_range();
    let mut count = 0;
    for (method, minimum) in methods() {
        assert!(
            range.contains(minimum),
            "{method} declares a minimum outside the window"
        );
        count += 1;
    }
    assert!(count > 0, "the contract publishes no methods");
}

#[test]
fn hello_is_always_reachable_at_the_floor() {
    assert_eq!(method_minimum("hello"), Some(supported_range().min));
}

#[test]
fn an_unpublished_method_has_no_minimum() {
    assert_eq!(method_minimum("settings.invent"), None);
}

#[test]
fn the_frame_ceiling_is_the_published_one() {
    assert_eq!(limits().max_frame_bytes, 4_194_304);
}

#[test]
fn request_ids_are_unique_and_well_formed() {
    let mut client = ManagementClient::new("/nonexistent/daemon.sock");
    assert_eq!(client.next_request_id(), "fx-1");
    assert_eq!(client.next_request_id(), "fx-2");
}

#[test]
fn a_reset_moves_the_epoch_and_stales_an_issued_answer() {
    let mut client = ManagementClient::new("/nonexistent/daemon.sock");
    let issued = Issued {
        epoch: client.epoch(),
        value: 7,
    };

    client.reset();

    assert!(issued.accept(&client).is_none());
    assert_eq!(client.negotiated_version(), None);
}

#[test]
fn pointing_the_client_somewhere_else_is_a_new_connection() {
    let mut client = ManagementClient::unbound();
    let issued = Issued {
        epoch: client.epoch(),
        value: 7,
    };

    assert!(client.rebind("/nonexistent/two/daemon.sock"));
    assert_eq!(client.socket_path(), "/nonexistent/two/daemon.sock");
    assert!(
        issued.accept(&client).is_none(),
        "an answer from the socket it left cannot land on the one it moved to"
    );
}

#[test]
fn pointing_the_client_where_it_already_is_moves_nothing() {
    let mut client = ManagementClient::unbound();
    client.rebind("/nonexistent/one/daemon.sock");
    let before = client.epoch();

    assert!(!client.rebind("/nonexistent/one/daemon.sock"));
    assert_eq!(client.epoch(), before);
}

#[test]
fn a_client_given_its_socket_for_good_is_never_moved() {
    let mut client = ManagementClient::new("/nonexistent/fixture/daemon.sock");

    assert!(!client.rebind("/nonexistent/somewhere-else/daemon.sock"));
    assert_eq!(
        client.socket_path(),
        "/nonexistent/fixture/daemon.sock",
        "a development run against a fixture home stays pointed at it"
    );
}

#[test]
fn an_answer_from_the_current_epoch_is_accepted() {
    let client = ManagementClient::new("/nonexistent/daemon.sock");
    let issued = Issued {
        epoch: client.epoch(),
        value: 7,
    };
    assert_eq!(issued.accept(&client), Some(7));
}

fn wire(code: &str, message: &str, details: Vec<(&str, Json)>) -> WireError {
    let sentence = details.iter().find_map(|(name, value)| match (*name, value) {
        ("sentence", Json::Text(text)) => Some(text.clone()),
        _ => None,
    });
    WireError {
        code: code.to_string(),
        message: message.to_string(),
        sentence,
        details: details
            .into_iter()
            .map(|(name, value)| (name.to_string(), value))
            .collect(),
    }
}

#[test]
fn the_daemons_own_sentence_wins_when_it_has_one() {
    let error = wire(
        "invalid_params",
        "Request parameters are invalid.",
        vec![
            ("field", Json::Text("value".to_string())),
            ("sentence", Json::Text("A secret cannot be empty.".to_string())),
        ],
    );
    assert_eq!(error.rendered(), "A secret cannot be empty.");
    assert_eq!(error.detail("field"), Some("value"));
}

#[test]
fn the_class_sentence_is_what_is_left_when_it_does_not() {
    let error = wire("busy", "Another operation is running.", vec![]);
    assert_eq!(error.rendered(), "Another operation is running.");
    assert_eq!(error.detail("field"), None);
}

#[test]
fn an_integer_detail_decodes() {
    let error = wire(
        "method_not_found",
        "The method is not available.",
        vec![(
            "requires",
            Json::Number {
                unsigned: Some(2),
                written: "2".to_string(),
            },
        )],
    );
    assert_eq!(error.detail_u32("requires"), Some(2));
}

#[test]
fn a_frame_round_trips() {
    let body = br#"{"request_id":"fx-1"}"#.to_vec();
    let frame = encode(&body).expect("encodes");
    assert_eq!(decode(&frame).expect("reads"), body);
}

#[test]
fn an_oversized_body_is_refused_before_it_is_sent() {
    let body = vec![0u8; ceiling() + 1];
    match encode(&body) {
        Err(FrameError::TooLarge {
            declared,
            ceiling: limit,
        }) => {
            assert_eq!(declared, body.len());
            assert_eq!(limit, ceiling());
        }
        other => panic!("expected a refusal, got {other:?}"),
    }
}

#[test]
fn an_oversized_declared_length_is_refused_before_allocating() {
    let mut frame = (1_073_741_824u32).to_be_bytes().to_vec();
    frame.push(b'{');

    match decode(&frame) {
        Err(FrameError::TooLarge { declared, .. }) => assert_eq!(declared, 1_073_741_824),
        other => panic!("expected a refusal, got {other:?}"),
    }
}

#[test]
fn a_short_frame_is_truncated_not_silently_short() {
    let mut frame = (32u32).to_be_bytes().to_vec();
    frame.extend_from_slice(b"only eight");

    match decode(&frame) {
        Err(FrameError::Truncated { expected, read }) => {
            assert_eq!(expected, 32);
            assert_eq!(read, 10);
        }
        other => panic!("expected a truncation, got {other:?}"),
    }
}

#[test]
fn a_header_that_never_arrives_is_truncated() {
    match decode(&[0u8, 0u8]) {
        Err(FrameError::Truncated { expected, read }) => {
            assert_eq!(expected, 4);
            assert_eq!(read, 2);
        }
        other => panic!("expected a truncation, got {other:?}"),
    }
}

#[test]
fn writing_a_frame_puts_the_length_in_front_of_the_body() {
    assert_eq!(encode(b"hi").expect("encodes"), vec![0, 0, 0, 2, b'h', b'i']);
}

#[test]
fn a_frame_refusal_says_what_went_wrong() {
    assert_eq!(
        FrameError::Truncated {
            expected: 32,
            read: 10
        }
        .message(),
        "frame truncated: expected 32 bytes, read 10"
    );
    assert_eq!(
        FrameError::TooLarge {
            declared: 5,
            ceiling: 4
        }
        .message(),
        "frame declares 5 bytes, ceiling is 4"
    );
}

#[test]
fn an_origin_is_read_from_the_shape_the_daemon_publishes() {
    let origin = Origin::parse("http://127.0.0.1:4030").expect("parses");
    assert_eq!(origin.host, "127.0.0.1");
    assert_eq!(origin.port, 4030);
    assert_eq!(origin.authority(), "127.0.0.1:4030");
}

#[test]
fn an_origin_with_a_path_keeps_only_its_authority() {
    let origin = Origin::parse("http://localhost:4030/setup").expect("parses");
    assert_eq!(origin.host, "localhost");
    assert_eq!(origin.port, 4030);
}

#[test]
fn an_origin_this_door_cannot_speak_is_refused_rather_than_guessed_at() {
    assert_eq!(Origin::parse("https://127.0.0.1:4030"), None);
    assert_eq!(Origin::parse("http://127.0.0.1"), None);
    assert_eq!(Origin::parse("http://:4030"), None);
    assert_eq!(Origin::parse("http://127.0.0.1:not-a-port"), None);
}

#[test]
fn only_a_two_hundred_on_a_version_this_door_speaks_is_live() {
    assert!(is_ok("HTTP/1.0 200 OK"));
    assert!(is_ok("HTTP/1.1 200 OK"));
    assert!(!is_ok("HTTP/1.1 404 Not Found"));
    assert!(!is_ok("HTTP/1.1 500 Internal Server Error"));
    assert!(!is_ok("HTTP/2 200"));
    assert!(!is_ok(""));
}

#[test]
fn the_health_request_asks_one_question_and_closes() {
    let origin = Origin::parse("http://127.0.0.1:4030").expect("parses");
    assert_eq!(
        request_for(&origin),
        "GET /health/live HTTP/1.0\r\nHost: 127.0.0.1:4030\r\nConnection: close\r\n\r\n"
    );
    assert_eq!(health_of(Some("HTTP/1.1 200 OK".to_string())), Health::Live);
    assert_eq!(
        health_of(Some("HTTP/1.1 404 Not Found".to_string())),
        Health::Occupied("HTTP/1.1 404 Not Found".to_string())
    );
    assert_eq!(health_of(None), Health::Occupied(String::new()));
}

#[test]
fn a_method_the_contract_does_not_publish_says_so() {
    let error = ManagementError::MethodNotInContract {
        method: "settings.invent".to_string(),
    };
    assert!(error.message().contains("settings.invent"));
}

fn envelope(id: Option<&str>, error: Option<WireError>, result: Option<Json>) -> Envelope {
    Envelope {
        request_id: id.map(str::to_string),
        error,
        result,
    }
}

#[test]
fn a_frame_answering_a_different_request_is_discarded() {
    let answer = br#"{"request_id":"fx-99","result":{}}"#;
    match decode_response("fx-1", "hello", answer) {
        Err(ManagementError::NoAnswer { method }) => assert_eq!(method, "hello"),
        other => panic!("expected the frame to be discarded, got {other:?}"),
    }
}

#[test]
fn an_error_envelope_keeps_the_daemons_own_sentence() {
    let answer = br#"{"request_id":"fx-1","error":{"code":"invalid_params",
        "message":"Request parameters are invalid.",
        "details":{"field":"value","sentence":"A secret cannot be empty."}}}"#;

    match decode_response("fx-1", "secret.set", answer) {
        Err(ManagementError::Wire(error)) => {
            assert_eq!(error.code, "invalid_params");
            assert_eq!(error.rendered(), "A secret cannot be empty.");
            assert_eq!(
                error.details,
                vec![
                    ("field".to_string(), Json::Text("value".to_string())),
                    (
                        "sentence".to_string(),
                        Json::Text("A secret cannot be empty.".to_string())
                    ),
                ]
            );
        }
        other => panic!("expected a wire error, got {other:?}"),
    }
}

#[test]
fn a_response_with_neither_half_is_a_decode_failure() {
    let answer = br#"{"request_id":"fx-1"}"#;
    match decode_response("fx-1", "hello", answer) {
        Err(ManagementError::Decode { .. }) => {}
        other => panic!("expected a decode failure, got {other:?}"),
    }
}

#[test]
fn an_answered_result_is_read_into_the_librarys_terms() {
    assert_eq!(
        decode_response("fx-1", "overview.get", br#"{"request_id":"fx-1","result":{"b":1,"a":[true]}}"#),
        Ok(Json::Nested(r#"{"a":[true],"b":1}"#.to_string()))
    );
    assert_eq!(
        decode_response("fx-1", "hello", br#"{"request_id":"fx-1","result":"ok"}"#),
        Ok(Json::Text("ok".to_string()))
    );
    assert_eq!(
        decode_response("fx-1", "hello", br#"{"request_id":"fx-1","result":42}"#),
        Ok(Json::Number { unsigned: Some(42), written: "42".to_string() })
    );
    assert_eq!(
        decode_response("fx-1", "hello", br#"{"request_id":"fx-1","result":null}"#),
        Ok(Json::Null)
    );
    match decode_response("fx-1", "hello", b"not json") {
        Err(ManagementError::Decode { method, reason }) => {
            assert_eq!(method, "hello");
            assert!(reason.starts_with("expected"), "{reason}");
        }
        other => panic!("expected a decode failure, got {other:?}"),
    }
    match decode_response("fx-1", "hello", br#"{"result":{}}"#) {
        Err(ManagementError::NoAnswer { method }) => assert_eq!(method, "hello"),
        other => panic!("expected the frame to be discarded, got {other:?}"),
    }
}

#[test]
fn a_frame_that_does_not_parse_keeps_the_parsers_words() {
    assert_eq!(
        decode_parsed("fx-1", "hello", Err("expected value".to_string())),
        Err(ManagementError::Decode {
            method: "hello".to_string(),
            reason: "expected value".to_string()
        })
    );
    assert_eq!(
        decode_parsed(
            "fx-1",
            "hello",
            Ok(envelope(Some("fx-1"), None, Some(Json::Null)))
        ),
        Ok(Json::Null)
    );
    let error = wire_error_of(Some("busy".to_string()), None, Vec::new());
    assert!(matches!(
        decode_parsed("fx-1", "hello", Ok(envelope(Some("fx-1"), Some(error), None))),
        Err(ManagementError::Wire(_))
    ));
}

#[test]
fn a_method_is_refused_before_it_is_sent_when_this_session_cannot_carry_it() {
    assert_eq!(published_minimum("hello"), Ok(supported_range().min));
    assert!(matches!(
        published_minimum("settings.invent"),
        Err(ManagementError::MethodNotInContract { .. })
    ));
    assert_eq!(may_send("doctor.start", 2, 3), Ok(()));
    assert_eq!(
        may_send("doctor.start", 3, 2),
        Err(ManagementError::MethodNeedsNewerDaemon {
            method: "doctor.start".to_string(),
            required: 3,
            negotiated: 2
        })
    );
    assert_eq!(params_fit("secret.set", 1_048_576), Ok(()));
    assert_eq!(
        params_fit("secret.set", 1_048_577),
        Err(ManagementError::RequestTooLarge {
            method: "secret.set".to_string(),
            bytes: 1_048_577,
            ceiling: 1_048_576
        })
    );
}

#[test]
fn a_status_line_is_the_first_line_without_its_line_ending() {
    assert_eq!(
        status_line_of(b"HTTP/1.1 200 OK\r\nContent-Length: 2\r\n"),
        Some("HTTP/1.1 200 OK".to_string())
    );
    assert_eq!(status_line_of(b"HTTP/1.0 404"), Some("HTTP/1.0 404".to_string()));
    assert_eq!(status_line_of(b"\nHTTP/1.1 200 OK"), None);
    assert_eq!(status_line_of(b""), None);
    assert!(line_is_in(b"HTTP/1.1 200 OK\r\n"));
    assert!(!line_is_in(b"HTTP/1.1 200"));
    assert!(line_is_in(&vec![b'x'; 8192]));
}

#[test]
fn a_call_is_refused_and_negotiated_in_the_clients_own_order() {
    assert!(matches!(
        call_step("settings.invent", None, 10_000_000),
        Err(ManagementError::MethodNotInContract { .. })
    ));
    assert_eq!(call_step("doctor.start", None, 10_000_000), Ok(CallStep::Negotiate));
    assert_eq!(
        call_step("secret.migrate_to_keyring", Some(2), 10_000_000),
        Err(ManagementError::MethodNeedsNewerDaemon {
            method: "secret.migrate_to_keyring".to_string(),
            required: 3,
            negotiated: 2
        })
    );
    assert_eq!(
        call_step("secret.set", Some(3), 1_048_577),
        Err(ManagementError::RequestTooLarge {
            method: "secret.set".to_string(),
            bytes: 1_048_577,
            ceiling: 1_048_576
        })
    );
    assert_eq!(call_step("secret.set", Some(3), 1_048_576), Ok(CallStep::Send(3)));
    let client = ManagementClient::new("/nonexistent/daemon.sock");
    assert_eq!(client.next_step("hello", 2), Ok(CallStep::Negotiate));
}
