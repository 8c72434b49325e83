use real_estate_tracker::error::BridgeError;
use real_estate_tracker::executor::ProcessOutcome;
use real_estate_tracker::output::{
    accept_decoded, as_raw_text, candidate_lines, cli_output_at, decode_first, decode_next,
    extract_structured, extract_with_diagnostics, parse_cli_output, timestamp_of, ParsedPayload,
};
use real_estate_tracker::python::execute_python_json_command;
use serde_json::{Number, Value};

fn words(tokens: &[&str]) -> Vec<String> {
    tokens.iter().map(|t| t.to_string()).collect()
}

fn kitchen() -> Value {
    let mut object = serde_json::Map::new();
    object.insert("id".to_string(), Value::Number(Number::from(7)));
    object.insert("name".to_string(), Value::String("Kitchen".to_string()));
    Value::Object(object)
}

#[test]
fn structured_line_is_decoded_and_surrounding_lines_are_ignored() {
    let stdout = "Loaded 3 records\n{\"id\":7,\"name\":\"Kitchen\"}\nDone";
    assert_eq!(extract_structured(stdout), ParsedPayload::Structured(kitchen()));
}

#[test]
fn text_without_candidate_lines_fails_with_the_exact_text() {
    for stdout in ["", "\n", "Loaded 3 records\nDone\n", "id: 7 {\"a\":1}", "  \r\n\t", "(1, 2)\n<x>"] {
        assert_eq!(extract_structured(stdout), ParsedPayload::ParseFailed(stdout.to_string()));
        assert!(candidate_lines(stdout).is_empty());
    }
}

#[test]
fn lines_that_look_like_json_and_do_not_decode_are_passed_over() {
    let stdout = "{not json}\n[1, 2,\n  {\"id\":7,\"name\":\"Kitchen\"}  \r\n[3]";
    assert_eq!(
        candidate_lines(stdout),
        words(&["{not json}", "[1, 2,", "{\"id\":7,\"name\":\"Kitchen\"}", "[3]"])
    );
    assert_eq!(extract_structured(stdout), ParsedPayload::Structured(kitchen()));
}

#[test]
fn first_decodable_line_wins() {
    let stdout = "[1]\n{\"id\":7,\"name\":\"Kitchen\"}";
    let expected = Value::Array(vec![Value::Number(Number::from(1))]);
    assert_eq!(extract_structured(stdout), ParsedPayload::Structured(expected));
}

#[test]
fn candidates_that_never_decode_fail_with_the_whole_text() {
    let stdout = "{\"open\": \n[1,]\n{} trailing\n";
    assert_eq!(candidate_lines(stdout).len(), 3);
    assert_eq!(extract_structured(stdout), ParsedPayload::ParseFailed(stdout.to_string()));
}

#[test]
fn candidates_are_trimmed_by_unicode_whitespace() {
    let stdout = "\u{00a0}\u{3000}{\"a\":null}\u{2028}\n\u{feff}[1]\nx {}\n";
    assert_eq!(candidate_lines(stdout), words(&["{\"a\":null}"]));
    let mut object = serde_json::Map::new();
    object.insert("a".to_string(), Value::Null);
    assert_eq!(extract_structured(stdout), ParsedPayload::Structured(Value::Object(object)));
}

#[test]
fn decode_first_and_accept_decoded_follow_the_decoder() {
    assert_eq!(decode_first(&words(&["nope", "7", "8"])), Some(Value::Number(Number::from(7))));
    assert_eq!(decode_first(&words(&["nope", "{"])), None);
    assert_eq!(decode_first(&vec![]), None);
    assert_eq!(accept_decoded(serde_json::from_str::<Value>("true")), Some(Value::Bool(true)));
    assert_eq!(accept_decoded(serde_json::from_str::<Value>("tru")), None);
}

#[test]
fn raw_text_is_handed_through_unchanged() {
    let text = "  Project 'Lakehouse'\n\tbudget: 250000 \n";
    assert_eq!(as_raw_text(text), ParsedPayload::RawText(text.to_string()));
}

#[test]
fn structured_conclusion_of_a_successful_run() {
    let outcome = ProcessOutcome::Exited {
        exit_code: Some(0),
        stdout: "Loaded 3 records\n{\"id\":7,\"name\":\"Kitchen\"}\nDone".to_string(),
        stderr: "deprecation warning".to_string(),
    };
    assert_eq!(execute_python_json_command(outcome), (Ok(kitchen()), vec![]));
}

#[test]
fn structured_conclusion_fails_on_nonzero_exit_whatever_stdout_holds() {
    let outcome = ProcessOutcome::Exited {
        exit_code: Some(2),
        stdout: "{bad}\n{\"id\":7,\"name\":\"Kitchen\"}".to_string(),
        stderr: "boom".to_string(),
    };
    assert_eq!(
        execute_python_json_command(outcome),
        (
            Err(BridgeError::ProcessExecutionFailure {
                exit_code: Some(2),
                stderr: "boom".to_string(),
            }),
            vec![]
        )
    );
    let killed = ProcessOutcome::Exited {
        exit_code: None,
        stdout: "[1]".to_string(),
        stderr: "".to_string(),
    };
    assert_eq!(
        execute_python_json_command(killed).0,
        Err(BridgeError::ProcessExecutionFailure { exit_code: None, stderr: "".to_string() })
    );
}

#[test]
fn structured_conclusion_reports_parse_and_launch_failures() {
    let outcome = ProcessOutcome::Exited {
        exit_code: Some(0),
        stdout: "All good\n".to_string(),
        stderr: "".to_string(),
    };
    let error = execute_python_json_command(outcome).0.expect_err("no line decodes");
    assert_eq!(error, BridgeError::OutputParseFailure { raw: "All good\n".to_string() });
    assert_eq!(error.message(), "No valid JSON found in Python output: All good\n");
    assert_eq!(
        execute_python_json_command(ProcessOutcome::LaunchFailed { reason: "denied".to_string() }),
        (Err(BridgeError::ProcessLaunchFailure { reason: "denied".to_string() }), vec![])
    );
}

#[test]
fn lines_that_were_tried_in_vain_are_handed_out() {
    let stdout = "note\n{not json}\n [1, 2,\n{\"id\":7,\"name\":\"Kitchen\"}\n{later}\n[3]";
    assert_eq!(
        extract_with_diagnostics(stdout),
        (ParsedPayload::Structured(kitchen()), words(&["{not json}", "[1, 2,"]))
    );
    let outcome = ProcessOutcome::Exited {
        exit_code: Some(0),
        stdout: stdout.to_string(),
        stderr: String::new(),
    };
    assert_eq!(
        execute_python_json_command(outcome),
        (Ok(kitchen()), words(&["{not json}", "[1, 2,"]))
    );
    let hopeless = "{a\nplain\n[b";
    assert_eq!(
        extract_with_diagnostics(hopeless),
        (ParsedPayload::ParseFailed(hopeless.to_string()), words(&["{a", "[b"]))
    );
    let failed = ProcessOutcome::Exited {
        exit_code: Some(0),
        stdout: hopeless.to_string(),
        stderr: String::new(),
    };
    assert_eq!(
        execute_python_json_command(failed),
        (
            Err(BridgeError::OutputParseFailure { raw: hopeless.to_string() }),
            words(&["{a", "[b"])
        )
    );
    assert_eq!(extract_with_diagnostics("[1]").1, Vec::<String>::new());
    assert_eq!(extract_with_diagnostics("").1, Vec::<String>::new());
}

#[test]
fn decode_next_goes_on_from_a_position() {
    let candidates = words(&["{x", "[1]", "[", "{}", "]"]);
    assert_eq!(decode_next(&candidates, 0), Some((1, Value::Array(vec![Value::Number(Number::from(1))]))));
    assert_eq!(decode_next(&candidates, 1), decode_next(&candidates, 0));
    assert_eq!(decode_next(&candidates, 2), Some((3, Value::Object(serde_json::Map::new()))));
    assert_eq!(decode_next(&candidates, 4), None);
    assert_eq!(decode_next(&candidates, 5), None);
    assert_eq!(decode_next(&candidates, 99), None);
    assert_eq!(decode_next(&vec![], 0), None);
}

#[test]
fn cli_output_is_trimmed_and_stamped() {
    let wrapped = cli_output_at("\n  3 projects \n", Some((1714557600, 0)));
    assert!(wrapped.success);
    assert_eq!(wrapped.output, "3 projects");
    assert_eq!(wrapped.timestamp, Some("2024-05-01T10:00:00+00:00".to_string()));
    assert_eq!(cli_output_at("x", None).timestamp, None);
}

#[test]
fn stamps_are_rfc3339_in_utc() {
    assert_eq!(timestamp_of(Some((0, 0))), Some("1970-01-01T00:00:00+00:00".to_string()));
    assert_eq!(
        timestamp_of(Some((1714557600, 123_000_000))),
        Some("2024-05-01T10:00:00.123+00:00".to_string())
    );
    assert_eq!(
        timestamp_of(Some((1714557600, 123_456_789))),
        Some("2024-05-01T10:00:00.123456789+00:00".to_string())
    );
    assert_eq!(timestamp_of(None), None);
    assert_eq!(timestamp_of(Some((u64::MAX, 0))), None);
    assert_eq!(timestamp_of(Some((9223372036854775807, 0))), None);
    assert_eq!(timestamp_of(Some((9223372036854775808, 0))), None);
    assert_eq!(timestamp_of(Some((0, 2_000_000_000))), None);
}

#[test]
fn parse_cli_output_stamps_with_a_current_rfc3339_time() {
    let before = chrono::Utc::now();
    let wrapped = parse_cli_output("  done\r\n");
    let after = chrono::Utc::now();
    assert!(wrapped.success);
    assert_eq!(wrapped.output, "done");
    let text = wrapped.timestamp.expect("a clock after 1970");
    let stamp = chrono::DateTime::parse_from_rfc3339(&text).expect("an RFC 3339 time");
    assert_eq!(stamp.offset().local_minus_utc(), 0);
    assert!(before <= stamp && stamp <= after);
}
