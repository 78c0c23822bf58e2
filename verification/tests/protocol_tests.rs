use neatflix_mpvrs::protocol::{
    build_request_line, find_response, parse_json_bool, parse_line, parse_ms, response_result,
    JsonArg,
};

#[test]
fn request_line_for_get_property() {
    let args = vec![
        JsonArg::Str(String::from("get_property")),
        JsonArg::Str(String::from("time-pos")),
    ];
    let line = build_request_line(&args, 7);
    assert_eq!(line, "{\"command\":[\"get_property\",\"time-pos\"],\"request_id\":7}\n");
}

#[test]
fn request_line_with_no_args() {
    let args: Vec<JsonArg> = vec![JsonArg::Str(String::from("quit"))];
    let line = build_request_line(&args, 1);
    assert_eq!(line, "{\"command\":[\"quit\"],\"request_id\":1}\n");
}

#[test]
fn request_line_escapes_strings() {
    let args = vec![JsonArg::Str(String::from("say \"hi\"\n"))];
    let line = build_request_line(&args, 2);
    assert_eq!(line, "{\"command\":[\"say \\\"hi\\\"\\n\"],\"request_id\":2}\n");
}

#[test]
fn request_line_encodes_numbers_and_bools() {
    let args = vec![
        JsonArg::UInt(42),
        JsonArg::Int(-5),
        JsonArg::Bool(true),
        JsonArg::Milli(12345),
        JsonArg::Milli(-500),
    ];
    let line = build_request_line(&args, 9);
    assert_eq!(line, "{\"command\":[42,-5,true,12.345,-0.500],\"request_id\":9}\n");
}

#[test]
fn request_line_is_valid_json() {
    let args = vec![
        JsonArg::Str(String::from("seek")),
        JsonArg::Milli(90500),
        JsonArg::Str(String::from("absolute")),
    ];
    let line = build_request_line(&args, 3);
    let v: serde_json::Value = serde_json::from_str(line.trim_end()).unwrap();
    assert_eq!(v["request_id"], 3);
    assert_eq!(v["command"][0], "seek");
    assert_eq!(v["command"][1], 90.5);
    assert_eq!(v["command"][2], "absolute");
}

#[test]
fn parse_line_reads_response_fields() {
    let s = parse_line("{\"request_id\":5,\"error\":\"success\",\"data\":12.5}");
    assert!(s.well_formed);
    assert_eq!(s.request_id, Some(5));
    assert!(!s.has_event);
    assert_eq!(s.error.as_deref(), Some("success"));
    assert_eq!(s.data.as_deref(), Some("12.5"));
}

#[test]
fn parse_line_flags_events() {
    let s = parse_line("{\"event\":\"property-change\",\"id\":1}");
    assert!(s.well_formed);
    assert!(s.has_event);
    assert_eq!(s.request_id, None);
}

#[test]
fn parse_line_rejects_malformed_text() {
    let s = parse_line("this is not json");
    assert!(!s.well_formed);
    assert_eq!(s.request_id, None);
    assert!(!s.has_event);

    let t = parse_line("42");
    assert!(!t.well_formed);
}

#[test]
fn find_response_skips_events_and_unrelated_lines() {
    let lines = vec![
        String::from("{\"event\":\"property-change\"}"),
        String::from("not json at all"),
        String::from("{\"request_id\":4,\"error\":\"success\"}"),
        String::from("{\"request_id\":6,\"error\":\"success\",\"data\":true}"),
    ];
    let r = find_response(&lines, 6).expect("response expected");
    assert_eq!(r.request_id, Some(6));
    assert_eq!(r.data.as_deref(), Some("true"));

    assert!(find_response(&lines, 9).is_none());
}

#[test]
fn response_result_splits_success_and_error() {
    let ok = parse_line("{\"request_id\":1,\"error\":\"success\",\"data\":1}");
    assert_eq!(response_result(ok).unwrap().as_deref(), Some("1"));

    let err = parse_line("{\"request_id\":1,\"error\":\"property unavailable\"}");
    match response_result(err) {
        Err(neatflix_mpvrs::errors::Error::MpvError(m)) => {
            assert_eq!(m, "property unavailable");
        }
        _ => panic!("player error expected"),
    }
}

#[test]
fn parse_ms_reads_plain_and_fractional_numbers() {
    assert_eq!(parse_ms("0"), Some(0));
    assert_eq!(parse_ms("12"), Some(12000));
    assert_eq!(parse_ms("12.345"), Some(12345));
    assert_eq!(parse_ms("12.3456789"), Some(12345));
    assert_eq!(parse_ms("0.5"), Some(500));
    assert_eq!(parse_ms("0.75"), Some(750));
    assert_eq!(parse_ms("-0.5"), Some(-500));
    assert_eq!(parse_ms("-90"), Some(-90000));
}

#[test]
fn parse_ms_rejects_junk() {
    assert_eq!(parse_ms(""), None);
    assert_eq!(parse_ms("-"), None);
    assert_eq!(parse_ms("1e3"), None);
    assert_eq!(parse_ms("12."), None);
    assert_eq!(parse_ms(".5"), None);
    assert_eq!(parse_ms("true"), None);
    assert_eq!(parse_ms("\"12\""), None);
    assert_eq!(parse_ms("1234567890123456"), None);
}

#[test]
fn parse_json_bool_reads_booleans() {
    assert_eq!(parse_json_bool("true"), Some(true));
    assert_eq!(parse_json_bool("false"), Some(false));
    assert_eq!(parse_json_bool("1"), None);
}
