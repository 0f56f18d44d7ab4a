use poweranalyses::string::trim_stray_end;

#[test]
fn keeps_a_request_that_ends_with_its_brace() {
    assert_eq!(trim_stray_end(r#"{"n": 50}"#), r#"{"n": 50}"#);
    assert_eq!(trim_stray_end("{}"), "{}");
    assert_eq!(trim_stray_end("}"), "}");
}

#[test]
fn drops_one_stray_character() {
    assert_eq!(trim_stray_end("{\"n\": 50}\u{fffd}"), "{\"n\": 50}");
    assert_eq!(trim_stray_end("{}x"), "{}");
    assert_eq!(trim_stray_end("{}xy"), "{}x");
    assert_eq!(trim_stray_end("{} "), "{}");
    assert_eq!(trim_stray_end("x"), "");
    assert_eq!(trim_stray_end("\u{1f600}"), "");
}

#[test]
fn keeps_the_empty_text() {
    assert_eq!(trim_stray_end(""), "");
}
