use blog_backend::json::parse_new_post;

#[test]
fn parses_plain_payload() {
    let np = parse_new_post(r#"{"title":"Hello","slug":"hello","body":"World"}"#).unwrap();
    assert_eq!(np.title, "Hello");
    assert_eq!(np.slug, "hello");
    assert_eq!(np.body, "World");
}

#[test]
fn parses_any_member_order() {
    let np = parse_new_post(r#"{"body":"b","title":"t","slug":"s"}"#).unwrap();
    assert_eq!(np.title, "t");
    assert_eq!(np.slug, "s");
    assert_eq!(np.body, "b");
}

#[test]
fn parses_with_whitespace() {
    let np = parse_new_post(
        " \t\r\n{ \"title\" : \"t\" ,\n \"slug\" : \"s\" , \"body\" : \"b\" }\n ",
    )
    .unwrap();
    assert_eq!(np.title, "t");
    assert_eq!(np.slug, "s");
    assert_eq!(np.body, "b");
}

#[test]
fn decodes_simple_escapes() {
    let np = parse_new_post(
        r#"{"title":"a\"b\\c\/d","slug":"x\by\fz","body":"l1\nl2\rl3\tend"}"#,
    )
    .unwrap();
    assert_eq!(np.title, "a\"b\\c/d");
    assert_eq!(np.slug, "x\u{0008}y\u{000C}z");
    assert_eq!(np.body, "l1\nl2\rl3\tend");
}

#[test]
fn keeps_non_ascii_text() {
    let np = parse_new_post(r#"{"title":"años","slug":"años","body":"niño"}"#).unwrap();
    assert_eq!(np.title, "años");
    assert_eq!(np.slug, "años");
    assert_eq!(np.body, "niño");
}

#[test]
fn rejects_missing_title() {
    assert!(parse_new_post(r#"{"slug":"s","body":"b"}"#).is_none());
    assert!(parse_new_post(r#"{"slug":"s","body":"b","extra":"x"}"#).is_none());
}

#[test]
fn rejects_missing_slug_or_body() {
    assert!(parse_new_post(r#"{"title":"t","body":"b"}"#).is_none());
    assert!(parse_new_post(r#"{"title":"t","slug":"s"}"#).is_none());
}

#[test]
fn rejects_repeated_member() {
    assert!(parse_new_post(r#"{"title":"t","title":"u","body":"b"}"#).is_none());
}

#[test]
fn ignores_unknown_members() {
    let np = parse_new_post(
        r#"{"author":"a","title":"t","slug":"s","note":"n","note":"m","body":"b"}"#,
    )
    .unwrap();
    assert_eq!(np.title, "t");
    assert_eq!(np.slug, "s");
    assert_eq!(np.body, "b");
}

#[test]
fn rejects_non_string_unknown_member() {
    assert!(parse_new_post(r#"{"title":"t","slug":"s","body":"b","extra":1}"#).is_none());
}

#[test]
fn decodes_unicode_escapes() {
    let np = parse_new_post(
        r#"{"title":"\u0041\u00e9","slug":"\u2603","body":"\ud83d\ude00"}"#,
    )
    .unwrap();
    assert_eq!(np.title, "A\u{e9}");
    assert_eq!(np.slug, "\u{2603}");
    assert_eq!(np.body, "\u{1f600}");
}

#[test]
fn unicode_escapes_work_in_keys() {
    let np = parse_new_post(r#"{"\u0074itle":"t","slug":"s","body":"b"}"#).unwrap();
    assert_eq!(np.title, "t");
}

#[test]
fn rejects_bad_unicode_escapes() {
    assert!(parse_new_post(r#"{"title":"t","slug":"s","body":"\ud83d"}"#).is_none());
    assert!(parse_new_post(r#"{"title":"t","slug":"s","body":"\ud83dx"}"#).is_none());
    assert!(parse_new_post(r#"{"title":"t","slug":"s","body":"\ud83d\u0041"}"#).is_none());
    assert!(parse_new_post(r#"{"title":"t","slug":"s","body":"\ude00"}"#).is_none());
    assert!(parse_new_post(r#"{"title":"t","slug":"s","body":"\u00"}"#).is_none());
    assert!(parse_new_post(r#"{"title":"t","slug":"s","body":"\u00gg"}"#).is_none());
}

#[test]
fn rejects_malformed_bodies() {
    assert!(parse_new_post("").is_none());
    assert!(parse_new_post("   ").is_none());
    assert!(parse_new_post("not json").is_none());
    assert!(parse_new_post(r#"{"title":"t","slug":"s","body":"b""#).is_none());
    assert!(parse_new_post(r#"{"title":"t","slug":"s","body":"b"} trailing"#).is_none());
    assert!(parse_new_post(r#"{"title":1,"slug":"s","body":"b"}"#).is_none());
    assert!(parse_new_post(r#"{"title":"t","slug":"s","body":"b",}"#).is_none());
    assert!(parse_new_post("{\"title\":\"t\",\"slug\":\"s\",\"body\":\"a\u{0001}b\"}").is_none());
    assert!(parse_new_post(r#"{"title":"t","slug":"s","body":"\q"}"#).is_none());
    assert!(parse_new_post("{}").is_none());
}
