use lambda_log_filter::is_embedded_metric_line;
use lambda_log_filter::ConfigError;
use lambda_log_filter::TransformerFactory;

fn factory(
    filter_by_prefix: Option<&str>,
    ignore_by_prefix: Option<&str>,
    filter_by_pattern: Option<&str>,
    ignore_by_pattern: Option<&str>,
    wrap_in_json_level: Option<&str>,
) -> TransformerFactory {
    TransformerFactory::new(
        filter_by_prefix.map(|s| s.to_string()),
        ignore_by_prefix.map(|s| s.to_string()),
        filter_by_pattern.map(|s| s.to_string()),
        ignore_by_pattern.map(|s| s.to_string()),
        wrap_in_json_level.map(|s| s.to_string()),
    )
    .unwrap()
}

fn assert_kept(tf: &TransformerFactory, line: &str) {
    assert_eq!(tf.transform(line.to_string()), Some(line.to_string()));
}

fn assert_kept_emf(tf: &TransformerFactory) {
    // emf will always be kept and not modified
    let line = r#"{"_aws":{"key":"value"}}"#;
    assert_kept(tf, line);
}

fn assert_kept_json(tf: &TransformerFactory, line: &str, level: &str) {
    let out = tf.transform(line.to_string()).unwrap();
    let res: serde_json::Value = serde_json::from_str(&out).unwrap();
    assert_eq!(res["level"], level);
    assert!(res["timestamp"].is_string());
    assert_eq!(
        res["timestamp"].as_str().unwrap().len(),
        "2023-11-02T16:51:31.587199Z".len()
    );
    assert_eq!(res["message"], line);
}

fn assert_ignored(tf: &TransformerFactory, line: &str) {
    assert_eq!(tf.transform(line.to_string()), None);
}

#[test]
fn check_emf() {
    // compact
    assert!(is_embedded_metric_line(r#"{"_aws":{"key":"value"}}"#));
    // with whitespace
    assert!(is_embedded_metric_line(r#"{"_aws": {"key": "value"}}"#));
    assert!(is_embedded_metric_line(r#"  {  "_aws"  : {"key": "value"}  }  "#));

    // missing _aws key
    assert!(!is_embedded_metric_line(r#"{"key": "value"}"#));
    assert!(!is_embedded_metric_line(r#"{"  _aws":{"key":"value"}}"#));
    // invalid JSON
    assert!(!is_embedded_metric_line(r#"{"_aws": {"key": "value"}"#));
    // not a JSON object
    assert!(!is_embedded_metric_line("123"));
}

#[test]
fn transformer_factory() {
    // kept all by default
    let tf = factory(None, None, None, None, None);
    assert_kept(&tf, "123");
    assert_kept_emf(&tf);

    // filter by prefix
    let tf = factory(Some("prefix"), None, None, None, None);
    assert_kept(&tf, "prefix123");
    assert_ignored(&tf, "123");
    assert_kept_emf(&tf);

    // ignore by prefix
    let tf = factory(None, Some("prefix"), None, None, None);
    assert_ignored(&tf, "prefix123");
    assert_kept(&tf, "123");
    assert_kept_emf(&tf);

    // filter by regex
    let tf = factory(None, None, Some(r"^\d+$"), None, None);
    assert_kept(&tf, "123");
    assert_ignored(&tf, "abc");
    assert_kept_emf(&tf);

    // ignore by regex
    let tf = factory(None, None, None, Some(r"^\d+$"), None);
    assert_ignored(&tf, "123");
    assert_kept(&tf, "abc");
    assert_kept_emf(&tf);

    // wrap in json level
    let tf = factory(None, None, None, None, Some("debug"));
    assert_kept_json(&tf, "123", "debug");
    assert_kept_emf(&tf);

    // filter and wrap
    let tf = factory(Some("prefix"), None, None, None, Some("debug"));
    assert_kept_json(&tf, "prefix123", "debug");
    assert_ignored(&tf, "123");
    assert_kept_emf(&tf);
}

#[test]
fn identity_config_keeps_every_line() {
    let tf = factory(None, None, None, None, None);
    assert_kept(&tf, "");
    assert_kept(&tf, "plain text");
    assert_kept(&tf, "{\"not\": \"emf\"}");
}

#[test]
fn empty_prefix_matches_every_line() {
    // A configured but empty prefix is distinct from "no rule" and matches
    // every line, since every line starts with the empty string.
    let tf = factory(Some(""), None, None, None, None);
    assert_kept(&tf, "");
    assert_kept(&tf, "abc");

    let tf = factory(None, Some(""), None, None, None);
    assert_ignored(&tf, "");
    assert_ignored(&tf, "abc");
}

#[test]
fn multiple_rules_all_must_pass() {
    let tf = factory(
        Some("app"),
        Some("app-debug"),
        Some("^app"),
        Some("secret"),
        None,
    );
    // passes every rule
    assert_kept(&tf, "app ok");
    // fails the filter prefix
    assert_ignored(&tf, "nope app");
    // fails the ignore prefix
    assert_ignored(&tf, "app-debug detail");
    // fails the ignore pattern
    assert_ignored(&tf, "app secret detail");
    // the structured-metric exemption still wins over every rule
    assert_kept_emf(&tf);
}

#[test]
fn structured_metric_exempt_from_wrap() {
    let tf = factory(None, None, None, None, Some("info"));
    // kept verbatim, not wrapped, despite the wrap level
    assert_kept_emf(&tf);
}

#[test]
fn wrap_envelope_shape() {
    let tf = factory(None, None, None, None, Some("warn"));
    let out = tf.transform("abc".to_string()).unwrap();
    let res: serde_json::Value = serde_json::from_str(&out).unwrap();
    let obj = res.as_object().unwrap();
    assert_eq!(obj.len(), 3);
    assert_eq!(res["level"], "warn");
    assert_eq!(res["message"], "abc");
    let ts = res["timestamp"].as_str().unwrap();
    let bytes = ts.as_bytes();
    assert_eq!(bytes.len(), 27);
    for (i, b) in bytes.iter().enumerate() {
        match i {
            4 | 7 => assert_eq!(*b, b'-'),
            10 => assert_eq!(*b, b'T'),
            13 | 16 => assert_eq!(*b, b':'),
            19 => assert_eq!(*b, b'.'),
            26 => assert_eq!(*b, b'Z'),
            _ => assert!(b.is_ascii_digit()),
        }
    }
}

#[test]
fn wrapped_message_round_trips_special_characters() {
    let tf = factory(None, None, None, None, Some("debug"));
    let line = "quote \" backslash \\ tab \t done";
    let out = tf.transform(line.to_string()).unwrap();
    assert_ne!(out, line);
    let res: serde_json::Value = serde_json::from_str(&out).unwrap();
    assert_eq!(res["message"], line);
}

#[test]
fn invalid_filter_pattern_fails_construction() {
    let r = TransformerFactory::new(None, None, Some("(".to_string()), None, None);
    assert!(matches!(r, Err(ConfigError::InvalidFilterPattern)));
}

#[test]
fn invalid_ignore_pattern_fails_construction() {
    let r = TransformerFactory::new(
        None,
        None,
        Some(r"^\d+$".to_string()),
        Some("(".to_string()),
        None,
    );
    assert!(matches!(r, Err(ConfigError::InvalidIgnorePattern)));
    // the filter pattern is checked first when both are invalid
    let r = TransformerFactory::new(
        None,
        None,
        Some("(".to_string()),
        Some("[".to_string()),
        None,
    );
    assert!(matches!(r, Err(ConfigError::InvalidFilterPattern)));
}

#[test]
fn prefix_filter_with_wrap_scenario() {
    let tf = factory(Some("prefix"), None, None, None, Some("debug"));

    let out = tf.transform("prefix123".to_string()).unwrap();
    let res: serde_json::Value = serde_json::from_str(&out).unwrap();
    assert_eq!(res["message"], "prefix123");
    assert_eq!(res["level"], "debug");

    assert_eq!(tf.transform("123".to_string()), None);

    let emf = r#"{"_aws":{}}"#;
    assert_eq!(tf.transform(emf.to_string()), Some(emf.to_string()));
}
