use aishell::fetcher::{
    classify_reply, fetch_outcome, find_member, outcome_of_content, outcome_of_parsed,
    outcome_of_reply, response_schema, ReplyShape, SCHEMA_MISMATCH, UNEXPECTED_SHAPE,
};
use aishell::outcome::{ProviderReply, ReplyMessage, SuggestionOutcome};

fn reply(content: Option<&str>, refusal: Option<&str>) -> ProviderReply {
    ProviderReply {
        choices: vec![ReplyMessage {
            content: content.map(|s| s.to_string()),
            refusal: refusal.map(|s| s.to_string()),
        }],
    }
}

fn suggestion(o: &SuggestionOutcome) -> Option<(String, String)> {
    match o {
        SuggestionOutcome::Suggestion { exact_command, explanation } => {
            Some((exact_command.clone(), explanation.clone()))
        }
        _ => None,
    }
}

fn error_detail(o: &SuggestionOutcome) -> Option<String> {
    match o {
        SuggestionOutcome::Error { detail } => Some(detail.clone()),
        _ => None,
    }
}

#[test]
fn schema_reply_gives_suggestion() {
    let r = reply(
        Some(r#"{"suggested_exact_command":"grep foo","command_explanation":"typo correction"}"#),
        None,
    );
    let o = outcome_of_reply(&r);
    let (cmd, expl) = suggestion(&o).expect("a suggestion");
    assert_eq!(cmd, "grep foo");
    assert_eq!(expl, "typo correction");
    assert!(!cmd.is_empty() && !expl.is_empty());
}

#[test]
fn schema_reply_with_members_in_other_order() {
    let o = outcome_of_content(
        r#"{ "command_explanation": "list all", "suggested_exact_command": "ls -la" }"#,
    );
    assert_eq!(suggestion(&o), Some(("ls -la".to_string(), "list all".to_string())));
}

#[test]
fn refusal_wins_over_content() {
    let r = reply(
        Some(r#"{"suggested_exact_command":"grep foo","command_explanation":"x"}"#),
        Some("I cannot help with that"),
    );
    match outcome_of_reply(&r) {
        SuggestionOutcome::Refusal { message } => assert_eq!(message, "I cannot help with that"),
        _ => panic!("expected a refusal"),
    }
}

#[test]
fn refusal_with_malformed_content_is_still_refusal() {
    let r = reply(Some("not json at all"), Some("no"));
    assert!(matches!(classify_reply(&r), ReplyShape::Refused(ref m) if m == "no"));
    assert!(matches!(outcome_of_reply(&r), SuggestionOutcome::Refusal { .. }));
}

#[test]
fn no_content_no_refusal_is_unexpected_shape() {
    let o = outcome_of_reply(&reply(None, None));
    assert_eq!(error_detail(&o), Some(UNEXPECTED_SHAPE.to_string()));
}

#[test]
fn no_choices_is_unexpected_shape() {
    let o = outcome_of_reply(&ProviderReply { choices: vec![] });
    assert_eq!(error_detail(&o), Some(UNEXPECTED_SHAPE.to_string()));
}

#[test]
fn content_not_json_is_schema_error() {
    let o = outcome_of_content("grep foo");
    assert_eq!(error_detail(&o), Some(SCHEMA_MISMATCH.to_string()));
}

#[test]
fn content_missing_field_is_schema_error() {
    let o = outcome_of_content(r#"{"suggested_exact_command":"grep foo"}"#);
    assert_eq!(error_detail(&o), Some(SCHEMA_MISMATCH.to_string()));
}

#[test]
fn content_with_extra_field_is_schema_error() {
    let o = outcome_of_content(
        r#"{"suggested_exact_command":"a","command_explanation":"b","extra":"c"}"#,
    );
    assert_eq!(error_detail(&o), Some(SCHEMA_MISMATCH.to_string()));
}

#[test]
fn content_with_non_string_field_is_schema_error() {
    let o = outcome_of_content(r#"{"suggested_exact_command":"a","command_explanation":3}"#);
    assert_eq!(error_detail(&o), Some(SCHEMA_MISMATCH.to_string()));
}

#[test]
fn transport_failure_is_error_with_its_detail() {
    let o = fetch_outcome(Err("connection refused".to_string()));
    assert_eq!(error_detail(&o), Some("connection refused".to_string()));
}

#[test]
fn parsed_members_decide_outcome() {
    let pairs = vec![
        ("command_explanation".to_string(), "e".to_string()),
        ("suggested_exact_command".to_string(), "c".to_string()),
    ];
    assert_eq!(
        suggestion(&outcome_of_parsed(Some(pairs))),
        Some(("c".to_string(), "e".to_string()))
    );
    assert!(error_detail(&outcome_of_parsed(None)).is_some());
    assert!(error_detail(&outcome_of_parsed(Some(vec![]))).is_some());
}

#[test]
fn find_member_takes_first_of_name() {
    let pairs = vec![
        ("a".to_string(), "1".to_string()),
        ("b".to_string(), "2".to_string()),
        ("a".to_string(), "3".to_string()),
    ];
    assert_eq!(find_member(&pairs, &"a".to_string()), Some("1".to_string()));
    assert_eq!(find_member(&pairs, &"b".to_string()), Some("2".to_string()));
    assert_eq!(find_member(&pairs, &"c".to_string()), None);
}

#[test]
fn schema_text_names_both_required_fields() {
    let s = response_schema();
    let v: serde_json::Value = serde_json::from_str(&s).expect("valid JSON");
    assert_eq!(v["type"], "object");
    assert_eq!(v["additionalProperties"], false);
    assert_eq!(v["required"][0], "suggested_exact_command");
    assert_eq!(v["required"][1], "command_explanation");
}
