use hurl_cli::error::{ConfigError, FileRole};
use hurl_cli::sources::{
    line_is_skipped, merge, strip_env_prefix, EnvEntry, FileLine, InlineVariable,
};
use hurl_cli::variables::{Assignment, Value, Variables};

fn text(s: &str) -> Value {
    Value::Text(s.to_string())
}

fn assign(name: &str, value: Value) -> Assignment {
    Assignment { name: name.to_string(), value }
}

fn env(name: &str, value: &str) -> EnvEntry {
    EnvEntry { name: name.to_string(), value: Some(text(value)) }
}

fn line(raw: &str, assignment: Option<Assignment>) -> FileLine {
    FileLine::Read { text: raw.to_string(), assignment }
}

fn inline(raw: &str, assignment: Option<Assignment>) -> InlineVariable {
    InlineVariable { text: raw.to_string(), assignment }
}

#[test]
fn inline_overrides_file_overrides_environment() {
    let environment = vec![env("HURL_host", "from-env"), env("HURL_port", "1"), env("HURL_user", "e")];
    let path = Some("vars.properties".to_string());
    let lines = Some(vec![
        line("host=from-file", Some(assign("host", text("from-file")))),
        line("port=2", Some(assign("port", Value::Number("2".to_string())))),
    ]);
    let inlines = vec![inline("host=from-inline", Some(assign("host", text("from-inline"))))];
    let merged = merge(&environment, &path, &lines, &inlines).unwrap();
    assert_eq!(merged.get("host"), Some(&text("from-inline")));
    assert_eq!(merged.get("port"), Some(&Value::Number("2".to_string())));
    assert_eq!(merged.get("user"), Some(&text("e")));
    assert_eq!(merged.get("other"), None);
    assert_eq!(merged.len(), 3);
}

#[test]
fn later_assignment_in_one_source_wins() {
    let inlines = vec![
        inline("a=1", Some(assign("a", Value::Number("1".to_string())))),
        inline("a=true", Some(assign("a", Value::Bool(true)))),
    ];
    let merged = merge(&vec![], &None, &None, &inlines).unwrap();
    assert_eq!(merged.get("a"), Some(&Value::Bool(true)));
    assert_eq!(merged.len(), 1);
}

#[test]
fn environment_without_prefix_is_ignored() {
    let environment = vec![
        env("PATH", "/bin"),
        EnvEntry { name: "HOME".to_string(), value: None },
        env("HURL_name", "value"),
        env("hurl_lower", "x"),
    ];
    let merged = merge(&environment, &None, &None, &vec![]).unwrap();
    assert_eq!(merged.len(), 1);
    assert_eq!(merged.get("name"), Some(&text("value")));
}

#[test]
fn properties_file_skips_comments_and_blank_lines() {
    let path = Some("vars".to_string());
    let lines = Some(vec![
        line("# comment", None),
        line("", None),
        line("name=value", Some(assign("name", text("value")))),
    ]);
    let merged = merge(&vec![], &path, &lines, &vec![]).unwrap();
    assert_eq!(merged.len(), 1);
    assert_eq!(merged.get("name"), Some(&text("value")));
    assert_eq!(merged.to_vec(), vec![assign("name", text("value"))]);
}

#[test]
fn skipped_line_is_not_parsed_even_when_an_assignment_is_offered() {
    let path = Some("vars".to_string());
    let lines = Some(vec![line("  # a=b", Some(assign("a", text("b"))))]);
    let merged = merge(&vec![], &path, &lines, &vec![]).unwrap();
    assert_eq!(merged.len(), 0);
}

#[test]
fn missing_variables_file_is_reported() {
    let path = Some("nowhere.properties".to_string());
    let r = merge(&vec![], &path, &None, &vec![]);
    assert_eq!(
        r,
        Err(ConfigError::FileNotFound(FileRole::VariablesFile, "nowhere.properties".to_string()))
    );
}

#[test]
fn lines_without_a_path_are_not_read() {
    let lines = Some(vec![line("broken", None)]);
    let merged = merge(&vec![], &None, &lines, &vec![]).unwrap();
    assert_eq!(merged.len(), 0);
}

#[test]
fn unparsable_line_names_its_number_and_source() {
    let path = Some("vars".to_string());
    let lines = Some(vec![
        line("# first", None),
        line("a=1", Some(assign("a", Value::Number("1".to_string())))),
        line("broken", None),
        line("b=2", Some(assign("b", Value::Number("2".to_string())))),
    ]);
    let r = merge(&vec![], &path, &lines, &vec![]);
    assert_eq!(r, Err(ConfigError::ParseFailure { line: 3, source: "vars".to_string() }));
}

#[test]
fn unreadable_line_names_its_number_and_source() {
    let path = Some("vars".to_string());
    let lines = Some(vec![FileLine::Unreadable]);
    let r = merge(&vec![], &path, &lines, &vec![]);
    assert_eq!(r, Err(ConfigError::ParseFailure { line: 1, source: "vars".to_string() }));
}

#[test]
fn rejected_environment_value_fails_the_merge() {
    let environment = vec![EnvEntry { name: "HURL_bad".to_string(), value: None }];
    let r = merge(&environment, &None, &None, &vec![]);
    assert_eq!(r, Err(ConfigError::InvalidVariable("HURL_bad".to_string())));
}

#[test]
fn rejected_inline_assignment_fails_the_merge() {
    let inlines = vec![inline("novalue", None)];
    let r = merge(&vec![], &None, &None, &inlines);
    assert_eq!(r, Err(ConfigError::InvalidVariable("novalue".to_string())));
}

#[test]
fn environment_failure_comes_before_file_failure() {
    let environment = vec![EnvEntry { name: "HURL_bad".to_string(), value: None }];
    let path = Some("missing".to_string());
    let r = merge(&environment, &path, &None, &vec![inline("x", None)]);
    assert_eq!(r, Err(ConfigError::InvalidVariable("HURL_bad".to_string())));
}

#[test]
fn prefix_is_stripped_from_environment_names() {
    assert_eq!(strip_env_prefix("HURL_name"), Some("name".to_string()));
    assert_eq!(strip_env_prefix("HURL_"), Some(String::new()));
    assert_eq!(strip_env_prefix("HURL"), None);
    assert_eq!(strip_env_prefix("XHURL_name"), None);
    assert_eq!(strip_env_prefix("HURL_été"), Some("été".to_string()));
}

#[test]
fn blank_and_comment_lines_are_skipped() {
    assert!(line_is_skipped(""));
    assert!(line_is_skipped("   \t"));
    assert!(line_is_skipped("# comment"));
    assert!(line_is_skipped("   # indented"));
    assert!(line_is_skipped("\u{a0}#"));
    assert!(!line_is_skipped("name=value"));
    assert!(!line_is_skipped("  name=value # trailing"));
}

#[test]
fn variables_insert_replaces_and_counts_names_once() {
    let mut v = Variables::new();
    assert_eq!(v.len(), 0);
    v.insert("a".to_string(), Value::Null);
    v.insert("b".to_string(), Value::Bool(false));
    v.insert("a".to_string(), text("again"));
    assert_eq!(v.len(), 2);
    assert_eq!(v.get("a"), Some(&text("again")));
    assert_eq!(v.get("b"), Some(&Value::Bool(false)));
    assert_eq!(v.get("c"), None);
}

#[test]
fn variables_apply_writes_in_order() {
    let mut v = Variables::new();
    v.insert("a".to_string(), Value::Null);
    v.apply(vec![assign("a", text("1")), assign("b", text("2")), assign("a", text("3"))]);
    assert_eq!(v.to_vec(), vec![assign("a", text("3")), assign("b", text("2"))]);
}
