use polyrev::config::Priority;
use polyrev::jsonscan::extract_json;
use polyrev::markdown::try_parse_markdown_table;
use polyrev::parser::{parse_findings, try_parse_json};

#[test]
fn json_test_parse_direct_json() {
    let json = r#"{"findings": [{"id": "T1", "title": "Test", "priority": "p0", "file": "a.py", "line": 1, "description": "d", "remediation": "r"}]}"#;
    let findings = try_parse_json(json).unwrap();
    assert_eq!(findings.len(), 1);
    assert_eq!(findings[0].id, "T1");
}

#[test]
fn test_parse_claude_wrapped() {
    let json = r#"{"result": "{\"findings\": [{\"id\": \"T1\", \"title\": \"Test\", \"priority\": \"p1\", \"file\": \"a.py\", \"line\": 1, \"description\": \"d\", \"remediation\": \"r\"}]}", "session_id": "abc"}"#;
    let findings = try_parse_json(json).unwrap();
    assert_eq!(findings.len(), 1);
}

#[test]
fn json_test_parse_markdown_wrapped() {
    let md = r#"
Here are the findings:

```json
{"findings": [{"id": "T1", "title": "Test", "priority": "p2", "file": "a.py", "line": 1, "description": "d", "remediation": "r"}]}
```
"#;
    let findings = try_parse_json(md).unwrap();
    assert_eq!(findings.len(), 1);
}

#[test]
fn test_parse_markdown_table() {
    let md = r#"
# Findings

| file | line | severity | type | issue | recommendation |
|------|------|----------|------|-------|----------------|
| src/db.py | 42 | p0 | sql-injection | SQL Injection | Use parameterized queries |
| src/auth.py | 15 | p1 | hardcoded-secret | Hardcoded API key | Use env vars |
"#;
    let findings = try_parse_markdown_table(md, "security-python", Priority::P1).unwrap();
    assert_eq!(findings.len(), 2);
    assert_eq!(findings[0].file, "src/db.py".to_string());
    assert_eq!(findings[0].line, 42);
    assert_eq!(findings[0].priority, Priority::P0);
    assert_eq!(findings[1].priority, Priority::P1);
}

#[test]
fn test_parse_empty_table() {
    let md = "No findings here";
    let findings = try_parse_markdown_table(md, "test", Priority::P1);
    assert!(findings.is_none());
}

#[test]
fn test_markdown_row_ids_and_fields() {
    let md = "| a.py | 7 | low | style | Long line | Split it |\n| b.py | 9 | critical | bug | Crash | Guard |";
    let findings = try_parse_markdown_table(md, "rev", Priority::P1).unwrap();
    assert_eq!(findings[0].id, "REV-1");
    assert_eq!(findings[1].id, "REV-2");
    assert_eq!(findings[0].priority, Priority::P2);
    assert_eq!(findings[1].priority, Priority::P0);
    assert_eq!(findings[0].title, "Long line");
    assert_eq!(findings[0].description, "Long line");
    assert_eq!(findings[1].remediation, "Guard");
    assert_eq!(findings[1].finding_type, "bug");
}

#[test]
fn test_markdown_header_row_skipped() {
    let md = "| file | 1 | p0 | t | i | r |\n| real.py | 2 | p1 | t | i | r |";
    let findings = try_parse_markdown_table(md, "rev", Priority::P1).unwrap();
    assert_eq!(findings.len(), 1);
    assert_eq!(findings[0].file, "real.py");
}

#[test]
fn test_markdown_line_overflow_aborts_table() {
    let md = "| a.py | 99999999999 | p0 | t | i | r |\n| b.py | 2 | p1 | t | i | r |";
    assert!(try_parse_markdown_table(md, "rev", Priority::P1).is_none());
}

#[test]
fn test_envelope_round_trip_matches_unwrapped() {
    let inner = r#"{"findings": [{"id": "T1", "type": "bug", "title": "Test", "priority": "p0", "file": "a.py", "line": 3, "description": "d", "remediation": "r"}]}"#;
    let wrapped = format!(
        "{{\"result\": {}, \"session_id\": \"x\"}}",
        serde_json::to_string(inner).unwrap()
    );
    let direct = try_parse_json(inner).unwrap();
    let via_envelope = try_parse_json(&wrapped).unwrap();
    assert_eq!(direct.len(), via_envelope.len());
    assert_eq!(direct[0].id, via_envelope[0].id);
    assert_eq!(direct[0].finding_type, via_envelope[0].finding_type);
    assert_eq!(direct[0].priority, via_envelope[0].priority);
    assert_eq!(direct[0].file, via_envelope[0].file);
    assert_eq!(direct[0].line, via_envelope[0].line);
}

#[test]
fn test_parse_findings_falls_back_to_markdown() {
    let md = "| a.py | 1 | p0 | t | Issue | Fix |";
    let findings = parse_findings(md, "rev", Priority::P1);
    assert_eq!(findings.len(), 1);
    assert_eq!(findings[0].id, "REV-1");
}

#[test]
fn test_parse_findings_neither_form_gives_empty() {
    let findings = parse_findings("nothing structured here", "rev", Priority::P1);
    assert!(findings.is_empty());
}

#[test]
fn test_extract_json_brace_scan() {
    let text = "prefix text {\"a\": {\"b\": 1}} suffix";
    let extracted = extract_json(text, false).unwrap();
    assert_eq!(extracted, "{\"a\": {\"b\": 1}}");
}

#[test]
fn test_extract_json_rejects_invalid() {
    assert!(extract_json("{not json at all", false).is_none());
}

#[test]
fn test_extract_json_second_fence_wins_when_first_invalid() {
    let text = "```\nnot json\n```\n```json\n{\"k\": 1}\n```";
    let extracted = extract_json(text, false).unwrap();
    assert_eq!(extracted, "{\"k\": 1}");
}

#[test]
fn test_finding_defaults_and_aliases() {
    let json = r#"{"findings": [{"id": "T1", "title": "T", "type": "bug", "file": "a.py", "description": "d", "recommendation": "use x"}]}"#;
    let findings = try_parse_json(json).unwrap();
    assert_eq!(findings[0].finding_type, "bug");
    assert_eq!(findings[0].remediation, "use x");
    assert_eq!(findings[0].line, 0);
    assert_eq!(findings[0].priority, Priority::P1);
    assert!(findings[0].snippet.is_none());
    assert!(findings[0].acceptance_criteria.is_empty());
}

#[test]
fn test_finding_bad_priority_refuses_object() {
    let json = r#"{"findings": [{"id": "T1", "title": "T", "file": "a.py", "description": "d", "priority": "urgent"}]}"#;
    assert!(try_parse_json(json).is_none());
}
