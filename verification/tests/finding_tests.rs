use polyrev::config::Priority;
use polyrev::finding::Finding;

fn sample(snippet: Option<&str>) -> Finding {
    Finding {
        id: "TEST-001".to_string(),
        finding_type: "sql-injection".to_string(),
        title: "SQL Injection".to_string(),
        priority: Priority::P0,
        file: "src/db.py".to_string(),
        line: 42,
        snippet: snippet.map(|s| s.to_string()),
        description: "Bad".to_string(),
        remediation: "Fix it".to_string(),
        acceptance_criteria: vec![],
        references: vec![],
    }
}

#[test]
fn test_fingerprint_stability() {
    let finding = sample(Some("query = f\"SELECT * FROM users WHERE id = {id}\""));
    let fp1 = finding.fingerprint("security-python");
    let fp2 = finding.fingerprint("security-python");
    assert_eq!(fp1, fp2);
    assert_eq!(fp1.len(), 12);
}

#[test]
fn test_fingerprint_different_reviewer() {
    let finding = sample(None);
    let fp1 = finding.fingerprint("security-python");
    let fp2 = finding.fingerprint("security-swift");
    assert_ne!(fp1, fp2);
}

#[test]
fn test_normalize_snippet_whitespace() {
    let finding = Finding {
        id: "TEST-001".to_string(),
        finding_type: "test".to_string(),
        title: "Test".to_string(),
        priority: Priority::P1,
        file: "test.py".to_string(),
        line: 1,
        snippet: Some("  foo   bar\n  baz  ".to_string()),
        description: "".to_string(),
        remediation: "".to_string(),
        acceptance_criteria: vec![],
        references: vec![],
    };
    assert_eq!(finding.normalize_snippet(), "foo bar baz");
}

#[test]
fn test_fingerprint_whitespace_invariance() {
    let a = sample(Some("  foo   bar\n  baz  "));
    let b = sample(Some("foo bar baz"));
    assert_eq!(a.fingerprint("rev"), b.fingerprint("rev"));
}

#[test]
fn test_fingerprint_is_lower_hex() {
    let finding = sample(None);
    let fp = finding.fingerprint("rev");
    assert!(fp.chars().all(|c| c.is_ascii_hexdigit() && !c.is_ascii_uppercase()));
}

#[test]
fn test_fingerprint_depends_on_line() {
    let a = sample(None);
    let mut b = sample(None);
    b.line = 43;
    assert_ne!(a.fingerprint("rev"), b.fingerprint("rev"));
}
