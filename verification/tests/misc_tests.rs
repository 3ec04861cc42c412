use polyrev::config::{
    default_backoff_base_ms, default_concurrency, default_max_attempts, default_max_files,
    Config, ClaudeCliConfig, CodexCliConfig, DedupeAction, GithubConfig, AutoFixConfig,
    PostProcessConfig, Priority, Provider, ProvidersConfig, RetryConfig, Reviewer, Scope,
};
use polyrev::errors::ConfigError;
use polyrev::finding::Finding;
use polyrev::github::{dedupe_search, plan_issue_action, DedupeResult, IssueCreator, IssuePlan,
    IssueState};
use polyrev::postprocess::{
    parse_reduced_output, passthrough_result, reviewer_id_from_stem, source_findings,
};
use polyrev::tui::{ellipsize, format_duration, sanitize_text, wrap_text, FindingFilter, PlanPane};

fn reviewer(id: &str, enabled: bool, scopes: Vec<&str>) -> Reviewer {
    Reviewer {
        id: id.to_string(),
        name: id.to_uppercase(),
        enabled,
        provider: Provider::ClaudeCli,
        scopes: scopes.into_iter().map(|s| s.to_string()).collect(),
        prompt_file: "prompt.md".to_string(),
        priority_default: Priority::P1,
        max_files: None,
        timeout_sec: None,
        command_override: None,
    }
}

fn config_with(reviewers: Vec<Reviewer>, scopes: Vec<&str>) -> Config {
    Config {
        version: 1,
        target: ".".to_string(),
        concurrency: default_concurrency(),
        report_dir: "reports".to_string(),
        dry_run: false,
        diff_base: None,
        github: GithubConfig {
            enabled: true,
            repo: None,
            labels: vec![],
            assignees: vec![],
            dedupe: true,
            dedupe_action: DedupeAction::Skip,
            auto_fix: AutoFixConfig {
                enabled: false,
                agent: String::new(),
                prompt: String::new(),
            },
        },
        providers: ProvidersConfig {
            claude_cli: ClaudeCliConfig {
                binary: "cli".to_string(),
                model: "m".to_string(),
                tools: vec![],
                permission_mode: "acceptEdits".to_string(),
            },
            codex_cli: CodexCliConfig { binary: "codex".to_string(), model: "g".to_string() },
        },
        retry: RetryConfig {
            max_attempts: default_max_attempts(),
            backoff_base_ms: default_backoff_base_ms(),
        },
        postprocess: PostProcessConfig {
            enabled: false,
            tool: "claude_cli".to_string(),
            prompt_file: "prompts/reduce.md".to_string(),
            timeout_sec: 300,
            min_findings: 2,
        },
        planning: None,
        timeout_sec: 300,
        max_files: default_max_files(),
        launch_delay_ms: 500,
        scopes: scopes
            .into_iter()
            .map(|name| {
                (
                    name.to_string(),
                    Scope { paths: vec![".".to_string()], includes: vec![], excludes: vec![] },
                )
            })
            .collect(),
        reviewers,
    }
}

#[test]
fn test_validate_unknown_scope_comes_first() {
    let config = config_with(
        vec![reviewer("a", false, vec!["known", "ghost"])],
        vec!["known"],
    );
    match config.validate() {
        Err(ConfigError::UnknownScope(name)) => assert_eq!(name, "ghost"),
        other => panic!("expected unknown scope, got {:?}", other),
    }
}

#[test]
fn test_validate_no_reviewers_enabled() {
    let config = config_with(vec![reviewer("a", false, vec!["known"])], vec!["known"]);
    assert!(matches!(config.validate(), Err(ConfigError::NoReviewersEnabled)));
}

#[test]
fn test_validate_ok() {
    let config = config_with(vec![reviewer("a", true, vec!["known"])], vec!["known"]);
    assert!(config.validate().is_ok());
}

fn finding(priority: Priority) -> Finding {
    Finding {
        id: "F-1".to_string(),
        finding_type: String::new(),
        title: "Thing".to_string(),
        priority,
        file: "a.py".to_string(),
        line: 0,
        snippet: None,
        description: "desc".to_string(),
        remediation: "fix".to_string(),
        acceptance_criteria: vec![],
        references: vec![],
    }
}

#[test]
fn test_issue_title_and_body() {
    let creator = IssueCreator::new(None, true, DedupeAction::Skip, vec![], vec![]).unwrap();
    let f = finding(Priority::P0);
    assert_eq!(creator.format_title(&f), "[p0] Thing");
    let body = creator.format_body(&f, "rev", "cafe01234567");
    assert!(body.starts_with("<!-- polyrev:fp:cafe01234567 -->"));
    assert!(body.contains("| **File** | `a.py:0` |"));
    assert!(body.contains("| **Type** | `general` |"));
    assert!(body.contains("- [ ] Address finding\n- [ ] Add test coverage"));
    assert!(body.contains("N/A"));
}

#[test]
fn test_dedupe_search_and_plan() {
    assert_eq!(dedupe_search("abc123"), "polyrev:fp:abc123 in:body");
    assert!(matches!(
        plan_issue_action(false, DedupeAction::Reopen, &DedupeResult::NotFound),
        IssuePlan::CreateNew
    ));
    let found = DedupeResult::Found { issue_number: 12, state: IssueState::Closed };
    assert!(matches!(
        plan_issue_action(true, DedupeAction::Skip, &found),
        IssuePlan::SkipExisting { issue_number: 12 }
    ));
    assert!(matches!(
        plan_issue_action(true, DedupeAction::Reopen, &found),
        IssuePlan::ReopenExisting { issue_number: 12, needs_reopen: true }
    ));
    let open = DedupeResult::Found { issue_number: 3, state: IssueState::Open };
    assert!(matches!(
        plan_issue_action(true, DedupeAction::Reopen, &open),
        IssuePlan::ReopenExisting { issue_number: 3, needs_reopen: false }
    ));
}

#[test]
fn test_extract_json_direct() {
    let json = r#"{"findings": [], "clusters": []}"#;
    let extracted = polyrev::jsonscan::extract_json(json, true).unwrap();
    assert!(extracted.contains("findings"));
}

#[test]
fn test_extract_json_markdown() {
    let md = r#"
Here is the reduced output:

```json
{"findings": [], "clusters": [], "summary": "No duplicates found"}
```
"#;
    let extracted = polyrev::jsonscan::extract_json(md, true).unwrap();
    assert!(extracted.contains("summary"));
}

#[test]
fn test_parse_reduced_output() {
    let json = r#"{"findings": [{"merged_from": ["abc123"], "id": "SEC-001", "title": "Test", "priority": "p0", "file": "a.py", "line": 1, "description": "d", "remediation": "r"}], "clusters": []}"#;
    let reduced = parse_reduced_output(json).unwrap();
    assert_eq!(reduced.findings.len(), 1);
    assert_eq!(reduced.findings[0].merged_from, vec!["abc123"]);
}

#[test]
fn test_source_and_passthrough() {
    let sourced = source_findings("rev", vec![finding(Priority::P2)]);
    assert_eq!(sourced.len(), 1);
    assert_eq!(sourced[0].reviewer_id, "rev");
    assert_eq!(sourced[0].fingerprint.len(), 12);
    let result = passthrough_result(&sourced);
    assert_eq!(result.original_count, 1);
    assert_eq!(result.reduced_count, 1);
    assert!(result.clusters.is_empty());
    assert_eq!(result.findings[0].merged_from, vec![sourced[0].fingerprint.clone()]);
    assert_eq!(result.findings[0].priority, "p2");
}

#[test]
fn test_reviewer_id_from_stem() {
    assert_eq!(reviewer_id_from_stem("security-python.findings"), "security-python");
    assert_eq!(reviewer_id_from_stem("plain"), "plain");
    assert_eq!(reviewer_id_from_stem("x.findings.findings"), "x");
}

#[test]
fn test_format_duration() {
    assert_eq!(format_duration(45_000), "45s");
    assert_eq!(format_duration(125_000), "2m 5s");
    assert_eq!(format_duration(7_260_000), "2h 1m");
}

#[test]
fn test_ellipsize_and_sanitize() {
    assert_eq!(ellipsize("short", 10), "short");
    assert_eq!(ellipsize("truncate me", 5), "trun…");
    assert_eq!(ellipsize("x", 0), "");
    assert_eq!(sanitize_text("a\nb\rc"), "a b c");
}

#[test]
fn test_wrap_text() {
    assert_eq!(wrap_text("alpha beta gamma", 11), vec!["alpha beta", "gamma"]);
    assert_eq!(wrap_text("", 10), vec![""]);
    assert_eq!(wrap_text("word", 2), vec!["word"]);
}

#[test]
fn test_finding_filter_cycle_and_match() {
    assert_eq!(FindingFilter::All.next(), FindingFilter::P0);
    assert_eq!(FindingFilter::P2.next(), FindingFilter::All);
    assert!(FindingFilter::All.matches(Priority::P2));
    assert!(FindingFilter::P0.matches(Priority::P0));
    assert!(!FindingFilter::P0.matches(Priority::P1));
    assert_eq!(FindingFilter::P1.label(), "p1");
    assert_eq!(PlanPane::Detail.next(), PlanPane::Perspectives);
}

#[test]
fn test_priority_labels() {
    assert_eq!(Priority::P0.label(), "p0");
    assert_eq!(Priority::P2.label(), "p2");
    assert_eq!(Provider::CodexCli.label(), "codex_cli");
}
