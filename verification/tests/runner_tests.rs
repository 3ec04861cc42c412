use polyrev::config::{Priority, Provider};
use polyrev::parser::parse_findings;
use polyrev::provider::{
    build_full_prompt, ClaudeRunner, CodexRunner, SessionInfo,
};
use polyrev::runner::{
    abort_remaining_chunks, adopt_session_id, build_chunk_prompt, format_status,
    initial_session_id, session_info_for_chunk, skipped_result, unit_status, ReviewerResult,
    ReviewerStatus, RunReport,
};

#[test]
fn test_build_chunk_prompt_single_chunk_is_base() {
    let files = vec!["a.py".to_string()];
    let prompt = build_chunk_prompt("Analyze this.", 0, 1, &files);
    assert_eq!(prompt, "Analyze this.");
}

#[test]
fn test_build_chunk_prompt_final_chunk() {
    let files = vec!["a.py".to_string(), "b.py".to_string()];
    let prompt = build_chunk_prompt("Base.", 2, 3, &files);
    assert!(prompt.starts_with("Base.\n\n---\n\n**[CHUNKED ANALYSIS: 3/3 - FINAL CHUNK]**"));
    assert!(prompt.contains("ALL files across 3 chunks"));
    assert!(prompt.ends_with("Files in this final chunk:\n- a.py\n- b.py"));
}

#[test]
fn test_build_chunk_prompt_accumulating_chunk() {
    let files = vec!["a.py".to_string(), "b.py".to_string(), "c.py".to_string()];
    let prompt = build_chunk_prompt("Base.", 0, 3, &files);
    assert!(prompt.contains("**[CHUNKED ANALYSIS: 1/3 - ACCUMULATING]**"));
    assert!(prompt.contains("Reply ONLY with: `Chunk 1/3 received. 3 files indexed.`"));
    assert!(prompt.ends_with("- a.py\n- b.py\n- c.py"));
}

#[test]
fn test_session_threading_decisions() {
    let minted = initial_session_id(&Provider::ClaudeCli, 3).unwrap();
    assert_eq!(minted.chars().count(), 36);
    assert!(initial_session_id(&Provider::ClaudeCli, 1).is_none());
    assert!(initial_session_id(&Provider::CodexCli, 3).is_none());

    let sid = Some("sess-1".to_string());
    let first = session_info_for_chunk(&sid, 0).unwrap();
    assert!(!first.is_resume);
    assert_eq!(first.session_id.as_deref(), Some("sess-1"));
    let later = session_info_for_chunk(&sid, 2).unwrap();
    assert!(later.is_resume);
    assert!(session_info_for_chunk(&None, 1).is_none());

    let mut current: Option<String> = None;
    adopt_session_id(&mut current, &Some("from-provider".to_string()));
    assert_eq!(current.as_deref(), Some("from-provider"));
    adopt_session_id(&mut current, &Some("other".to_string()));
    assert_eq!(current.as_deref(), Some("from-provider"));

    assert!(abort_remaining_chunks(3, 0));
    assert!(!abort_remaining_chunks(3, 2));
    assert!(!abort_remaining_chunks(1, 0));
}

#[test]
fn test_format_status() {
    assert_eq!(format_status(&ReviewerStatus::Completed), "✅ Completed");
    assert_eq!(
        format_status(&ReviewerStatus::Skipped { reason: "no matching files".to_string() }),
        "⏭️ Skipped (no matching files)"
    );
    assert_eq!(
        format_status(&ReviewerStatus::Failed { error: "boom".to_string() }),
        "❌ Failed (boom)"
    );
}

#[test]
fn test_unit_status_aggregation() {
    match unit_status(0, 2, &Some("boom".to_string())) {
        ReviewerStatus::Failed { error } => assert_eq!(error, "boom"),
        _ => panic!("expected failure"),
    }
    match unit_status(0, 0, &None) {
        ReviewerStatus::Failed { error } => assert_eq!(error, "all chunks failed"),
        _ => panic!("expected failure"),
    }
    match unit_status(2, 1, &Some("late".to_string())) {
        ReviewerStatus::Failed { error } => {
            assert_eq!(error, "1 of 3 chunks failed; partial results returned")
        }
        _ => panic!("expected partial failure"),
    }
    assert!(matches!(unit_status(3, 0, &None), ReviewerStatus::Completed));
}

#[test]
fn test_end_to_end_aggregate_report() {
    // one unit skipped for an empty scope
    let skipped = skipped_result("empty-scope", "Empty Scope", "no matching files", 10);

    // one unit whose single provider call timed out after all retries
    let timeout_error = Some("Execution timed out after 300000 ms".to_string());
    let failed = ReviewerResult {
        reviewer_id: "slow".to_string(),
        reviewer_name: "Slow".to_string(),
        status: unit_status(0, 1, &timeout_error),
        files_scanned: 4,
        findings: Vec::new(),
        duration_ms: 300_000,
    };

    // one unit producing two findings via direct JSON
    let json = r#"{"findings": [
        {"id": "A-1", "title": "One", "priority": "p0", "file": "a.py", "line": 1, "description": "d", "remediation": "r"},
        {"id": "A-2", "title": "Two", "priority": "p1", "file": "b.py", "line": 2, "description": "d", "remediation": "r"}
    ]}"#;
    let findings = parse_findings(json, "good", Priority::P1);
    assert_eq!(findings.len(), 2);
    let completed = ReviewerResult {
        reviewer_id: "good".to_string(),
        reviewer_name: "Good".to_string(),
        status: unit_status(1, 0, &None),
        files_scanned: 2,
        findings,
        duration_ms: 1_000,
    };

    let report = RunReport {
        reviewer_results: vec![skipped, failed, completed],
        total_duration_ms: 301_010,
    };
    assert_eq!(report.reviewer_results.len(), 3);
    assert!(matches!(report.reviewer_results[0].status, ReviewerStatus::Skipped { .. }));
    assert!(matches!(report.reviewer_results[1].status, ReviewerStatus::Failed { .. }));
    assert!(matches!(report.reviewer_results[2].status, ReviewerStatus::Completed));

    let totals = report.totals();
    assert_eq!(totals.p0, 1);
    assert_eq!(totals.p1, 1);
    assert_eq!(totals.p2, 0);
}

#[test]
fn test_claude_args_with_and_without_session() {
    let runner = ClaudeRunner {
        binary: "cli".to_string(),
        model: "m1".to_string(),
        tools: vec!["Read".to_string(), "Grep".to_string()],
        permission_mode: "acceptEdits".to_string(),
        working_dir: ".".to_string(),
    };
    let plain = runner.build_args("do it", &None);
    assert_eq!(
        plain,
        vec![
            "-p",
            "do it",
            "--model",
            "m1",
            "--output-format",
            "json",
            "--allowedTools",
            "Read,Grep",
            "--permission-mode",
            "acceptEdits"
        ]
    );
    let fresh = runner.build_args(
        "p",
        &Some(SessionInfo { session_id: Some("sid".to_string()), is_resume: false }),
    );
    assert_eq!(&fresh[0..2], &["--session-id".to_string(), "sid".to_string()]);
    let resumed = runner.build_args(
        "p",
        &Some(SessionInfo { session_id: Some("sid".to_string()), is_resume: true }),
    );
    assert_eq!(&resumed[0..2], &["--resume".to_string(), "sid".to_string()]);
}

#[test]
fn test_codex_args_fresh_and_resume() {
    let runner = CodexRunner {
        binary: "codex".to_string(),
        model: "gpt".to_string(),
        working_dir: ".".to_string(),
    };
    let fresh = runner.build_args(&None, &Some("/tmp/out.txt".to_string()));
    assert_eq!(
        fresh,
        vec!["exec", "--model", "gpt", "--json", "--output-last-message", "/tmp/out.txt", "-"]
    );
    let resumed = runner.build_args(
        &Some(SessionInfo { session_id: Some("t-9".to_string()), is_resume: true }),
        &None,
    );
    assert_eq!(resumed, vec!["exec", "resume", "t-9", "-"]);
}

#[test]
fn test_full_prompt_includes_file_list() {
    let files = vec!["a.py".to_string(), "b.py".to_string()];
    let prompt = build_full_prompt("Check these.", &files);
    assert_eq!(prompt, "Check these.\n\n## Files to Analyze\n```\na.py\nb.py\n```");
}

#[test]
fn test_extract_thread_id_takes_last() {
    let stdout = "not json\n{\"thread_id\": \"t-1\"}\n{\"other\": 1}\n{\"thread_id\": \"t-2\"}";
    assert_eq!(polyrev::provider::extract_thread_id(stdout).as_deref(), Some("t-2"));
    assert!(polyrev::provider::extract_thread_id("plain text only").is_none());
}

#[test]
fn test_render_unit_report() {
    let json = r#"{"findings": [{"id": "A-1", "title": "One", "priority": "p0", "file": "a.py", "line": 7, "type": "bug", "description": "d", "remediation": "r", "snippet": "let x = 1;", "acceptance_criteria": ["fix it"], "references": ["CWE-1"]}]}"#;
    let findings = parse_findings(json, "good", Priority::P1);
    let result = ReviewerResult {
        reviewer_id: "good".to_string(),
        reviewer_name: "Good".to_string(),
        status: unit_status(1, 0, &None),
        files_scanned: 3,
        findings,
        duration_ms: 1_500,
    };
    let report = polyrev::report::render_unit_report(&result, "1.5s");
    assert!(report.starts_with("# Good\n\n| Metric | Value |"));
    assert!(report.contains("| Status | ✅ Completed |"));
    assert!(report.contains("| Duration | 1.5s |"));
    assert!(report.contains("| p0 (Critical) | 1 |"));
    assert!(report.contains("### [p0] One\n\n- **File:** `a.py:7`\n- **Type:** `bug`\n"));
    assert!(report.contains("**Code:**\n```\nlet x = 1;\n```"));
    assert!(report.contains("**Acceptance Criteria:**\n- [ ] fix it\n"));
    assert!(report.contains("**References:**\n- CWE-1\n"));
    let empty = ReviewerResult {
        reviewer_id: "quiet".to_string(),
        reviewer_name: "Quiet".to_string(),
        status: unit_status(1, 0, &None),
        files_scanned: 0,
        findings: Vec::new(),
        duration_ms: 10,
    };
    assert!(polyrev::report::render_unit_report(&empty, "0.0s").ends_with("*No findings*\n"));
}
