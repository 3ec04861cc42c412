use polyrev::planner::orchestrator::{
    apply_selection, build_perspective_prompt, build_selection_list, parse_selection_response,
    sanitize_plan_name, selected_perspective_indices,
};
use polyrev::planner::reducer::{build_reducer_prompt, build_revision_prompt, reduction_result};
use polyrev::planner::parser::parse_plan_fragment;
use polyrev::planner::reducer::{
    extract_yaml, merge_revised_tasks, parse_revision_yaml, parse_unified_plan, try_parse_plan,
    RevisedTask,
};
use polyrev::planner::types::{TaskFiles, TaskPriority, UnifiedPlan, UnifiedTask};

#[test]
fn parser_test_parse_direct_json() {
    let json = r#"{
        "perspective": "architecture",
        "summary": "Modular design needed",
        "tasks": [
            {"title": "Add config", "rationale": "Config first"}
        ],
        "concerns": [],
        "questions": []
    }"#;
    let fragment = parse_plan_fragment(json, "architecture").unwrap();
    assert_eq!(fragment.perspective, "architecture");
    assert_eq!(fragment.tasks.len(), 1);
}

#[test]
fn parser_test_parse_markdown_wrapped() {
    let md = r#"
Here's my analysis:

```json
{
    "perspective": "security",
    "summary": "Several security considerations",
    "tasks": [{"title": "Add CSRF protection", "rationale": "Prevent attacks"}],
    "concerns": [{"description": "Token storage", "severity": "high"}],
    "questions": []
}
```
"#;
    let fragment = parse_plan_fragment(md, "security").unwrap();
    assert_eq!(fragment.perspective, "security");
    assert_eq!(fragment.tasks.len(), 1);
    assert_eq!(fragment.concerns.len(), 1);
}

#[test]
fn test_parse_with_missing_perspective() {
    let json = r#"{
        "summary": "Test",
        "tasks": [],
        "concerns": [],
        "questions": []
    }"#;
    let fragment = parse_plan_fragment(json, "testing").unwrap();
    assert_eq!(fragment.perspective, "testing");
}

#[test]
fn test_parse_fragment_synonym_keys() {
    let json = r#"{
        "summary": "alt",
        "proposed_tasks": [{"title": "A"}, {"rationale": "no title, dropped"}],
        "identified_concerns": [{"description": "C"}],
        "open_questions": [{"question": "Q?"}]
    }"#;
    let fragment = parse_plan_fragment(json, "alt").unwrap();
    assert_eq!(fragment.tasks.len(), 1);
    assert_eq!(fragment.concerns.len(), 1);
    assert_eq!(fragment.questions.len(), 1);
}

#[test]
fn test_parse_plan_fragment() {
    let json = r#"{
        "perspective": "architecture",
        "summary": "Need modular OAuth setup",
        "tasks": [
            {
                "title": "Add OAuth config schema",
                "rationale": "Config-first enables flexibility",
                "files": {
                    "target": ["src/config/oauth.rs"],
                    "context": ["src/config/mod.rs"]
                },
                "dependencies": [],
                "acceptance_criteria": [
                    {"criterion": "OAuthConfig struct defined", "verification": "compiles"}
                ]
            }
        ],
        "concerns": [
            {"description": "Async middleware needed", "severity": "medium", "affects": ["Add middleware"]}
        ],
        "questions": [
            {"question": "Redis or in-memory for state?", "options": ["redis", "memory"], "default": "memory"}
        ]
    }"#;
    let fragment = parse_plan_fragment(json, "architecture").unwrap();
    assert_eq!(fragment.perspective, "architecture");
    assert_eq!(fragment.tasks.len(), 1);
    assert_eq!(fragment.concerns.len(), 1);
    assert_eq!(fragment.questions.len(), 1);
}

#[test]
fn reducer_test_parse_unified_plan() {
    let json = r#"{
        "tasks": [
            {
                "id": "impl-001",
                "title": "Add config",
                "description": "Setup configuration",
                "depends_on": [],
                "perspectives": ["architecture"]
            }
        ],
        "questions": [],
        "risks": [],
        "summary": "1 task generated"
    }"#;
    let plan = try_parse_plan(json).unwrap();
    assert_eq!(plan.tasks.len(), 1);
    assert_eq!(plan.tasks[0].id, "impl-001");
}

#[test]
fn test_parse_with_questions_for_human() {
    let json = r#"{
        "tasks": [],
        "questions_for_human": [
            {"question": "Redis or memory?", "raised_by": ["arch", "security"]}
        ],
        "risks": []
    }"#;
    let plan = try_parse_plan(json).unwrap();
    assert_eq!(plan.questions.len(), 1);
}

#[test]
fn types_test_parse_unified_plan() {
    let json = r#"{
        "tasks": [
            {
                "id": "impl-001",
                "title": "Add OAuth config",
                "description": "Setup configuration for OAuth providers",
                "depends_on": [],
                "perspectives": ["architecture", "security"],
                "acceptance_criteria": []
            }
        ],
        "questions": [
            {
                "question": "Which state backend?",
                "raised_by": ["architecture", "security"],
                "options": ["redis", "memory"],
                "blocks": ["impl-002"]
            }
        ],
        "risks": [
            {
                "description": "Callback URL validation critical",
                "raised_by": ["security", "api"],
                "severity": "high",
                "mitigation": "Whitelist domains"
            }
        ],
        "summary": "12 tasks from 5 perspectives"
    }"#;
    let plan = parse_unified_plan(json).unwrap();
    assert_eq!(plan.tasks.len(), 1);
    assert_eq!(plan.questions.len(), 1);
    assert_eq!(plan.risks.len(), 1);
}

fn base_task(id: &str, title: &str) -> UnifiedTask {
    UnifiedTask {
        id: id.to_string(),
        title: title.to_string(),
        description: "old text".to_string(),
        files: TaskFiles { target: vec![], context: vec!["ctx.rs".to_string()] },
        depends_on: vec![],
        acceptance_criteria: vec![],
        perspectives: vec!["architecture".to_string()],
        workflow: None,
        priority: TaskPriority::High,
    }
}

fn base_plan() -> UnifiedPlan {
    UnifiedPlan {
        tasks: vec![base_task("impl-007", "Add config"), base_task("impl-008", "Wire it up")],
        questions: vec![],
        risks: vec![],
        deferred: vec![],
        summary: Some("orig".to_string()),
    }
}

#[test]
fn test_revision_preserves_ids_for_unchanged_titles() {
    let mut plan = base_plan();
    plan.questions = vec![polyrev::planner::types::UnifiedQuestion {
        question: "Which backend?".to_string(),
        context: "storage".to_string(),
        raised_by: vec!["architecture".to_string()],
        options: vec!["redis".to_string(), "memory".to_string()],
        blocks: vec!["impl-008".to_string()],
        answer: None,
    }];
    plan.risks = vec![polyrev::planner::types::Risk {
        description: "Callback validation".to_string(),
        raised_by: vec!["security".to_string()],
        severity: polyrev::planner::types::Severity::High,
        mitigation: Some("whitelist".to_string()),
    }];
    let yaml = "```yaml\ntasks:\n  - title: \"Add config\"\n    description: \"new words\"\n  - title: \"Wire it up\"\n    description: \"other words\"\n```";
    let revised = parse_revision_yaml(yaml, &plan).unwrap();
    assert_eq!(revised.tasks.len(), 2);
    assert_eq!(revised.tasks[0].id, "impl-007");
    assert_eq!(revised.tasks[1].id, "impl-008");
    assert_eq!(revised.tasks[0].description, "new words");
    assert_eq!(revised.tasks[0].perspectives, vec!["architecture".to_string()]);
    assert_eq!(revised.tasks[0].priority, TaskPriority::High);
    // questions, risks, deferred and the summary carry over unchanged
    assert_eq!(revised.questions.len(), 1);
    assert_eq!(revised.questions[0].question, "Which backend?");
    assert_eq!(revised.questions[0].blocks, vec!["impl-008".to_string()]);
    assert_eq!(revised.risks.len(), 1);
    assert_eq!(revised.risks[0].mitigation.as_deref(), Some("whitelist"));
    assert!(revised.deferred.is_empty());
    assert_eq!(revised.summary.as_deref(), Some("orig"));
}

#[test]
fn test_revision_mints_ids_for_new_titles() {
    let plan = base_plan();
    let yaml = "tasks:\n  - title: \"Entirely new\"\n";
    let revised = parse_revision_yaml(yaml, &plan).unwrap();
    assert_eq!(revised.tasks[0].id, "impl-001");
    assert_eq!(revised.tasks[0].priority, TaskPriority::Normal);
}

#[test]
fn test_revision_resolves_title_dependencies() {
    let revised = vec![
        RevisedTask {
            title: "Add config".to_string(),
            description: String::new(),
            acceptance_criteria: vec![],
            files: vec![],
            depends_on: vec![],
        },
        RevisedTask {
            title: "Brand new".to_string(),
            description: String::new(),
            acceptance_criteria: vec![],
            files: vec![],
            depends_on: vec![
                "Add config".to_string(),
                "impl-999".to_string(),
                "Unknown title".to_string(),
            ],
        },
    ];
    let orig = vec![base_task("impl-007", "Add config")];
    let merged = merge_revised_tasks(&revised, &orig);
    assert_eq!(merged[0].id, "impl-007");
    assert_eq!(merged[1].id, "impl-002");
    assert_eq!(
        merged[1].depends_on,
        vec!["impl-007".to_string(), "impl-999".to_string(), "Unknown title".to_string()]
    );
}

#[test]
fn test_revision_empty_tasks_is_error() {
    let plan = base_plan();
    let yaml = "tasks: []\n";
    assert!(parse_revision_yaml(yaml, &plan).is_err());
}

#[test]
fn test_extract_yaml_stages() {
    let fenced = "note\n```yaml\ntasks:\n  - title: \"A\"\n```";
    assert!(extract_yaml(fenced).unwrap().starts_with("tasks:"));
    let plain = "tasks:\n  - title: \"A\"\n";
    assert_eq!(extract_yaml(plain).unwrap(), plain.trim());
    let suffixed = ": not yaml [\ntasks:\n  - title: \"A\"\n";
    assert!(extract_yaml(suffixed).unwrap().starts_with("tasks:"));
}

#[test]
fn test_plan_parse_failure_is_error() {
    assert!(parse_unified_plan("no structure at all").is_err());
}

fn perspective(id: &str, enabled: bool) -> polyrev::planner::types::Perspective {
    polyrev::planner::types::Perspective {
        id: id.to_string(),
        name: id.to_uppercase(),
        focus: String::new(),
        prompt_file: "p.md".to_string(),
        enabled,
    }
}

#[test]
fn test_selected_perspective_indices() {
    let all = vec![
        perspective("architecture", true),
        perspective("testing", false),
        perspective("security", true),
    ];
    assert_eq!(selected_perspective_indices(&all, &None), vec![0, 2]);
    let filter = Some(vec!["security".to_string(), "testing".to_string()]);
    assert_eq!(selected_perspective_indices(&all, &filter), vec![2]);
}

#[test]
fn test_parse_selection_response() {
    let wrapped = r#"{"result": "{\"selected\": [\"security\", \"generalist\"], \"reasoning\": \"because\"}"}"#;
    let selection = parse_selection_response(wrapped).unwrap();
    assert_eq!(selection.selected, vec!["security", "generalist"]);
    assert_eq!(selection.reasoning, "because");
    let direct = r#"{"selected": ["api"]}"#;
    let selection = parse_selection_response(direct).unwrap();
    assert_eq!(selection.selected, vec!["api"]);
    assert_eq!(selection.reasoning, "");
    assert!(parse_selection_response("none here").is_err());
}

#[test]
fn test_parse_owes_success_when_json_extractable() {
    // the generic shapes never refuse, so any extractable JSON gives a value
    assert!(parse_plan_fragment("```json\n[1, 2]\n```", "x").is_ok());
    assert!(try_parse_plan("[1, 2, 3]").is_some());
    assert!(parse_unified_plan("{\"anything\": true}").is_ok());
    // text with no recoverable JSON owes the error
    assert!(parse_plan_fragment("no json here", "x").is_err());
    assert!(parse_unified_plan("{broken").is_err());
}

#[test]
fn test_apply_selection_keeps_fallback() {
    let all = vec![
        perspective("architecture", true),
        perspective("generalist", true),
        perspective("security", true),
        perspective("testing", false),
    ];
    let selected = vec!["security".to_string(), "testing".to_string()];
    // the fallback survives even when unselected; disabled ids never do
    assert_eq!(apply_selection(&all, &selected, "generalist"), vec![1, 2]);
}

#[test]
fn test_build_selection_list() {
    let all = vec![perspective("api", true), perspective("testing", false), perspective("security", true)];
    assert_eq!(
        build_selection_list(&all),
        "- **API** (id: `api`): \n- **SECURITY** (id: `security`): "
    );
}

#[test]
fn test_build_perspective_and_reducer_prompts() {
    assert_eq!(
        build_perspective_prompt("T", "S", "N", "F"),
        "T\n\n## Feature/Task to Plan\n\nS\n\n## Your Perspective: N\n\nFocus: F"
    );
    assert_eq!(
        build_reducer_prompt("T", "[1]"),
        "T\n\n## Input Fragments\n\n```json\n[1]\n```"
    );
}

#[test]
fn test_build_revision_prompt() {
    let mut plan = base_plan();
    plan.tasks.truncate(1);
    plan.tasks[0].acceptance_criteria = vec![polyrev::planner::types::AcceptanceCriterion {
        criterion: "it \"works\"".to_string(),
        verification: String::new(),
    }];
    plan.tasks[0].files.target = vec!["src/a.rs".to_string()];
    plan.tasks[0].description = "line one\nline two".to_string();
    let answers = vec![("Q1?".to_string(), "A1".to_string()), ("Q2?".to_string(), "A2".to_string())];
    let prompt = build_revision_prompt("TPL", &plan, &answers);
    assert!(prompt.starts_with("TPL\n\n## Original Tasks\n\n```yaml\ntasks:\n"));
    assert!(prompt.contains("  - title: \"Add config\"\n    description: \"line one line two\"\n"));
    assert!(prompt.contains("    acceptance_criteria:\n      - \"it 'works'\"\n"));
    assert!(prompt.contains("    files:\n      - \"src/a.rs\"\n"));
    assert!(prompt.contains("1. Q: Q1?\n   A: A1\n\n2. Q: Q2?\n   A: A2"));
    assert!(prompt.ends_with("Output the complete revised task list as YAML."));
}

#[test]
fn test_sanitize_plan_name() {
    assert_eq!(
        sanitize_plan_name("Add OAuth2 Support, For The New API!\nsecond line ignored"),
        "add-oauth2-support-for-the"
    );
    assert_eq!(sanitize_plan_name("Two words"), "two-words");
    assert_eq!(sanitize_plan_name(""), "");
}

#[test]
fn test_reduction_result_counts() {
    let fragments = vec![
        polyrev::planner::types::PlanFragment {
            perspective: "a".to_string(),
            summary: String::new(),
            tasks: vec![
                polyrev::planner::types::FragmentTask {
                    title: "t1".to_string(),
                    rationale: String::new(),
                    files: TaskFiles { target: vec![], context: vec![] },
                    dependencies: vec![],
                    acceptance_criteria: vec![],
                    complexity: None,
                },
                polyrev::planner::types::FragmentTask {
                    title: "t2".to_string(),
                    rationale: String::new(),
                    files: TaskFiles { target: vec![], context: vec![] },
                    dependencies: vec![],
                    acceptance_criteria: vec![],
                    complexity: None,
                },
            ],
            concerns: vec![],
            questions: vec![],
        },
    ];
    let result = reduction_result(base_plan(), &fragments);
    assert_eq!(result.fragment_count, 1);
    assert_eq!(result.task_count_before, 2);
    assert_eq!(result.task_count_after, 2);
}
