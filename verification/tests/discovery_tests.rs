use polyrev::config::{Priority, Provider, Reviewer};
use polyrev::discovery::{chunk_files, discover_files_for_reviewer, ScopeFiles};

fn file_names(n: usize) -> Vec<String> {
    (0..n).map(|i| format!("file{}.py", i)).collect()
}

#[test]
fn test_chunk_files_small() {
    let files = file_names(3);
    let chunks = chunk_files(&files, 10);
    assert_eq!(chunks.len(), 1);
    assert_eq!(chunks[0].len(), 3);
}

#[test]
fn test_chunk_files_exact() {
    let files = file_names(10);
    let chunks = chunk_files(&files, 5);
    assert_eq!(chunks.len(), 2);
    assert_eq!(chunks[0].len(), 5);
    assert_eq!(chunks[1].len(), 5);
}

#[test]
fn test_chunk_files_remainder() {
    let files = file_names(7);
    let chunks = chunk_files(&files, 3);
    assert_eq!(chunks.len(), 3);
    assert_eq!(chunks[0].len(), 3);
    assert_eq!(chunks[1].len(), 3);
    assert_eq!(chunks[2].len(), 1);
}

#[test]
fn test_chunk_files_zero_size_keeps_whole_list() {
    let files = file_names(4);
    let chunks = chunk_files(&files, 0);
    assert_eq!(chunks.len(), 1);
    assert_eq!(chunks[0], files);
}

#[test]
fn test_chunk_files_preserves_order_and_content() {
    let files = file_names(5);
    let chunks = chunk_files(&files, 2);
    let rejoined: Vec<String> = chunks.into_iter().flatten().collect();
    assert_eq!(rejoined, files);
}

fn unit_with_scopes(scopes: Vec<&str>) -> Reviewer {
    Reviewer {
        id: "u".to_string(),
        name: "U".to_string(),
        enabled: true,
        provider: Provider::ClaudeCli,
        scopes: scopes.into_iter().map(|s| s.to_string()).collect(),
        prompt_file: "p.md".to_string(),
        priority_default: Priority::P1,
        max_files: None,
        timeout_sec: None,
        command_override: None,
    }
}

fn scope_files(name: &str, files: Vec<&str>) -> ScopeFiles {
    ScopeFiles {
        name: name.to_string(),
        files: files.into_iter().map(|s| s.to_string()).collect(),
    }
}

#[test]
fn test_discover_union_dedup_sorted() {
    let unit = unit_with_scopes(vec!["a", "b"]);
    let resolved = vec![
        scope_files("a", vec!["z.py", "m.py"]),
        scope_files("b", vec!["m.py", "a.py"]),
        scope_files("unreferenced", vec!["x.py"]),
    ];
    let files = discover_files_for_reviewer(&unit, &resolved, &None);
    assert_eq!(files, vec!["a.py", "m.py", "z.py"]);
}

#[test]
fn test_discover_changed_filter() {
    let unit = unit_with_scopes(vec!["a"]);
    let resolved = vec![scope_files("a", vec!["z.py", "m.py", "k.py"])];
    let changed = Some(vec!["m.py".to_string(), "z.py".to_string()]);
    let files = discover_files_for_reviewer(&unit, &resolved, &changed);
    assert_eq!(files, vec!["m.py", "z.py"]);
}

#[test]
fn test_discover_empty_scope_gives_empty() {
    let unit = unit_with_scopes(vec!["missing"]);
    let resolved = vec![scope_files("a", vec!["z.py"])];
    let files = discover_files_for_reviewer(&unit, &resolved, &None);
    assert!(files.is_empty());
}
