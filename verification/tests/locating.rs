use backend_supervisor::errors::LauncherError;
use backend_supervisor::locate::candidate_paths;
use backend_supervisor::locate::select_binary;

fn strings(v: &[&str]) -> Vec<String> {
    v.iter().map(|s| s.to_string()).collect()
}

#[test]
fn candidates_development_layout() {
    let r = candidate_paths(true, Some("/proj/src-tauri"), "/app");
    let expected = strings(&[
        "/proj/src-tauri/bin/whodb-core.exe",
        "/proj/src-tauri/bin/whodb-core",
        "/app/whodb-core",
        "/app/resources/whodb-core",
        "/app/../resources/whodb-core",
        "/app/whodb-core.exe",
        "/app/resources/whodb-core.exe",
        "/app/../resources/whodb-core.exe",
        "/app/bin/whodb-core",
        "/app/resources/bin/whodb-core",
        "/app/../resources/bin/whodb-core",
        "/app/bin/whodb-core.exe",
        "/app/resources/bin/whodb-core.exe",
        "/app/../resources/bin/whodb-core.exe",
    ]);
    assert_eq!(r, expected);
}

#[test]
fn candidates_release_layout_skips_source_tree() {
    let r = candidate_paths(false, Some("/proj/src-tauri"), "/opt/pkg");
    assert_eq!(r.len(), 12);
    assert_eq!(r[0], "/opt/pkg/whodb-core");
    assert_eq!(r[1], "/opt/pkg/resources/whodb-core");
    assert_eq!(r[2], "/opt/pkg/../resources/whodb-core");
    assert_eq!(r[11], "/opt/pkg/../resources/bin/whodb-core.exe");
}

#[test]
fn candidates_without_source_tree_location() {
    let with_debug = candidate_paths(true, None, "/app");
    let without_debug = candidate_paths(false, None, "/app");
    assert_eq!(with_debug, without_debug);
    assert_eq!(with_debug.len(), 12);
}

#[test]
fn select_returns_first_existing() {
    let candidates = strings(&["A", "B", "C"]);
    let present = vec![false, true, true];
    let r = select_binary(candidates, &present);
    assert_eq!(r, Ok("B".to_string()));
}

#[test]
fn select_prefers_earliest_candidate() {
    let candidates = strings(&["A", "B"]);
    let present = vec![true, true];
    let r = select_binary(candidates, &present);
    assert_eq!(r, Ok("A".to_string()));
}

#[test]
fn select_reports_every_searched_path() {
    let candidates = strings(&["A", "B", "C"]);
    let present = vec![false, false, false];
    match select_binary(candidates, &present) {
        Ok(p) => panic!("found a binary at {} where none exists", p),
        Err(LauncherError::BinaryNotFound { searched }) => {
            assert_eq!(searched, strings(&["A", "B", "C"]));
        }
        Err(e) => panic!("wrong error kind: {}", e.kind()),
    }
}

#[test]
fn select_with_no_candidates_fails() {
    let r = select_binary(Vec::new(), &Vec::new());
    assert_eq!(r, Err(LauncherError::BinaryNotFound { searched: Vec::new() }));
}

#[test]
fn searched_paths_accessor() {
    let e = LauncherError::BinaryNotFound { searched: strings(&["x", "y"]) };
    assert_eq!(e.searched_paths(), Some(&strings(&["x", "y"])));
    assert_eq!(LauncherError::Spawn.searched_paths(), None);
}
