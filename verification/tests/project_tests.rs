use ralph_hook_fmt::host::HostView;
use ralph_hook_fmt::project::{
    find_cargo_root, find_go_root, find_java_root, find_node_root, find_project_root,
    find_python_root,
};

fn host_with_paths(existing: Vec<&str>) -> HostView {
    HostView {
        existing: existing.into_iter().map(|s| s.to_string()).collect(),
        commands: Vec::new(),
    }
}

#[test]
fn test_find_cargo_root() {
    let host = host_with_paths(vec!["/tmp/my_project/Cargo.toml"]);
    let root = find_cargo_root("/tmp/my_project/src/main.rs", &host).unwrap();
    assert_eq!(root, "/tmp/my_project");
}

#[test]
fn test_find_node_root() {
    let host = host_with_paths(vec!["/tmp/my_project/package.json"]);
    let root = find_node_root("/tmp/my_project/src/index.js", &host).unwrap();
    assert_eq!(root, "/tmp/my_project");
}

#[test]
fn test_find_root_any_depth() {
    let host = host_with_paths(vec!["/a/Cargo.toml"]);
    assert_eq!(find_cargo_root("/a/f.rs", &host).unwrap(), "/a");
    assert_eq!(find_cargo_root("/a/b/f.rs", &host).unwrap(), "/a");
    assert_eq!(find_cargo_root("/a/b/c/d/e/f/g/f.rs", &host).unwrap(), "/a");
}

#[test]
fn test_find_root_none_without_marker() {
    let host = host_with_paths(vec!["/a/README"]);
    assert!(find_cargo_root("/a/b/c/f.rs", &host).is_none());
    assert!(find_node_root("/a/b/c/f.js", &host).is_none());
    assert!(find_go_root("/a/b/c/f.go", &host).is_none());
}

#[test]
fn test_find_root_nearest_wins() {
    let host = host_with_paths(vec!["/m/package.json", "/m/packages/p/package.json"]);
    assert_eq!(find_node_root("/m/packages/p/src/i.js", &host).unwrap(), "/m/packages/p");
    assert_eq!(find_node_root("/m/other/i.js", &host).unwrap(), "/m");
}

#[test]
fn test_find_python_root_accepts_either_marker() {
    let host = host_with_paths(vec!["/p1/pyproject.toml", "/p2/setup.py"]);
    assert_eq!(find_python_root("/p1/src/a.py", &host).unwrap(), "/p1");
    assert_eq!(find_python_root("/p2/src/a.py", &host).unwrap(), "/p2");
}

#[test]
fn test_find_java_root_accepts_any_marker() {
    let host = host_with_paths(vec!["/j1/pom.xml", "/j2/build.gradle", "/j3/build.gradle.kts"]);
    assert_eq!(find_java_root("/j1/src/A.java", &host).unwrap(), "/j1");
    assert_eq!(find_java_root("/j2/src/A.java", &host).unwrap(), "/j2");
    assert_eq!(find_java_root("/j3/src/A.java", &host).unwrap(), "/j3");
}

#[test]
fn test_find_project_root_generic_markers() {
    let host = host_with_paths(vec!["/r/.git"]);
    assert_eq!(find_project_root("/r/docs/x.md", &host).unwrap(), "/r");
    let host2 = host_with_paths(vec!["/r/go.mod"]);
    assert_eq!(find_project_root("/r/x.yaml", &host2).unwrap(), "/r");
}

#[test]
fn test_find_root_marker_at_filesystem_root() {
    let host = host_with_paths(vec!["/go.mod"]);
    assert_eq!(find_go_root("/deep/down/main.go", &host).unwrap(), "/");
}

#[test]
fn test_find_root_relative_path() {
    let host = host_with_paths(vec!["pkg/Cargo.toml"]);
    assert_eq!(find_cargo_root("pkg/src/lib.rs", &host).unwrap(), "pkg");
}
