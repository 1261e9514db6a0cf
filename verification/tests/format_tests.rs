use ralph_hook_fmt::dispatch::{Dispatcher, ExecOutcome};
use ralph_hook_fmt::format::{format_file, FormatResult, Resolution};
use ralph_hook_fmt::host::HostView;

fn host_with(existing: Vec<&str>, commands: Vec<&str>) -> HostView {
    HostView {
        existing: existing.into_iter().map(|s| s.to_string()).collect(),
        commands: commands.into_iter().map(|s| s.to_string()).collect(),
    }
}

/// Drive dispatch to its end as if no candidate's process could be started.
fn finish_without_running(r: Resolution) -> FormatResult {
    let mut d = Dispatcher::new(r);
    while let Some(_inv) = d.next_invocation() {
        d.step(&ExecOutcome::SpawnFailed);
    }
    d.into_result()
}

#[test]
fn test_format_result_success() {
    let result = FormatResult::success("prettier");
    assert!(result.formatted);
    assert_eq!(result.formatter, Some("prettier".to_string()));
}

#[test]
fn test_format_result_no_formatter() {
    let result = FormatResult::no_formatter("JavaScript");
    assert!(!result.formatted);
    assert!(result.formatter.is_none());
}

#[test]
fn test_format_result_unsupported() {
    let result = FormatResult::unsupported("xyz");
    assert!(!result.formatted);
    assert!(result.message.contains("xyz"));
}

#[test]
fn test_unsupported_extension() {
    let host = host_with(vec![], vec![]);
    let result = finish_without_running(format_file("/path/to/file.unknown", &host, false));
    assert!(!result.formatted);
    assert!(result.message.contains("Unsupported"));
}

#[test]
fn test_skip_package_json() {
    let host = host_with(vec![], vec![]);
    let result = finish_without_running(format_file("/path/to/package.json", &host, false));
    assert!(!result.formatted);
    assert!(result.message.contains("Skipped package.json"));
}

#[test]
fn test_message_formulas() {
    assert_eq!(FormatResult::success("gofmt").message, "Formatted with gofmt");
    assert_eq!(FormatResult::no_formatter("Go").message, "No formatter found for Go");
    assert_eq!(
        FormatResult::unsupported("xyz").message,
        "Unsupported file extension: xyz"
    );
    let e = FormatResult::error("black", "boom");
    assert_eq!(e.message, "black error: boom");
    assert_eq!(e.formatter, Some("black".to_string()));
    assert!(!e.formatted);
}

#[test]
fn scenario_unsupported_extension_exact_result() {
    let raw = r#"{"tool_input":{"file_path":"/tmp/x/file.xyz"}}"#;
    let path = ralph_hook_fmt::extract::extract_file_path(raw).unwrap();
    assert_eq!(path, "/tmp/x/file.xyz");
    let host = host_with(vec![], vec![]);
    let result = finish_without_running(format_file(&path, &host, false));
    assert!(!result.formatted);
    assert!(result.formatter.is_none());
    assert_eq!(result.message, "Unsupported file extension: xyz");
}

#[test]
fn test_family_labels_for_all_extensions() {
    let cases = vec![
        ("js", "JavaScript/TypeScript"),
        ("jsx", "JavaScript/TypeScript"),
        ("ts", "JavaScript/TypeScript"),
        ("tsx", "JavaScript/TypeScript"),
        ("mjs", "JavaScript/TypeScript"),
        ("cjs", "JavaScript/TypeScript"),
        ("rs", "Rust"),
        ("py", "Python"),
        ("pyi", "Python"),
        ("java", "Java"),
        ("go", "Go"),
        ("json", "JSON"),
        ("jsonc", "JSON"),
        ("json5", "JSON"),
        ("yaml", "YAML"),
        ("yml", "YAML"),
        ("toml", "TOML"),
        ("html", "HTML"),
        ("htm", "HTML"),
        ("vue", "Vue"),
        ("css", "CSS"),
        ("scss", "SCSS"),
        ("less", "Less"),
        ("md", "Markdown"),
        ("markdown", "Markdown"),
        ("mdx", "MDX"),
        ("graphql", "GraphQL"),
        ("gql", "GraphQL"),
        ("hbs", "Handlebars"),
        ("handlebars", "Handlebars"),
    ];
    for (ext, label) in cases {
        let host = host_with(vec![], vec![]);
        let path = format!("/t/file.{}", ext);
        match format_file(&path, &host, false) {
            Resolution::Candidates { family, list: _ } => assert_eq!(family, label),
            _ => panic!("extension {} should have a family", ext),
        }
    }
}

#[test]
fn scenario_package_json_skipped_exact_message() {
    let host = host_with(vec!["/tmp/proj/package.json"], vec![]);
    let result = finish_without_running(format_file("/tmp/proj/package.json", &host, false));
    assert!(!result.formatted);
    assert!(result.formatter.is_none());
    assert_eq!(result.message, "Skipped package.json");
}

#[test]
fn scenario_rust_file_uses_build_tool_from_root() {
    let host = host_with(vec!["/work/proj/Cargo.toml"], vec![]);
    let r = format_file("/work/proj/src/deep/main.rs", &host, false);
    let mut d = Dispatcher::new(r);
    let inv = d.next_invocation().unwrap();
    assert_eq!(inv.program, "cargo");
    assert_eq!(inv.args, vec!["fmt".to_string(), "--".to_string(), "/work/proj/src/deep/main.rs".to_string()]);
    assert_eq!(inv.cwd, Some("/work/proj".to_string()));
    d.step(&ExecOutcome::Exited { success: true, stderr: String::new() });
    let result = d.into_result();
    assert!(result.formatted);
    assert_eq!(result.formatter, Some("cargo fmt".to_string()));
    assert_eq!(result.message, "Formatted with cargo fmt");
}

#[test]
fn scenario_json_without_any_oxfmt_reports_none() {
    let host = host_with(vec!["/srv/app/package.json"], vec![]);
    let result = finish_without_running(format_file("/srv/app/data/test.json", &host, false));
    assert!(!result.formatted);
    assert!(result.formatter.is_none());
    assert_eq!(result.message, "No formatter found for JSON");
}

#[test]
fn test_resolution_is_deterministic() {
    let host = host_with(
        vec!["/m/package.json", "/m/node_modules/.bin/oxfmt", "/m/node_modules/.bin/prettier"],
        vec!["oxfmt", "dprint"],
    );
    let a = format_file("/m/src/app.ts", &host, false);
    let b = format_file("/m/src/app.ts", &host, false);
    match (a, b) {
        (
            Resolution::Candidates { family: fa, list: la },
            Resolution::Candidates { family: fb, list: lb },
        ) => {
            assert_eq!(fa, fb);
            assert_eq!(la.len(), lb.len());
            for (x, y) in la.iter().zip(lb.iter()) {
                assert_eq!(x.name, y.name);
                assert_eq!(x.project_local, y.project_local);
                assert_eq!(x.terminal_on_failure, y.terminal_on_failure);
                assert_eq!(x.invocations.len(), y.invocations.len());
                for (p, q) in x.invocations.iter().zip(y.invocations.iter()) {
                    assert_eq!(p.program, q.program);
                    assert_eq!(p.args, q.args);
                    assert_eq!(p.cwd, q.cwd);
                }
            }
        },
        _ => panic!("expected candidate lists"),
    }
}

#[test]
fn test_js_local_preferred_over_global() {
    let host = host_with(
        vec!["/m/package.json", "/m/node_modules/.bin/prettier"],
        vec!["oxfmt", "dprint"],
    );
    match format_file("/m/src/app.jsx", &host, false) {
        Resolution::Candidates { family, list } => {
            assert_eq!(family, "JavaScript/TypeScript");
            assert_eq!(list.len(), 3);
            assert_eq!(list[0].name, "prettier");
            assert!(list[0].project_local);
            assert_eq!(list[0].invocations[0].program, "/m/node_modules/.bin/prettier");
            assert_eq!(list[1].name, "oxfmt");
            assert!(!list[1].project_local);
            assert_eq!(list[2].name, "dprint");
            assert_eq!(list[2].invocations[0].args, vec!["fmt".to_string(), "/m/src/app.jsx".to_string()]);
        },
        _ => panic!("expected candidate lists"),
    }
}

#[test]
fn test_js_local_priority_order() {
    let host = host_with(
        vec![
            "/m/package.json",
            "/m/node_modules/.bin/oxfmt",
            "/m/node_modules/.bin/biome",
            "/m/node_modules/.bin/prettier",
        ],
        vec![],
    );
    match format_file("/m/index.js", &host, false) {
        Resolution::Candidates { family: _, list } => {
            assert_eq!(list.len(), 3);
            assert_eq!(list[0].name, "oxfmt");
            assert_eq!(list[1].name, "biome");
            assert_eq!(
                list[1].invocations[0].args,
                vec!["format".to_string(), "--write".to_string(), "/m/index.js".to_string()]
            );
            assert_eq!(list[2].name, "prettier");
        },
        _ => panic!("expected candidate lists"),
    }
}

#[test]
fn test_oxfmt_local_preferred_over_global() {
    let host = host_with(
        vec!["/repo/.git", "/repo/node_modules/.bin/oxfmt"],
        vec!["oxfmt"],
    );
    match format_file("/repo/docs/readme.md", &host, false) {
        Resolution::Candidates { family, list } => {
            assert_eq!(family, "Markdown");
            assert_eq!(list.len(), 2);
            assert!(list[0].project_local);
            assert_eq!(list[0].invocations[0].program, "/repo/node_modules/.bin/oxfmt");
            assert!(!list[1].project_local);
            assert_eq!(list[1].invocations[0].program, "oxfmt");
        },
        _ => panic!("expected candidate lists"),
    }
}

#[test]
fn test_python_global_chain_order() {
    let host = host_with(vec![], vec!["ruff", "black", "autopep8", "yapf"]);
    match format_file("/any/t.py", &host, false) {
        Resolution::Candidates { family, list } => {
            assert_eq!(family, "Python");
            assert_eq!(list.len(), 4);
            assert_eq!(list[0].name, "ruff");
            assert_eq!(list[0].invocations[0].args, vec!["format".to_string(), "/any/t.py".to_string()]);
            assert_eq!(list[1].name, "black");
            assert_eq!(list[1].invocations[0].args, vec!["/any/t.py".to_string()]);
            assert_eq!(list[2].name, "autopep8");
            assert_eq!(list[2].invocations[0].args, vec!["--in-place".to_string(), "/any/t.py".to_string()]);
            assert_eq!(list[3].name, "yapf");
            assert_eq!(list[3].invocations[0].args, vec!["-i".to_string(), "/any/t.py".to_string()]);
        },
        _ => panic!("expected candidate lists"),
    }
}

#[test]
fn test_python_project_only_uses_venv() {
    let host = host_with(
        vec!["/py/pyproject.toml", "/py/venv/bin/black"],
        vec!["ruff", "black"],
    );
    match format_file("/py/src/m.pyi", &host, true) {
        Resolution::Candidates { family, list } => {
            assert_eq!(family, "Python");
            assert_eq!(list.len(), 1);
            assert_eq!(list[0].name, "black");
            assert!(list[0].project_local);
            assert_eq!(list[0].invocations[0].program, "/py/venv/bin/black");
        },
        _ => panic!("expected candidate lists"),
    }
}

#[test]
fn test_java_prefers_maven_then_vendored_gradle() {
    let host = host_with(
        vec!["/j/pom.xml", "/j/build.gradle", "/j/gradlew"],
        vec!["google-java-format", "palantir-java-format"],
    );
    match format_file("/j/src/Main.java", &host, false) {
        Resolution::Candidates { family, list } => {
            assert_eq!(family, "Java");
            assert_eq!(list.len(), 4);
            assert_eq!(list[0].name, "spotless (Maven)");
            assert_eq!(list[0].invocations[0].program, "mvn");
            assert_eq!(
                list[0].invocations[0].args,
                vec!["spotless:apply".to_string(), "-DspotlessFiles=/j/src/Main.java".to_string()]
            );
            assert_eq!(list[0].invocations[0].cwd, Some("/j".to_string()));
            assert_eq!(list[1].name, "spotless (Gradle)");
            assert_eq!(list[1].invocations[0].program, "/j/gradlew");
            assert!(list[1].project_local);
            assert_eq!(list[2].name, "google-java-format");
            assert_eq!(list[3].name, "palantir-java-format");
        },
        _ => panic!("expected candidate lists"),
    }
}

#[test]
fn test_java_gradle_without_launcher_uses_global_gradle() {
    let host = host_with(vec!["/j/build.gradle.kts"], vec![]);
    match format_file("/j/a/b/Main.java", &host, false) {
        Resolution::Candidates { family: _, list } => {
            assert_eq!(list.len(), 1);
            assert_eq!(list[0].name, "spotless (Gradle)");
            assert_eq!(list[0].invocations[0].program, "gradle");
            assert!(!list[0].project_local);
            assert_eq!(list[0].invocations[0].args, vec!["spotlessApply".to_string()]);
        },
        _ => panic!("expected candidate lists"),
    }
}

#[test]
fn test_go_candidate_order_and_cwd() {
    let host = host_with(vec!["/g/go.mod"], vec!["goimports", "gofumpt", "gofmt"]);
    match format_file("/g/cmd/main.go", &host, false) {
        Resolution::Candidates { family, list } => {
            assert_eq!(family, "Go");
            assert_eq!(list.len(), 4);
            assert_eq!(list[0].name, "goimports + gofumpt");
            assert_eq!(list[0].invocations.len(), 2);
            assert_eq!(list[0].invocations[0].program, "goimports");
            assert_eq!(list[0].invocations[1].program, "gofumpt");
            assert_eq!(list[0].invocations[0].cwd, Some("/g".to_string()));
            assert_eq!(list[1].name, "gofumpt");
            assert_eq!(list[2].name, "goimports");
            assert_eq!(list[3].name, "gofmt");
            assert!(list[3].terminal_on_failure);
            assert!(!list[0].terminal_on_failure);
        },
        _ => panic!("expected candidate lists"),
    }
}

#[test]
fn test_go_project_only_without_module_has_no_candidates() {
    let host = host_with(vec![], vec!["gofmt"]);
    let result = finish_without_running(format_file("/g/main.go", &host, true));
    assert!(!result.formatted);
    assert_eq!(result.message, "No formatter found for Go");
}

#[test]
fn test_rust_project_only_skips_global_rustfmt() {
    let host = host_with(vec![], vec!["rustfmt"]);
    match format_file("/r/lib.rs", &host, true) {
        Resolution::Candidates { family, list } => {
            assert_eq!(family, "Rust");
            assert_eq!(list.len(), 0);
        },
        _ => panic!("expected candidate lists"),
    }
    let host2 = host_with(vec![], vec!["rustfmt"]);
    match format_file("/r/lib.rs", &host2, false) {
        Resolution::Candidates { family: _, list } => {
            assert_eq!(list.len(), 1);
            assert_eq!(list[0].name, "rustfmt");
            assert_eq!(list[0].invocations[0].args, vec!["/r/lib.rs".to_string()]);
        },
        _ => panic!("expected candidate lists"),
    }
}

#[test]
fn test_python_venv_order_is_formatter_major() {
    let host = host_with(
        vec![
            "/py/setup.py",
            "/py/.venv/bin/ruff",
            "/py/venv/bin/ruff",
            "/py/.venv/bin/yapf",
        ],
        vec![],
    );
    match format_file("/py/a/b.py", &host, true) {
        Resolution::Candidates { family: _, list } => {
            assert_eq!(list.len(), 3);
            assert_eq!(list[0].invocations[0].program, "/py/.venv/bin/ruff");
            assert_eq!(list[1].invocations[0].program, "/py/venv/bin/ruff");
            assert_eq!(list[2].invocations[0].program, "/py/.venv/bin/yapf");
        },
        _ => panic!("expected candidate lists"),
    }
}

#[test]
fn test_js_project_only_skips_globals() {
    let host = host_with(vec!["/m/package.json"], vec!["oxfmt", "dprint"]);
    match format_file("/m/a.mjs", &host, true) {
        Resolution::Candidates { family, list } => {
            assert_eq!(family, "JavaScript/TypeScript");
            assert_eq!(list.len(), 0);
        },
        _ => panic!("expected candidate lists"),
    }
}

#[test]
fn test_hidden_file_has_no_extension() {
    let host = host_with(vec![], vec![]);
    let result = finish_without_running(format_file("/home/u/.gitignore", &host, false));
    assert_eq!(result.message, "Unsupported file extension: ");
}

#[test]
fn test_nested_package_json_is_skipped_too() {
    let host = host_with(vec![], vec!["oxfmt"]);
    let result = finish_without_running(format_file("/m/packages/app/package.json", &host, false));
    assert_eq!(result.message, "Skipped package.json");
}

#[test]
fn test_extension_is_case_sensitive_and_verbatim() {
    let host = host_with(vec![], vec![]);
    let result = finish_without_running(format_file("/x/NOTES.MD", &host, false));
    assert_eq!(result.message, "Unsupported file extension: MD");
    let host2 = host_with(vec![], vec![]);
    let result2 = finish_without_running(format_file("/x/noext", &host2, false));
    assert_eq!(result2.message, "Unsupported file extension: ");
}
