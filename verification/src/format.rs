//! Formatter resolution: the data model for formatter candidates and the
//! outcome record, plus the per-family candidate tables.
//!
//! A candidate is one concrete way to format the file: a display name and
//! one or two process invocations (program, arguments, optional working
//! directory).  Families differ in how a failing exit is treated: where
//! `terminal_on_failure` is set, a candidate that runs and fails ends the
//! whole dispatch with its error; otherwise the next candidate is tried.

use vstd::prelude::*;
use vstd::string::*;

use crate::host::HostView;
use crate::paths::join_of;
use crate::paths::join_path;
use crate::project::{
    cargo_markers, find_cargo_root, find_go_root, find_java_root, find_node_root,
    find_project_root, find_python_root, find_root_spec, generic_markers, go_markers,
    java_markers, node_markers, python_markers,
};

use crate::paths::{extension_of, file_name, file_name_of};
use crate::paths::extension;
use crate::strutil::{str_concat, str_eq};

verus! {

/// One process invocation: program, full argument list, and the working
/// directory it should run in, if any.
pub struct Invocation {
    pub program: String,
    pub args: Vec<String>,
    pub cwd: Option<String>,
}

/// Specification-level mirror of [`Invocation`].
pub ghost struct InvocationView {
    pub program: Seq<char>,
    pub args: Seq<Seq<char>>,
    pub cwd: Option<Seq<char>>,
}

impl View for Invocation {
    type V = InvocationView;

    open spec fn view(&self) -> InvocationView {
        InvocationView {
            program: self.program@,
            args: self.args.deep_view(),
            cwd: self.cwd.deep_view(),
        }
    }
}

/// One orderable option for formatting the file.  `project_local` records
/// whether the program is a binary vendored inside the project rather than
/// one found on the host's search path.
pub struct Candidate {
    pub name: String,
    pub project_local: bool,
    pub terminal_on_failure: bool,
    pub invocations: Vec<Invocation>,
}

/// Specification-level mirror of [`Candidate`].
pub ghost struct CandidateView {
    pub name: Seq<char>,
    pub project_local: bool,
    pub terminal_on_failure: bool,
    pub invocations: Seq<InvocationView>,
}

impl View for Candidate {
    type V = CandidateView;

    open spec fn view(&self) -> CandidateView {
        CandidateView {
            name: self.name@,
            project_local: self.project_local,
            terminal_on_failure: self.terminal_on_failure,
            invocations: self.invocations@.map_values(|i: Invocation| i@),
        }
    }
}

/// The view of a candidate list.
pub open spec fn cands_view(v: Seq<Candidate>) -> Seq<CandidateView> {
    v.map_values(|c: Candidate| c@)
}

/// Every candidate offers at least one invocation to run.
pub open spec fn cands_wf(list: Seq<CandidateView>) -> bool {
    forall|i: int| 0 <= i < list.len() ==> #[trigger] list[i].invocations.len() >= 1
}

/// A single-invocation candidate.
pub open spec fn simple_cand(
    name: Seq<char>,
    program: Seq<char>,
    args: Seq<Seq<char>>,
    cwd: Option<Seq<char>>,
    project_local: bool,
    terminal_on_failure: bool,
) -> CandidateView {
    CandidateView {
        name,
        project_local,
        terminal_on_failure,
        invocations: seq![InvocationView { program, args, cwd }],
    }
}

/// A one-element argument vector.
fn vec1(a: &str) -> (v: Vec<String>)
    ensures
        v.deep_view() == seq![a@],
{
    let mut v: Vec<String> = Vec::new();
    v.push(String::from_str(a));
    proof {
        assert(v.deep_view() =~= seq![a@]);
    }
    v
}

/// A two-element argument vector.
fn vec2(a: &str, b: &str) -> (v: Vec<String>)
    ensures
        v.deep_view() == seq![a@, b@],
{
    let mut v: Vec<String> = Vec::new();
    v.push(String::from_str(a));
    v.push(String::from_str(b));
    proof {
        assert(v.deep_view() =~= seq![a@, b@]);
    }
    v
}

/// A three-element argument vector.
fn vec3(a: &str, b: &str, c: &str) -> (v: Vec<String>)
    ensures
        v.deep_view() == seq![a@, b@, c@],
{
    let mut v: Vec<String> = Vec::new();
    v.push(String::from_str(a));
    v.push(String::from_str(b));
    v.push(String::from_str(c));
    proof {
        assert(v.deep_view() =~= seq![a@, b@, c@]);
    }
    v
}

/// Build a candidate with a single invocation.
fn make_candidate(
    name: &str,
    program: String,
    args: Vec<String>,
    cwd: Option<String>,
    project_local: bool,
    terminal_on_failure: bool,
) -> (c: Candidate)
    ensures
        c@ == simple_cand(
            name@,
            program@,
            args.deep_view(),
            cwd.deep_view(),
            project_local,
            terminal_on_failure,
        ),
{
    let mut invocations: Vec<Invocation> = Vec::new();
    invocations.push(Invocation { program, args, cwd });
    let c = Candidate { name: String::from_str(name), project_local, terminal_on_failure, invocations };
    proof {
        assert(c@.invocations =~= simple_cand(
            name@,
            c.invocations@[0].program@,
            c.invocations@[0].args.deep_view(),
            c.invocations@[0].cwd.deep_view(),
            project_local,
            terminal_on_failure,
        ).invocations);
    }
    c
}

/// Project-local JavaScript/TypeScript candidates: binaries vendored under
/// the Node project root's dependency directory, fastest first.
pub open spec fn js_local_candidates(host: &HostView, file: Seq<char>) -> Seq<CandidateView> {
    match find_root_spec(host, file, node_markers()) {
        None => Seq::<CandidateView>::empty(),
        Some(root) => (if host.path_exists_spec(join_of(root, "node_modules/.bin/oxfmt"@)) {
            seq![
                simple_cand(
                    "oxfmt"@,
                    join_of(root, "node_modules/.bin/oxfmt"@),
                    seq!["--write"@, file],
                    None::<Seq<char>>,
                    true,
                    true,
                ),
            ]
        } else {
            Seq::<CandidateView>::empty()
        }) + (if host.path_exists_spec(join_of(root, "node_modules/.bin/biome"@)) {
            seq![
                simple_cand(
                    "biome"@,
                    join_of(root, "node_modules/.bin/biome"@),
                    seq!["format"@, "--write"@, file],
                    None::<Seq<char>>,
                    true,
                    true,
                ),
            ]
        } else {
            Seq::<CandidateView>::empty()
        }) + (if host.path_exists_spec(join_of(root, "node_modules/.bin/prettier"@)) {
            seq![
                simple_cand(
                    "prettier"@,
                    join_of(root, "node_modules/.bin/prettier"@),
                    seq!["--write"@, file],
                    None::<Seq<char>>,
                    true,
                    true,
                ),
            ]
        } else {
            Seq::<CandidateView>::empty()
        }),
    }
}

/// Global JavaScript/TypeScript candidates found on the search path.
pub open spec fn js_global_candidates(
    host: &HostView,
    file: Seq<char>,
    project_only: bool,
) -> Seq<CandidateView> {
    if project_only {
        Seq::<CandidateView>::empty()
    } else {
        (if host.has_command_spec("oxfmt"@) {
            seq![
                simple_cand(
                    "oxfmt"@,
                    "oxfmt"@,
                    seq!["--write"@, file],
                    None::<Seq<char>>,
                    false,
                    true,
                ),
            ]
        } else {
            Seq::<CandidateView>::empty()
        }) + (if host.has_command_spec("dprint"@) {
            seq![
                simple_cand("dprint"@, "dprint"@, seq!["fmt"@, file], None::<Seq<char>>, false, true),
            ]
        } else {
            Seq::<CandidateView>::empty()
        })
    }
}

/// The full JavaScript/TypeScript priority list: every project-local
/// candidate strictly before every global one.
pub open spec fn js_candidates(
    host: &HostView,
    file: Seq<char>,
    project_only: bool,
) -> Seq<CandidateView> {
    js_local_candidates(host, file) + js_global_candidates(host, file, project_only)
}

/// Ordered formatter candidates for a JavaScript or TypeScript file.
pub fn format_javascript(file_path: &str, host: &HostView, project_only: bool) -> (r: Vec<
    Candidate,
>)
    ensures
        cands_view(r@) == js_candidates(host, file_path@, project_only),
        cands_wf(cands_view(r@)),
{
    let mut v: Vec<Candidate> = Vec::new();
    match find_node_root(file_path, host) {
        Some(root) => {
            let ox = join_path(root.as_str(), "node_modules/.bin/oxfmt");
            if host.path_exists(ox.as_str()) {
                v.push(make_candidate("oxfmt", ox, vec2("--write", file_path), None, true, true));
            }
            let bi = join_path(root.as_str(), "node_modules/.bin/biome");
            if host.path_exists(bi.as_str()) {
                v.push(
                    make_candidate(
                        "biome",
                        bi,
                        vec3("format", "--write", file_path),
                        None,
                        true,
                        true,
                    ),
                );
            }
            let pr = join_path(root.as_str(), "node_modules/.bin/prettier");
            if host.path_exists(pr.as_str()) {
                v.push(
                    make_candidate("prettier", pr, vec2("--write", file_path), None, true, true),
                );
            }
        },
        None => {},
    }
    proof {
        assert(cands_view(v@) =~= js_local_candidates(host, file_path@));
    }
    let ghost locals = cands_view(v@);
    if !project_only {
        if host.has_command("oxfmt") {
            v.push(
                make_candidate(
                    "oxfmt",
                    String::from_str("oxfmt"),
                    vec2("--write", file_path),
                    None,
                    false,
                    true,
                ),
            );
        }
        if host.has_command("dprint") {
            v.push(
                make_candidate(
                    "dprint",
                    String::from_str("dprint"),
                    vec2("fmt", file_path),
                    None,
                    false,
                    true,
                ),
            );
        }
    }
    proof {
        assert(cands_view(v@) =~= locals + js_global_candidates(host, file_path@, project_only));
        assert forall|i: int| 0 <= i < cands_view(v@).len() implies #[trigger] cands_view(
            v@,
        )[i].invocations.len() >= 1 by {}
    }
    v
}

/// Clone an optional working directory.
pub(crate) fn clone_opt(o: &Option<String>) -> (r: Option<String>)
    ensures
        r.deep_view() == o.deep_view(),
{
    match o {
        Some(s) => Some(s.clone()),
        None => None,
    }
}

/// Candidates for the generic, marker-driven family: a project-local
/// `oxfmt` vendored under the nearest recognizable project root, then a
/// global one.
pub open spec fn oxfmt_candidates(
    host: &HostView,
    file: Seq<char>,
    project_only: bool,
) -> Seq<CandidateView> {
    (match find_root_spec(host, file, generic_markers()) {
        None => Seq::<CandidateView>::empty(),
        Some(root) => if host.path_exists_spec(join_of(root, "node_modules/.bin/oxfmt"@)) {
            seq![
                simple_cand(
                    "oxfmt"@,
                    join_of(root, "node_modules/.bin/oxfmt"@),
                    seq!["--write"@, file],
                    None::<Seq<char>>,
                    true,
                    true,
                ),
            ]
        } else {
            Seq::<CandidateView>::empty()
        },
    }) + (if !project_only && host.has_command_spec("oxfmt"@) {
        seq![
            simple_cand("oxfmt"@, "oxfmt"@, seq!["--write"@, file], None::<Seq<char>>, false, true),
        ]
    } else {
        Seq::<CandidateView>::empty()
    })
}

/// Ordered formatter candidates for the markup, data, and styling formats
/// handled by `oxfmt`.
pub fn format_with_oxfmt(file_path: &str, host: &HostView, project_only: bool) -> (r: Vec<
    Candidate,
>)
    ensures
        cands_view(r@) == oxfmt_candidates(host, file_path@, project_only),
        cands_wf(cands_view(r@)),
{
    let mut v: Vec<Candidate> = Vec::new();
    match find_project_root(file_path, host) {
        Some(root) => {
            let ox = join_path(root.as_str(), "node_modules/.bin/oxfmt");
            if host.path_exists(ox.as_str()) {
                v.push(make_candidate("oxfmt", ox, vec2("--write", file_path), None, true, true));
            }
        },
        None => {},
    }
    if !project_only {
        if host.has_command("oxfmt") {
            v.push(
                make_candidate(
                    "oxfmt",
                    String::from_str("oxfmt"),
                    vec2("--write", file_path),
                    None,
                    false,
                    true,
                ),
            );
        }
    }
    proof {
        assert(cands_view(v@) =~= oxfmt_candidates(host, file_path@, project_only));
        assert forall|i: int| 0 <= i < cands_view(v@).len() implies #[trigger] cands_view(
            v@,
        )[i].invocations.len() >= 1 by {}
    }
    v
}

/// Rust candidates: the toolchain's own format subcommand run from the
/// project root when a Rust project exists, then the bare global formatter.
pub open spec fn rust_candidates(
    host: &HostView,
    file: Seq<char>,
    project_only: bool,
) -> Seq<CandidateView> {
    (match find_root_spec(host, file, cargo_markers()) {
        None => Seq::<CandidateView>::empty(),
        Some(root) => seq![
            simple_cand(
                "cargo fmt"@,
                "cargo"@,
                seq!["fmt"@, "--"@, file],
                Some(root),
                false,
                true,
            ),
        ],
    }) + (if !project_only && host.has_command_spec("rustfmt"@) {
        seq![simple_cand("rustfmt"@, "rustfmt"@, seq![file], None::<Seq<char>>, false, true)]
    } else {
        Seq::<CandidateView>::empty()
    })
}

/// Ordered formatter candidates for a Rust file.
pub fn format_rust(file_path: &str, host: &HostView, project_only: bool) -> (r: Vec<Candidate>)
    ensures
        cands_view(r@) == rust_candidates(host, file_path@, project_only),
        cands_wf(cands_view(r@)),
{
    let mut v: Vec<Candidate> = Vec::new();
    match find_cargo_root(file_path, host) {
        Some(root) => {
            v.push(
                make_candidate(
                    "cargo fmt",
                    String::from_str("cargo"),
                    vec3("fmt", "--", file_path),
                    Some(root),
                    false,
                    true,
                ),
            );
        },
        None => {},
    }
    if !project_only {
        if host.has_command("rustfmt") {
            v.push(
                make_candidate(
                    "rustfmt",
                    String::from_str("rustfmt"),
                    vec1(file_path),
                    None,
                    false,
                    true,
                ),
            );
        }
    }
    proof {
        assert(cands_view(v@) =~= rust_candidates(host, file_path@, project_only));
        assert forall|i: int| 0 <= i < cands_view(v@).len() implies #[trigger] cands_view(
            v@,
        )[i].invocations.len() >= 1 by {}
    }
    v
}

/// The two venv slots for one Python formatter inside a project root:
/// the binary under `.venv/bin`, then under `venv/bin`.
pub open spec fn venv_entry(
    host: &HostView,
    root: Seq<char>,
    name: Seq<char>,
    args: Seq<Seq<char>>,
) -> Seq<CandidateView> {
    (if host.path_exists_spec(join_of(join_of(join_of(root, ".venv"@), "bin"@), name)) {
        seq![
            simple_cand(
                name,
                join_of(join_of(join_of(root, ".venv"@), "bin"@), name),
                args,
                None::<Seq<char>>,
                true,
                true,
            ),
        ]
    } else {
        Seq::<CandidateView>::empty()
    }) + (if host.path_exists_spec(join_of(join_of(join_of(root, "venv"@), "bin"@), name)) {
        seq![
            simple_cand(
                name,
                join_of(join_of(join_of(root, "venv"@), "bin"@), name),
                args,
                None::<Seq<char>>,
                true,
                true,
            ),
        ]
    } else {
        Seq::<CandidateView>::empty()
    })
}

/// Python candidates: in project-only mode, formatters vendored in the
/// project's virtual environments; otherwise the global chain in order.
pub open spec fn python_candidates(
    host: &HostView,
    file: Seq<char>,
    project_only: bool,
) -> Seq<CandidateView> {
    if project_only {
        match find_root_spec(host, file, python_markers()) {
            None => Seq::<CandidateView>::empty(),
            Some(root) => venv_entry(host, root, "ruff"@, seq!["format"@, file]) + venv_entry(
                host,
                root,
                "black"@,
                seq![file],
            ) + venv_entry(host, root, "autopep8"@, seq!["--in-place"@, file]) + venv_entry(
                host,
                root,
                "yapf"@,
                seq!["-i"@, file],
            ),
        }
    } else {
        (if host.has_command_spec("ruff"@) {
            seq![
                simple_cand("ruff"@, "ruff"@, seq!["format"@, file], None::<Seq<char>>, false, true),
            ]
        } else {
            Seq::<CandidateView>::empty()
        }) + (if host.has_command_spec("black"@) {
            seq![simple_cand("black"@, "black"@, seq![file], None::<Seq<char>>, false, true)]
        } else {
            Seq::<CandidateView>::empty()
        }) + (if host.has_command_spec("autopep8"@) {
            seq![
                simple_cand(
                    "autopep8"@,
                    "autopep8"@,
                    seq!["--in-place"@, file],
                    None::<Seq<char>>,
                    false,
                    true,
                ),
            ]
        } else {
            Seq::<CandidateView>::empty()
        }) + (if host.has_command_spec("yapf"@) {
            seq![simple_cand("yapf"@, "yapf"@, seq!["-i"@, file], None::<Seq<char>>, false, true)]
        } else {
            Seq::<CandidateView>::empty()
        })
    }
}

/// Ordered formatter candidates for a Python file.
#[verifier::rlimit(60)]
pub fn format_python(file_path: &str, host: &HostView, project_only: bool) -> (r: Vec<Candidate>)
    ensures
        cands_view(r@) == python_candidates(host, file_path@, project_only),
        cands_wf(cands_view(r@)),
{
    let mut v: Vec<Candidate> = Vec::new();
    if project_only {
        match find_python_root(file_path, host) {
            Some(root) => {
                let p = join_path(
                    join_path(join_path(root.as_str(), ".venv").as_str(), "bin").as_str(),
                    "ruff",
                );
                if host.path_exists(p.as_str()) {
                    v.push(make_candidate("ruff", p, vec2("format", file_path), None, true, true));
                }
                let p = join_path(
                    join_path(join_path(root.as_str(), "venv").as_str(), "bin").as_str(),
                    "ruff",
                );
                if host.path_exists(p.as_str()) {
                    v.push(make_candidate("ruff", p, vec2("format", file_path), None, true, true));
                }
                proof {
                    assert(cands_view(v@) =~= venv_entry(
                        host,
                        root@,
                        "ruff"@,
                        seq!["format"@, file_path@],
                    ));
                }
                let p = join_path(
                    join_path(join_path(root.as_str(), ".venv").as_str(), "bin").as_str(),
                    "black",
                );
                if host.path_exists(p.as_str()) {
                    v.push(make_candidate("black", p, vec1(file_path), None, true, true));
                }
                let p = join_path(
                    join_path(join_path(root.as_str(), "venv").as_str(), "bin").as_str(),
                    "black",
                );
                if host.path_exists(p.as_str()) {
                    v.push(make_candidate("black", p, vec1(file_path), None, true, true));
                }
                proof {
                    assert(cands_view(v@) =~= venv_entry(
                        host,
                        root@,
                        "ruff"@,
                        seq!["format"@, file_path@],
                    ) + venv_entry(host, root@, "black"@, seq![file_path@]));
                }
                let p = join_path(
                    join_path(join_path(root.as_str(), ".venv").as_str(), "bin").as_str(),
                    "autopep8",
                );
                if host.path_exists(p.as_str()) {
                    v.push(
                        make_candidate("autopep8", p, vec2("--in-place", file_path), None, true, true),
                    );
                }
                let p = join_path(
                    join_path(join_path(root.as_str(), "venv").as_str(), "bin").as_str(),
                    "autopep8",
                );
                if host.path_exists(p.as_str()) {
                    v.push(
                        make_candidate("autopep8", p, vec2("--in-place", file_path), None, true, true),
                    );
                }
                proof {
                    assert(cands_view(v@) =~= venv_entry(
                        host,
                        root@,
                        "ruff"@,
                        seq!["format"@, file_path@],
                    ) + venv_entry(host, root@, "black"@, seq![file_path@]) + venv_entry(
                        host,
                        root@,
                        "autopep8"@,
                        seq!["--in-place"@, file_path@],
                    ));
                }
                let p = join_path(
                    join_path(join_path(root.as_str(), ".venv").as_str(), "bin").as_str(),
                    "yapf",
                );
                if host.path_exists(p.as_str()) {
                    v.push(make_candidate("yapf", p, vec2("-i", file_path), None, true, true));
                }
                let p = join_path(
                    join_path(join_path(root.as_str(), "venv").as_str(), "bin").as_str(),
                    "yapf",
                );
                if host.path_exists(p.as_str()) {
                    v.push(make_candidate("yapf", p, vec2("-i", file_path), None, true, true));
                }
            },
            None => {},
        }
    } else {
        if host.has_command("ruff") {
            v.push(
                make_candidate(
                    "ruff",
                    String::from_str("ruff"),
                    vec2("format", file_path),
                    None,
                    false,
                    true,
                ),
            );
        }
        if host.has_command("black") {
            v.push(
                make_candidate(
                    "black",
                    String::from_str("black"),
                    vec1(file_path),
                    None,
                    false,
                    true,
                ),
            );
        }
        if host.has_command("autopep8") {
            v.push(
                make_candidate(
                    "autopep8",
                    String::from_str("autopep8"),
                    vec2("--in-place", file_path),
                    None,
                    false,
                    true,
                ),
            );
        }
        if host.has_command("yapf") {
            v.push(
                make_candidate(
                    "yapf",
                    String::from_str("yapf"),
                    vec2("-i", file_path),
                    None,
                    false,
                    true,
                ),
            );
        }
    }
    proof {
        assert(cands_view(v@) =~= python_candidates(host, file_path@, project_only));
        assert forall|i: int| 0 <= i < cands_view(v@).len() implies #[trigger] cands_view(
            v@,
        )[i].invocations.len() >= 1 by {}
    }
    v
}

/// The Maven build-tool candidate: the formatting plugin goal, run from
/// the project root with the file as a plugin-specific filter argument.
pub open spec fn maven_cand(root: Seq<char>, file: Seq<char>) -> CandidateView {
    simple_cand(
        "spotless (Maven)"@,
        "mvn"@,
        seq!["spotless:apply"@, "-DspotlessFiles="@ + file],
        Some(root),
        false,
        false,
    )
}

/// The Gradle build-tool candidate: a project-vendored launcher when one
/// exists, otherwise the global one, run from the project root.
pub open spec fn gradle_cand(host: &HostView, root: Seq<char>) -> CandidateView {
    if host.path_exists_spec(join_of(root, "gradlew"@)) {
        simple_cand(
            "spotless (Gradle)"@,
            join_of(root, "gradlew"@),
            seq!["spotlessApply"@],
            Some(root),
            true,
            false,
        )
    } else {
        simple_cand(
            "spotless (Gradle)"@,
            "gradle"@,
            seq!["spotlessApply"@],
            Some(root),
            false,
            false,
        )
    }
}

/// Java candidates: build-tool-integrated formatting first (Maven, then
/// Gradle), then the global standalone formatters.
pub open spec fn java_candidates(
    host: &HostView,
    file: Seq<char>,
    project_only: bool,
) -> Seq<CandidateView> {
    (match find_root_spec(host, file, java_markers()) {
        None => Seq::<CandidateView>::empty(),
        Some(root) => (if host.path_exists_spec(join_of(root, "pom.xml"@)) {
            seq![maven_cand(root, file)]
        } else {
            Seq::<CandidateView>::empty()
        }) + (if host.path_exists_spec(join_of(root, "build.gradle"@)) || host.path_exists_spec(
            join_of(root, "build.gradle.kts"@),
        ) {
            seq![gradle_cand(host, root)]
        } else {
            Seq::<CandidateView>::empty()
        }),
    }) + (if project_only {
        Seq::<CandidateView>::empty()
    } else {
        (if host.has_command_spec("google-java-format"@) {
            seq![
                simple_cand(
                    "google-java-format"@,
                    "google-java-format"@,
                    seq!["--replace"@, file],
                    None::<Seq<char>>,
                    false,
                    true,
                ),
            ]
        } else {
            Seq::<CandidateView>::empty()
        }) + (if host.has_command_spec("palantir-java-format"@) {
            seq![
                simple_cand(
                    "palantir-java-format"@,
                    "palantir-java-format"@,
                    seq!["--replace"@, file],
                    None::<Seq<char>>,
                    false,
                    true,
                ),
            ]
        } else {
            Seq::<CandidateView>::empty()
        })
    })
}

/// Ordered formatter candidates for a Java file.
pub fn format_java(file_path: &str, host: &HostView, project_only: bool) -> (r: Vec<Candidate>)
    ensures
        cands_view(r@) == java_candidates(host, file_path@, project_only),
        cands_wf(cands_view(r@)),
{
    let mut v: Vec<Candidate> = Vec::new();
    match find_java_root(file_path, host) {
        Some(root) => {
            if host.path_exists(join_path(root.as_str(), "pom.xml").as_str()) {
                let mut args: Vec<String> = Vec::new();
                args.push(String::from_str("spotless:apply"));
                args.push(str_concat("-DspotlessFiles=", file_path));
                proof {
                    assert(args.deep_view() =~= seq![
                        "spotless:apply"@,
                        "-DspotlessFiles="@ + file_path@,
                    ]);
                }
                v.push(
                    make_candidate(
                        "spotless (Maven)",
                        String::from_str("mvn"),
                        args,
                        Some(root.clone()),
                        false,
                        false,
                    ),
                );
            }
            if host.path_exists(join_path(root.as_str(), "build.gradle").as_str())
                || host.path_exists(join_path(root.as_str(), "build.gradle.kts").as_str()) {
                let gw = join_path(root.as_str(), "gradlew");
                if host.path_exists(gw.as_str()) {
                    v.push(
                        make_candidate(
                            "spotless (Gradle)",
                            gw,
                            vec1("spotlessApply"),
                            Some(root.clone()),
                            true,
                            false,
                        ),
                    );
                } else {
                    v.push(
                        make_candidate(
                            "spotless (Gradle)",
                            String::from_str("gradle"),
                            vec1("spotlessApply"),
                            Some(root.clone()),
                            false,
                            false,
                        ),
                    );
                }
            }
        },
        None => {},
    }
    if !project_only {
        if host.has_command("google-java-format") {
            v.push(
                make_candidate(
                    "google-java-format",
                    String::from_str("google-java-format"),
                    vec2("--replace", file_path),
                    None,
                    false,
                    true,
                ),
            );
        }
        if host.has_command("palantir-java-format") {
            v.push(
                make_candidate(
                    "palantir-java-format",
                    String::from_str("palantir-java-format"),
                    vec2("--replace", file_path),
                    None,
                    false,
                    true,
                ),
            );
        }
    }
    proof {
        assert(cands_view(v@) =~= java_candidates(host, file_path@, project_only));
        assert forall|i: int| 0 <= i < cands_view(v@).len() implies #[trigger] cands_view(
            v@,
        )[i].invocations.len() >= 1 by {}
    }
    v
}

/// The paired Go candidate: the import organizer, then the strict
/// formatter, both of which must succeed for the pair to count.
pub open spec fn go_combined_cand(cwd: Option<Seq<char>>, file: Seq<char>) -> CandidateView {
    CandidateView {
        name: "goimports + gofumpt"@,
        project_local: false,
        terminal_on_failure: false,
        invocations: seq![
            InvocationView { program: "goimports"@, args: seq!["-w"@, file], cwd },
            InvocationView { program: "gofumpt"@, args: seq!["-w"@, file], cwd },
        ],
    }
}

/// Go candidates: the combined pair, each tool alone, then the baseline
/// formatter; every invocation runs from the module root when one exists.
pub open spec fn go_candidates(
    host: &HostView,
    file: Seq<char>,
    project_only: bool,
) -> Seq<CandidateView> {
    let root = find_root_spec(host, file, go_markers());
    if project_only && root is None {
        Seq::<CandidateView>::empty()
    } else {
        (if host.has_command_spec("goimports"@) && host.has_command_spec("gofumpt"@) {
            seq![go_combined_cand(root, file)]
        } else {
            Seq::<CandidateView>::empty()
        }) + (if host.has_command_spec("gofumpt"@) {
            seq![simple_cand("gofumpt"@, "gofumpt"@, seq!["-w"@, file], root, false, false)]
        } else {
            Seq::<CandidateView>::empty()
        }) + (if host.has_command_spec("goimports"@) {
            seq![simple_cand("goimports"@, "goimports"@, seq!["-w"@, file], root, false, false)]
        } else {
            Seq::<CandidateView>::empty()
        }) + (if host.has_command_spec("gofmt"@) {
            seq![simple_cand("gofmt"@, "gofmt"@, seq!["-w"@, file], root, false, true)]
        } else {
            Seq::<CandidateView>::empty()
        })
    }
}

/// Ordered formatter candidates for a Go file.
pub fn format_go(file_path: &str, host: &HostView, project_only: bool) -> (r: Vec<Candidate>)
    ensures
        cands_view(r@) == go_candidates(host, file_path@, project_only),
        cands_wf(cands_view(r@)),
{
    let mut v: Vec<Candidate> = Vec::new();
    let root_opt = find_go_root(file_path, host);
    if project_only && root_opt.is_none() {
        proof {
            assert(cands_view(v@) =~= go_candidates(host, file_path@, project_only));
            assert(cands_wf(cands_view(v@)));
        }
        return v;
    }
    let has_gi = host.has_command("goimports");
    let has_gf = host.has_command("gofumpt");
    if has_gi && has_gf {
        let mut invocations: Vec<Invocation> = Vec::new();
        invocations.push(
            Invocation {
                program: String::from_str("goimports"),
                args: vec2("-w", file_path),
                cwd: clone_opt(&root_opt),
            },
        );
        invocations.push(
            Invocation {
                program: String::from_str("gofumpt"),
                args: vec2("-w", file_path),
                cwd: clone_opt(&root_opt),
            },
        );
        let c = Candidate {
            name: String::from_str("goimports + gofumpt"),
            project_local: false,
            terminal_on_failure: false,
            invocations,
        };
        proof {
            assert(c@.invocations =~= go_combined_cand(root_opt.deep_view(), file_path@)
                .invocations);
        }
        v.push(c);
    }
    if has_gf {
        v.push(
            make_candidate(
                "gofumpt",
                String::from_str("gofumpt"),
                vec2("-w", file_path),
                clone_opt(&root_opt),
                false,
                false,
            ),
        );
    }
    if has_gi {
        v.push(
            make_candidate(
                "goimports",
                String::from_str("goimports"),
                vec2("-w", file_path),
                clone_opt(&root_opt),
                false,
                false,
            ),
        );
    }
    if host.has_command("gofmt") {
        v.push(
            make_candidate(
                "gofmt",
                String::from_str("gofmt"),
                vec2("-w", file_path),
                clone_opt(&root_opt),
                false,
                true,
            ),
        );
    }
    proof {
        assert(cands_view(v@) =~= go_candidates(host, file_path@, project_only));
        assert forall|i: int| 0 <= i < cands_view(v@).len() implies #[trigger] cands_view(
            v@,
        )[i].invocations.len() >= 1 by {}
    }
    v
}

/// Result of a formatting operation.
#[derive(Debug)]
pub struct FormatResult {
    pub formatted: bool,
    pub formatter: Option<String>,
    pub message: String,
}

impl FormatResult {
    /// The named formatter ran and succeeded.
    pub fn success(formatter: &str) -> (r: FormatResult)
        ensures
            r.formatted == true,
            r.formatter matches Some(f) && f@ == formatter@,
            r.message@ == "Formatted with "@ + formatter@,
    {
        FormatResult {
            formatted: true,
            formatter: Some(String::from_str(formatter)),
            message: str_concat("Formatted with ", formatter),
        }
    }

    /// No formatter could be found for the given family label.
    pub fn no_formatter(language: &str) -> (r: FormatResult)
        ensures
            r.formatted == false,
            r.formatter matches Option::<String>::None,
            r.message@ == "No formatter found for "@ + language@,
    {
        FormatResult {
            formatted: false,
            formatter: None,
            message: str_concat("No formatter found for ", language),
        }
    }

    /// The file's extension is not in the supported set.
    pub fn unsupported(ext: &str) -> (r: FormatResult)
        ensures
            r.formatted == false,
            r.formatter matches Option::<String>::None,
            r.message@ == "Unsupported file extension: "@ + ext@,
    {
        FormatResult {
            formatted: false,
            formatter: None,
            message: str_concat("Unsupported file extension: ", ext),
        }
    }

    /// The named formatter ran and reported a failure.
    pub fn error(formatter: &str, error: &str) -> (r: FormatResult)
        ensures
            r.formatted == false,
            r.formatter matches Some(f) && f@ == formatter@,
            r.message@ == formatter@ + " error: "@ + error@,
    {
        FormatResult {
            formatted: false,
            formatter: Some(String::from_str(formatter)),
            message: str_concat(str_concat(formatter, " error: ").as_str(), error),
        }
    }
}

/// What resolution decided for a file: skip the protected Node manifest,
/// reject an unsupported extension, or try a candidate list for a family.
pub enum Resolution {
    Skipped,
    Unsupported { ext: String },
    Candidates { family: String, list: Vec<Candidate> },
}

/// Specification-level mirror of [`Resolution`].
pub ghost enum ResolutionView {
    Skipped,
    Unsupported { ext: Seq<char> },
    Candidates { family: Seq<char>, list: Seq<CandidateView> },
}

impl View for Resolution {
    type V = ResolutionView;

    open spec fn view(&self) -> ResolutionView {
        match self {
            Resolution::Skipped => ResolutionView::Skipped,
            Resolution::Unsupported { ext } => ResolutionView::Unsupported { ext: ext@ },
            Resolution::Candidates { family, list } => ResolutionView::Candidates {
                family: family@,
                list: cands_view(list@),
            },
        }
    }
}

/// A resolution whose candidate list, if any, is well-formed.
pub open spec fn resolution_wf(r: ResolutionView) -> bool {
    match r {
        ResolutionView::Candidates { family, list } => cands_wf(list),
        _ => true,
    }
}

/// The candidate table for a known extension, with its family label.
pub open spec fn family_resolution(
    host: &HostView,
    file: Seq<char>,
    ext: Seq<char>,
    project_only: bool,
) -> ResolutionView {
    if ext == "js"@ || ext == "jsx"@ || ext == "ts"@ || ext == "tsx"@ || ext == "mjs"@ || ext
        == "cjs"@ {
        ResolutionView::Candidates {
            family: "JavaScript/TypeScript"@,
            list: js_candidates(host, file, project_only),
        }
    } else if ext == "rs"@ {
        ResolutionView::Candidates {
            family: "Rust"@,
            list: rust_candidates(host, file, project_only),
        }
    } else if ext == "py"@ || ext == "pyi"@ {
        ResolutionView::Candidates {
            family: "Python"@,
            list: python_candidates(host, file, project_only),
        }
    } else if ext == "java"@ {
        ResolutionView::Candidates {
            family: "Java"@,
            list: java_candidates(host, file, project_only),
        }
    } else if ext == "go"@ {
        ResolutionView::Candidates { family: "Go"@, list: go_candidates(host, file, project_only) }
    } else if ext == "json"@ || ext == "jsonc"@ || ext == "json5"@ {
        ResolutionView::Candidates {
            family: "JSON"@,
            list: oxfmt_candidates(host, file, project_only),
        }
    } else if ext == "yaml"@ || ext == "yml"@ {
        ResolutionView::Candidates {
            family: "YAML"@,
            list: oxfmt_candidates(host, file, project_only),
        }
    } else if ext == "toml"@ {
        ResolutionView::Candidates {
            family: "TOML"@,
            list: oxfmt_candidates(host, file, project_only),
        }
    } else if ext == "html"@ || ext == "htm"@ {
        ResolutionView::Candidates {
            family: "HTML"@,
            list: oxfmt_candidates(host, file, project_only),
        }
    } else if ext == "vue"@ {
        ResolutionView::Candidates {
            family: "Vue"@,
            list: oxfmt_candidates(host, file, project_only),
        }
    } else if ext == "css"@ {
        ResolutionView::Candidates {
            family: "CSS"@,
            list: oxfmt_candidates(host, file, project_only),
        }
    } else if ext == "scss"@ {
        ResolutionView::Candidates {
            family: "SCSS"@,
            list: oxfmt_candidates(host, file, project_only),
        }
    } else if ext == "less"@ {
        ResolutionView::Candidates {
            family: "Less"@,
            list: oxfmt_candidates(host, file, project_only),
        }
    } else if ext == "md"@ || ext == "markdown"@ {
        ResolutionView::Candidates {
            family: "Markdown"@,
            list: oxfmt_candidates(host, file, project_only),
        }
    } else if ext == "mdx"@ {
        ResolutionView::Candidates {
            family: "MDX"@,
            list: oxfmt_candidates(host, file, project_only),
        }
    } else if ext == "graphql"@ || ext == "gql"@ {
        ResolutionView::Candidates {
            family: "GraphQL"@,
            list: oxfmt_candidates(host, file, project_only),
        }
    } else if ext == "hbs"@ || ext == "handlebars"@ {
        ResolutionView::Candidates {
            family: "Handlebars"@,
            list: oxfmt_candidates(host, file, project_only),
        }
    } else {
        ResolutionView::Unsupported { ext }
    }
}

/// What resolution produces for a file: the protected Node manifest is
/// always skipped, whatever its extension; otherwise the file's extension
/// (taken verbatim, the empty sequence when there is none) selects the
/// family table.
pub open spec fn format_file_spec(
    host: &HostView,
    file: Seq<char>,
    project_only: bool,
) -> ResolutionView {
    if file_name_of(file) == "package.json"@ {
        ResolutionView::Skipped
    } else {
        let ext = match extension_of(file) {
            None => Seq::<char>::empty(),
            Some(e) => e,
        };
        family_resolution(host, file, ext, project_only)
    }
}

/// Resolve a file to its formatter candidates, keyed by file extension.
pub fn format_file(file_path: &str, host: &HostView, project_only: bool) -> (r: Resolution)
    ensures
        r@ == format_file_spec(host, file_path@, project_only),
        resolution_wf(r@),
{
    let name = file_name(file_path);
    if str_eq(name.as_str(), "package.json") {
        return Resolution::Skipped;
    }
    let ext: String = match extension(file_path) {
        None => String::new(),
        Some(e) => e,
    };
    proof {
        assert(ext@ =~= (match extension_of(file_path@) {
            None => Seq::<char>::empty(),
            Some(e) => e,
        }));
    }
    let e = ext.as_str();
    if str_eq(e, "js") || str_eq(e, "jsx") || str_eq(e, "ts") || str_eq(e, "tsx") || str_eq(
        e,
        "mjs",
    ) || str_eq(e, "cjs") {
        Resolution::Candidates {
            family: String::from_str("JavaScript/TypeScript"),
            list: format_javascript(file_path, host, project_only),
        }
    } else if str_eq(e, "rs") {
        Resolution::Candidates {
            family: String::from_str("Rust"),
            list: format_rust(file_path, host, project_only),
        }
    } else if str_eq(e, "py") || str_eq(e, "pyi") {
        Resolution::Candidates {
            family: String::from_str("Python"),
            list: format_python(file_path, host, project_only),
        }
    } else if str_eq(e, "java") {
        Resolution::Candidates {
            family: String::from_str("Java"),
            list: format_java(file_path, host, project_only),
        }
    } else if str_eq(e, "go") {
        Resolution::Candidates {
            family: String::from_str("Go"),
            list: format_go(file_path, host, project_only),
        }
    } else if str_eq(e, "json") || str_eq(e, "jsonc") || str_eq(e, "json5") {
        Resolution::Candidates {
            family: String::from_str("JSON"),
            list: format_with_oxfmt(file_path, host, project_only),
        }
    } else if str_eq(e, "yaml") || str_eq(e, "yml") {
        Resolution::Candidates {
            family: String::from_str("YAML"),
            list: format_with_oxfmt(file_path, host, project_only),
        }
    } else if str_eq(e, "toml") {
        Resolution::Candidates {
            family: String::from_str("TOML"),
            list: format_with_oxfmt(file_path, host, project_only),
        }
    } else if str_eq(e, "html") || str_eq(e, "htm") {
        Resolution::Candidates {
            family: String::from_str("HTML"),
            list: format_with_oxfmt(file_path, host, project_only),
        }
    } else if str_eq(e, "vue") {
        Resolution::Candidates {
            family: String::from_str("Vue"),
            list: format_with_oxfmt(file_path, host, project_only),
        }
    } else if str_eq(e, "css") {
        Resolution::Candidates {
            family: String::from_str("CSS"),
            list: format_with_oxfmt(file_path, host, project_only),
        }
    } else if str_eq(e, "scss") {
        Resolution::Candidates {
            family: String::from_str("SCSS"),
            list: format_with_oxfmt(file_path, host, project_only),
        }
    } else if str_eq(e, "less") {
        Resolution::Candidates {
            family: String::from_str("Less"),
            list: format_with_oxfmt(file_path, host, project_only),
        }
    } else if str_eq(e, "md") || str_eq(e, "markdown") {
        Resolution::Candidates {
            family: String::from_str("Markdown"),
            list: format_with_oxfmt(file_path, host, project_only),
        }
    } else if str_eq(e, "mdx") {
        Resolution::Candidates {
            family: String::from_str("MDX"),
            list: format_with_oxfmt(file_path, host, project_only),
        }
    } else if str_eq(e, "graphql") || str_eq(e, "gql") {
        Resolution::Candidates {
            family: String::from_str("GraphQL"),
            list: format_with_oxfmt(file_path, host, project_only),
        }
    } else if str_eq(e, "hbs") || str_eq(e, "handlebars") {
        Resolution::Candidates {
            family: String::from_str("Handlebars"),
            list: format_with_oxfmt(file_path, host, project_only),
        }
    } else {
        Resolution::Unsupported { ext }
    }
}

} // verus!
