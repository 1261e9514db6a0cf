//! Project-root location: starting at the parent directory of a file, walk
//! up the parent chain and return the first directory that contains one of
//! an ecosystem's marker names.  The walk never descends and stops at the
//! filesystem root, so it terminates whether or not a marker is found.

use vstd::prelude::*;
use vstd::string::*;

use crate::host::HostView;
use crate::paths::{join_of, join_path, lemma_parent_shorter, parent_dir, parent_of, reaches};

verus! {

/// Marker names that identify a Rust project root.
pub open spec fn cargo_markers() -> Seq<Seq<char>> {
    seq!["Cargo.toml"@]
}

/// Marker names that identify a Node project root.
pub open spec fn node_markers() -> Seq<Seq<char>> {
    seq!["package.json"@]
}

/// Marker names that identify a Python project root.
pub open spec fn python_markers() -> Seq<Seq<char>> {
    seq!["pyproject.toml"@, "setup.py"@]
}

/// Marker names that identify a Maven or Gradle project root.
pub open spec fn java_markers() -> Seq<Seq<char>> {
    seq!["pom.xml"@, "build.gradle"@, "build.gradle.kts"@]
}

/// Marker names that identify a Go module root.
pub open spec fn go_markers() -> Seq<Seq<char>> {
    seq!["go.mod"@]
}

/// The union of every ecosystem's markers plus the version-control marker,
/// so that any recognizable repository root qualifies.
pub open spec fn generic_markers() -> Seq<Seq<char>> {
    seq![
        "Cargo.toml"@,
        "package.json"@,
        "pyproject.toml"@,
        "setup.py"@,
        "pom.xml"@,
        "build.gradle"@,
        "build.gradle.kts"@,
        "go.mod"@,
        ".git"@,
    ]
}

/// The directory `dir` contains at least one of the marker names.
pub open spec fn dir_has_marker(host: &HostView, dir: Seq<char>, markers: Seq<Seq<char>>) -> bool {
    exists|i: int| 0 <= i < markers.len() && host.path_exists_spec(join_of(dir, markers[i]))
}

/// The nearest directory at or above `dir` that contains a marker.
pub open spec fn root_from(host: &HostView, dir: Seq<char>, markers: Seq<Seq<char>>) -> Option<
    Seq<char>,
>
    decreases dir.len(),
    via root_from_decreases
{
    if dir_has_marker(host, dir, markers) {
        Some(dir)
    } else {
        match parent_of(dir) {
            None => None,
            Some(p) => root_from(host, p, markers),
        }
    }
}

#[via_fn]
proof fn root_from_decreases(host: &HostView, dir: Seq<char>, markers: Seq<Seq<char>>) {
    lemma_parent_shorter(dir);
}

/// The project root for `file`: the nearest marker-bearing directory at or
/// above `file`'s parent directory.
pub open spec fn find_root_spec(
    host: &HostView,
    file: Seq<char>,
    markers: Seq<Seq<char>>,
) -> Option<Seq<char>> {
    match parent_of(file) {
        None => None,
        Some(d) => root_from(host, d, markers),
    }
}

/// Whether `dir` holds one of the given marker names.
fn dir_has_marker_exec(host: &HostView, dir: &str, markers: &Vec<String>) -> (r: bool)
    ensures
        r == dir_has_marker(host, dir@, markers.deep_view()),
{
    let n = markers.len();
    let mut i: usize = 0;
    while i < n
        invariant
            n == markers@.len(),
            i <= n,
            forall|j: int| 0 <= j < i ==> !host.path_exists_spec(
                join_of(dir@, markers.deep_view()[j]),
            ),
        decreases n - i,
    {
        let candidate = join_path(dir, markers[i].as_str());
        if host.path_exists(candidate.as_str()) {
            assert(host.path_exists_spec(join_of(dir@, markers.deep_view()[i as int])));
            return true;
        }
        i = i + 1;
    }
    false
}

/// Walk the parent chain from `file_path`'s parent upward and return the
/// first directory holding one of the markers, or `None` if the chain ends
/// without one.
pub fn find_root_with(host: &HostView, file_path: &str, markers: &Vec<String>) -> (r: Option<
    String,
>)
    ensures
        match r {
            Some(d) => find_root_spec(host, file_path@, markers.deep_view()) == Some(d@),
            None => find_root_spec(host, file_path@, markers.deep_view()) == None::<Seq<char>>,
        },
{
    let mut current = match parent_dir(file_path) {
        None => {
            return None;
        },
        Some(d) => d,
    };
    loop
        invariant
            root_from(host, current@, markers.deep_view()) == find_root_spec(
                host,
                file_path@,
                markers.deep_view(),
            ),
        decreases current@.len(),
    {
        if dir_has_marker_exec(host, current.as_str(), markers) {
            return Some(current);
        }
        match parent_dir(current.as_str()) {
            None => {
                return None;
            },
            Some(p) => {
                proof {
                    lemma_parent_shorter(current@);
                }
                current = p;
            },
        }
    }
}

/// The nearest ancestor directory containing any common project marker.
pub fn find_project_root(file_path: &str, host: &HostView) -> (r: Option<String>)
    ensures
        match r {
            Some(d) => find_root_spec(host, file_path@, generic_markers()) == Some(d@),
            None => find_root_spec(host, file_path@, generic_markers()) == None::<Seq<char>>,
        },
{
    let mut markers: Vec<String> = Vec::new();
    markers.push(String::from_str("Cargo.toml"));
    markers.push(String::from_str("package.json"));
    markers.push(String::from_str("pyproject.toml"));
    markers.push(String::from_str("setup.py"));
    markers.push(String::from_str("pom.xml"));
    markers.push(String::from_str("build.gradle"));
    markers.push(String::from_str("build.gradle.kts"));
    markers.push(String::from_str("go.mod"));
    markers.push(String::from_str(".git"));
    proof {
        assert(markers.deep_view() =~= generic_markers());
    }
    find_root_with(host, file_path, &markers)
}

/// The nearest ancestor directory containing a Rust manifest.
pub fn find_cargo_root(file_path: &str, host: &HostView) -> (r: Option<String>)
    ensures
        match r {
            Some(d) => find_root_spec(host, file_path@, cargo_markers()) == Some(d@),
            None => find_root_spec(host, file_path@, cargo_markers()) == None::<Seq<char>>,
        },
{
    let mut markers: Vec<String> = Vec::new();
    markers.push(String::from_str("Cargo.toml"));
    proof {
        assert(markers.deep_view() =~= cargo_markers());
    }
    find_root_with(host, file_path, &markers)
}

/// The nearest ancestor directory containing a Node manifest.
pub fn find_node_root(file_path: &str, host: &HostView) -> (r: Option<String>)
    ensures
        match r {
            Some(d) => find_root_spec(host, file_path@, node_markers()) == Some(d@),
            None => find_root_spec(host, file_path@, node_markers()) == None::<Seq<char>>,
        },
{
    let mut markers: Vec<String> = Vec::new();
    markers.push(String::from_str("package.json"));
    proof {
        assert(markers.deep_view() =~= node_markers());
    }
    find_root_with(host, file_path, &markers)
}

/// The nearest ancestor directory containing a Python project marker.
pub fn find_python_root(file_path: &str, host: &HostView) -> (r: Option<String>)
    ensures
        match r {
            Some(d) => find_root_spec(host, file_path@, python_markers()) == Some(d@),
            None => find_root_spec(host, file_path@, python_markers()) == None::<Seq<char>>,
        },
{
    let mut markers: Vec<String> = Vec::new();
    markers.push(String::from_str("pyproject.toml"));
    markers.push(String::from_str("setup.py"));
    proof {
        assert(markers.deep_view() =~= python_markers());
    }
    find_root_with(host, file_path, &markers)
}

/// The nearest ancestor directory containing a Maven or Gradle marker.
pub fn find_java_root(file_path: &str, host: &HostView) -> (r: Option<String>)
    ensures
        match r {
            Some(d) => find_root_spec(host, file_path@, java_markers()) == Some(d@),
            None => find_root_spec(host, file_path@, java_markers()) == None::<Seq<char>>,
        },
{
    let mut markers: Vec<String> = Vec::new();
    markers.push(String::from_str("pom.xml"));
    markers.push(String::from_str("build.gradle"));
    markers.push(String::from_str("build.gradle.kts"));
    proof {
        assert(markers.deep_view() =~= java_markers());
    }
    find_root_with(host, file_path, &markers)
}

/// The nearest ancestor directory containing a Go module marker.
pub fn find_go_root(file_path: &str, host: &HostView) -> (r: Option<String>)
    ensures
        match r {
            Some(d) => find_root_spec(host, file_path@, go_markers()) == Some(d@),
            None => find_root_spec(host, file_path@, go_markers()) == None::<Seq<char>>,
        },
{
    let mut markers: Vec<String> = Vec::new();
    markers.push(String::from_str("go.mod"));
    proof {
        assert(markers.deep_view() =~= go_markers());
    }
    find_root_with(host, file_path, &markers)
}

/// No directory on the parent chain from `from` up to, but not including,
/// `to` contains a marker.
pub open spec fn no_marker_strictly_below(
    host: &HostView,
    from: Seq<char>,
    to: Seq<char>,
    markers: Seq<Seq<char>>,
) -> bool
    decreases from.len(),
    via no_marker_strictly_below_decreases
{
    if from == to {
        true
    } else {
        !dir_has_marker(host, from, markers) && match parent_of(from) {
            None => true,
            Some(p) => no_marker_strictly_below(host, p, to, markers),
        }
    }
}

#[via_fn]
proof fn no_marker_strictly_below_decreases(
    host: &HostView,
    from: Seq<char>,
    to: Seq<char>,
    markers: Seq<Seq<char>>,
) {
    lemma_parent_shorter(from);
}

/// A file any number of directories below a marker-bearing directory, with
/// no marker in between, resolves to exactly that directory: the search
/// finds the nearest marker regardless of depth.
pub proof fn lemma_root_found(
    host: &HostView,
    start: Seq<char>,
    d: Seq<char>,
    markers: Seq<Seq<char>>,
)
    requires
        reaches(start, d),
        dir_has_marker(host, d, markers),
        no_marker_strictly_below(host, start, d, markers),
    ensures
        root_from(host, start, markers) == Some(d),
    decreases start.len(),
{
    if start != d {
        lemma_parent_shorter(start);
        lemma_root_found(host, parent_of(start).unwrap(), d, markers);
    }
}

/// `x` is a directory on the parent chain of `file`: the file's parent
/// directory or anything above it.
pub open spec fn above_file(file: Seq<char>, x: Seq<char>) -> bool {
    match parent_of(file) {
        None => false,
        Some(start) => reaches(start, x),
    }
}

/// A file located any number of directories below a marker-bearing
/// directory `d`, with no marker strictly in between, resolves to exactly
/// `d` — whatever the depth.
pub proof fn lemma_find_root_below_marker(
    host: &HostView,
    file: Seq<char>,
    d: Seq<char>,
    markers: Seq<Seq<char>>,
)
    requires
        above_file(file, d),
        dir_has_marker(host, d, markers),
        parent_of(file) matches Some(start) && no_marker_strictly_below(host, start, d, markers),
    ensures
        find_root_spec(host, file, markers) == Some(d),
{
    lemma_root_found(host, parent_of(file).unwrap(), d, markers);
}

/// A file with no marker anywhere above it, up to the filesystem root,
/// resolves to no project root at all.
pub proof fn lemma_find_root_no_marker(host: &HostView, file: Seq<char>, markers: Seq<Seq<char>>)
    requires
        forall|x: Seq<char>| #[trigger] above_file(file, x) ==> !dir_has_marker(host, x, markers),
    ensures
        find_root_spec(host, file, markers) == None::<Seq<char>>,
{
    match parent_of(file) {
        None => {},
        Some(start) => {
            assert forall|x: Seq<char>| #[trigger] reaches(start, x) implies !dir_has_marker(
                host,
                x,
                markers,
            ) by {
                assert(above_file(file, x));
            }
            lemma_root_none(host, start, markers);
        },
    }
}

/// When no directory on the whole parent chain contains a marker, the
/// search reports that there is no project root.
pub proof fn lemma_root_none(host: &HostView, start: Seq<char>, markers: Seq<Seq<char>>)
    requires
        forall|x: Seq<char>| #[trigger] reaches(start, x) ==> !dir_has_marker(host, x, markers),
    ensures
        root_from(host, start, markers) == None::<Seq<char>>,
    decreases start.len(),
{
    assert(reaches(start, start));
    match parent_of(start) {
        None => {},
        Some(p) => {
            assert forall|x: Seq<char>| #[trigger] reaches(p, x) implies !dir_has_marker(
                host,
                x,
                markers,
            ) by {
                assert(reaches(start, x));
            }
            lemma_parent_shorter(start);
            lemma_root_none(host, p, markers);
        },
    }
}

} // verus!
