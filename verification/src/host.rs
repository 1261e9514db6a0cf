//! A snapshot of the only two facts the resolver ever asks of the machine:
//! which filesystem paths exist, and which commands the host's search path
//! can find.  The caller gathers these facts and hands them in as plain
//! data; everything downstream is a pure function of this value.

use vstd::prelude::*;
use vstd::string::*;

use crate::paths::{join_of, join_path, lemma_parent_shorter, parent_dir, parent_of, reaches};

verus! {

/// Does some element of `ss` view to exactly `p`?
pub open spec fn contains_str(ss: Seq<String>, p: Seq<char>) -> bool {
    exists|i: int| 0 <= i < ss.len() && ss[i]@ == p
}

/// What the resolver may ask of the host: a set of paths known to exist
/// and a set of command names known to be on the search path.
pub struct HostView {
    pub existing: Vec<String>,
    pub commands: Vec<String>,
}

impl HostView {
    /// The path `p` exists in this snapshot.
    pub open spec fn path_exists_spec(&self, p: Seq<char>) -> bool {
        contains_str(self.existing@, p)
    }

    /// The command `c` is on the search path in this snapshot.
    pub open spec fn has_command_spec(&self, c: Seq<char>) -> bool {
        contains_str(self.commands@, c)
    }

    /// Whether the snapshot records `p` as an existing path.
    pub fn path_exists(&self, p: &str) -> (r: bool)
        ensures
            r == self.path_exists_spec(p@),
    {
        seq_contains(&self.existing, p)
    }

    /// Whether the snapshot records `c` as an available command.
    pub fn has_command(&self, c: &str) -> (r: bool)
        ensures
            r == self.has_command_spec(c@),
    {
        seq_contains(&self.commands, c)
    }
}

/// Every path the resolver may consult inside one directory: the project
/// markers, the vendored Node binaries, the virtual-environment binaries,
/// and the vendored Gradle launcher.
pub open spec fn dir_probes(d: Seq<char>) -> Seq<Seq<char>> {
    seq![
        join_of(d, "Cargo.toml"@),
        join_of(d, "package.json"@),
        join_of(d, "pyproject.toml"@),
        join_of(d, "setup.py"@),
        join_of(d, "pom.xml"@),
        join_of(d, "build.gradle"@),
        join_of(d, "build.gradle.kts"@),
        join_of(d, "go.mod"@),
        join_of(d, ".git"@),
        join_of(d, "node_modules/.bin/oxfmt"@),
        join_of(d, "node_modules/.bin/biome"@),
        join_of(d, "node_modules/.bin/prettier"@),
        join_of(join_of(join_of(d, ".venv"@), "bin"@), "ruff"@),
        join_of(join_of(join_of(d, "venv"@), "bin"@), "ruff"@),
        join_of(join_of(join_of(d, ".venv"@), "bin"@), "black"@),
        join_of(join_of(join_of(d, "venv"@), "bin"@), "black"@),
        join_of(join_of(join_of(d, ".venv"@), "bin"@), "autopep8"@),
        join_of(join_of(join_of(d, "venv"@), "bin"@), "autopep8"@),
        join_of(join_of(join_of(d, ".venv"@), "bin"@), "yapf"@),
        join_of(join_of(join_of(d, "venv"@), "bin"@), "yapf"@),
        join_of(d, "gradlew"@),
    ]
}

/// The probes of a directory and of everything above it.
pub open spec fn probes_from(dir: Seq<char>) -> Seq<Seq<char>>
    decreases dir.len(),
    via probes_from_decreases
{
    dir_probes(dir) + match parent_of(dir) {
        None => Seq::<Seq<char>>::empty(),
        Some(p) => probes_from(p),
    }
}

#[via_fn]
proof fn probes_from_decreases(dir: Seq<char>) {
    lemma_parent_shorter(dir);
}

/// Every path the resolver may consult for `file`: the probes of every
/// directory on the parent chain of `file`.
pub open spec fn fs_probes_spec(file: Seq<char>) -> Seq<Seq<char>> {
    match parent_of(file) {
        None => Seq::<Seq<char>>::empty(),
        Some(d) => probes_from(d),
    }
}

/// Append the probes of one directory.
fn push_dir_probes(acc: &mut Vec<String>, dir: &str)
    ensures
        final(acc).deep_view() == old(acc).deep_view() + dir_probes(dir@),
{
    acc.push(join_path(dir, "Cargo.toml"));
    acc.push(join_path(dir, "package.json"));
    acc.push(join_path(dir, "pyproject.toml"));
    acc.push(join_path(dir, "setup.py"));
    acc.push(join_path(dir, "pom.xml"));
    acc.push(join_path(dir, "build.gradle"));
    acc.push(join_path(dir, "build.gradle.kts"));
    acc.push(join_path(dir, "go.mod"));
    acc.push(join_path(dir, ".git"));
    acc.push(join_path(dir, "node_modules/.bin/oxfmt"));
    acc.push(join_path(dir, "node_modules/.bin/biome"));
    acc.push(join_path(dir, "node_modules/.bin/prettier"));
    let dot_venv_bin = join_path(join_path(dir, ".venv").as_str(), "bin");
    let venv_bin = join_path(join_path(dir, "venv").as_str(), "bin");
    acc.push(join_path(dot_venv_bin.as_str(), "ruff"));
    acc.push(join_path(venv_bin.as_str(), "ruff"));
    acc.push(join_path(dot_venv_bin.as_str(), "black"));
    acc.push(join_path(venv_bin.as_str(), "black"));
    acc.push(join_path(dot_venv_bin.as_str(), "autopep8"));
    acc.push(join_path(venv_bin.as_str(), "autopep8"));
    acc.push(join_path(dot_venv_bin.as_str(), "yapf"));
    acc.push(join_path(venv_bin.as_str(), "yapf"));
    acc.push(join_path(dir, "gradlew"));
    proof {
        assert(acc.deep_view() =~= old(acc).deep_view() + dir_probes(dir@));
    }
}

/// The full list of filesystem paths whose existence matters for `file`:
/// checking exactly these suffices to build an accurate snapshot.
pub fn fs_probes(file_path: &str) -> (r: Vec<String>)
    ensures
        r.deep_view() == fs_probes_spec(file_path@),
{
    let mut acc: Vec<String> = Vec::new();
    let mut current = match parent_dir(file_path) {
        None => {
            proof {
                assert(acc.deep_view() =~= fs_probes_spec(file_path@));
            }
            return acc;
        },
        Some(d) => d,
    };
    proof {
        assert(Seq::<Seq<char>>::empty() + probes_from(current@) =~= probes_from(current@));
    }
    loop
        invariant
            acc.deep_view() + probes_from(current@) == fs_probes_spec(file_path@),
        decreases current@.len(),
    {
        push_dir_probes(&mut acc, current.as_str());
        match parent_dir(current.as_str()) {
            None => {
                proof {
                    assert(probes_from(current@) =~= dir_probes(current@));
                    assert(acc.deep_view() =~= fs_probes_spec(file_path@));
                }
                return acc;
            },
            Some(p) => {
                proof {
                    lemma_parent_shorter(current@);
                    assert(acc.deep_view() + probes_from(p@) =~= fs_probes_spec(file_path@));
                }
                current = p;
            },
        }
    }
}

/// Every command name the resolver may look for on the search path.
pub open spec fn command_names() -> Seq<Seq<char>> {
    seq![
        "oxfmt"@,
        "dprint"@,
        "rustfmt"@,
        "ruff"@,
        "black"@,
        "autopep8"@,
        "yapf"@,
        "google-java-format"@,
        "palantir-java-format"@,
        "goimports"@,
        "gofumpt"@,
        "gofmt"@,
    ]
}

/// The full list of command names whose availability matters: checking
/// exactly these suffices to build an accurate snapshot.
pub fn command_probes() -> (r: Vec<String>)
    ensures
        r.deep_view() == command_names(),
{
    let mut v: Vec<String> = Vec::new();
    v.push(String::from_str("oxfmt"));
    v.push(String::from_str("dprint"));
    v.push(String::from_str("rustfmt"));
    v.push(String::from_str("ruff"));
    v.push(String::from_str("black"));
    v.push(String::from_str("autopep8"));
    v.push(String::from_str("yapf"));
    v.push(String::from_str("google-java-format"));
    v.push(String::from_str("palantir-java-format"));
    v.push(String::from_str("goimports"));
    v.push(String::from_str("gofumpt"));
    v.push(String::from_str("gofmt"));
    proof {
        assert(v.deep_view() =~= command_names());
    }
    v
}

/// An element of the left part is in the concatenation.
proof fn lemma_contains_concat_left(a: Seq<Seq<char>>, b: Seq<Seq<char>>, x: Seq<char>)
    requires
        a.contains(x),
    ensures
        (a + b).contains(x),
{
    let j = choose|j: int| 0 <= j < a.len() && a[j] == x;
    assert((a + b)[j] == x);
}

/// An element of the right part is in the concatenation.
proof fn lemma_contains_concat_right(a: Seq<Seq<char>>, b: Seq<Seq<char>>, x: Seq<char>)
    requires
        b.contains(x),
    ensures
        (a + b).contains(x),
{
    let j = choose|j: int| 0 <= j < b.len() && b[j] == x;
    assert((a + b)[a.len() + j] == x);
}

/// The chain's probes include the probes of every directory it reaches.
proof fn lemma_probes_from_cover(start: Seq<char>, d: Seq<char>)
    requires
        reaches(start, d),
    ensures
        forall|i: int| 0 <= i < dir_probes(d).len() ==> probes_from(start).contains(
            #[trigger] dir_probes(d)[i],
        ),
    decreases start.len(),
{
    if start == d {
        assert forall|i: int| 0 <= i < dir_probes(d).len() implies probes_from(start).contains(
            #[trigger] dir_probes(d)[i],
        ) by {
            assert(probes_from(start)[i] == dir_probes(d)[i]);
        }
    } else {
        let p = parent_of(start).unwrap();
        lemma_parent_shorter(start);
        lemma_probes_from_cover(p, d);
        assert forall|i: int| 0 <= i < dir_probes(d).len() implies probes_from(start).contains(
            #[trigger] dir_probes(d)[i],
        ) by {
            assert(probes_from(p).contains(dir_probes(d)[i]));
            lemma_contains_concat_right(dir_probes(start), probes_from(p), dir_probes(d)[i]);
        }
    }
}

/// The probe list for a file covers every path the resolver may consult:
/// each probe of each directory on the file's parent chain is in it.
pub proof fn lemma_probes_cover(file: Seq<char>, d: Seq<char>)
    requires
        parent_of(file) matches Some(start) && reaches(start, d),
    ensures
        forall|i: int| 0 <= i < dir_probes(d).len() ==> fs_probes_spec(file).contains(
            #[trigger] dir_probes(d)[i],
        ),
{
    lemma_probes_from_cover(parent_of(file).unwrap(), d);
}

/// Linear scan for a string among a vector of strings.
fn seq_contains(ss: &Vec<String>, p: &str) -> (r: bool)
    ensures
        r == contains_str(ss@, p@),
{
    let n = ss.len();
    let mut i: usize = 0;
    while i < n
        invariant
            n == ss@.len(),
            i <= n,
            forall|j: int| 0 <= j < i ==> ss@[j]@ != p@,
        decreases n - i,
    {
        if crate::strutil::str_eq(ss[i].as_str(), p) {
            return true;
        }
        i = i + 1;
    }
    false
}

} // verus!
