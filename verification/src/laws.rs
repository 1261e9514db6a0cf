//! Library-wide laws, stated and proved over the resolution model.

use vstd::prelude::*;

use crate::format::{
    format_file_spec, js_candidates, js_global_candidates, js_local_candidates, oxfmt_candidates,
    ResolutionView,
};
use crate::host::HostView;
use crate::paths::{extension_of, file_name_of, join_of};
use crate::project::{find_root_spec, generic_markers};

verus! {

/// The extensions for which some formatter family is defined.
pub open spec fn is_supported_ext(ext: Seq<char>) -> bool {
    ||| ext == "js"@
    ||| ext == "jsx"@
    ||| ext == "ts"@
    ||| ext == "tsx"@
    ||| ext == "mjs"@
    ||| ext == "cjs"@
    ||| ext == "rs"@
    ||| ext == "py"@
    ||| ext == "pyi"@
    ||| ext == "java"@
    ||| ext == "go"@
    ||| ext == "json"@
    ||| ext == "jsonc"@
    ||| ext == "json5"@
    ||| ext == "yaml"@
    ||| ext == "yml"@
    ||| ext == "toml"@
    ||| ext == "html"@
    ||| ext == "htm"@
    ||| ext == "vue"@
    ||| ext == "css"@
    ||| ext == "scss"@
    ||| ext == "less"@
    ||| ext == "md"@
    ||| ext == "markdown"@
    ||| ext == "mdx"@
    ||| ext == "graphql"@
    ||| ext == "gql"@
    ||| ext == "hbs"@
    ||| ext == "handlebars"@
}

/// `sub` occurs contiguously inside `s`.
pub open spec fn contains_seq(s: Seq<char>, sub: Seq<char>) -> bool {
    exists|i: int| 0 <= i && i + sub.len() <= s.len() && #[trigger] s.subrange(i, i + sub.len())
        == sub
}

/// A file whose extension is not in the supported set resolves to the
/// unsupported outcome, carrying that extension verbatim: no candidate
/// list exists for it.
pub proof fn lemma_unsupported_extension(
    host: &HostView,
    file: Seq<char>,
    project_only: bool,
    ext: Seq<char>,
)
    requires
        file_name_of(file) != "package.json"@,
        extension_of(file) == Some(ext),
        !is_supported_ext(ext),
    ensures
        format_file_spec(host, file, project_only) == (ResolutionView::Unsupported { ext }),
{
}

/// The message reported for an unsupported extension contains the literal
/// extension text.
pub proof fn lemma_unsupported_message_contains_ext(ext: Seq<char>)
    ensures
        contains_seq("Unsupported file extension: "@ + ext, ext),
{
    let s = "Unsupported file extension: "@ + ext;
    let p = "Unsupported file extension: "@.len() as int;
    assert(s.subrange(p, p + ext.len()) =~= ext);
}

/// A file named exactly like the Node manifest is always skipped, never
/// merely unsupported, whatever its extension would say.
pub proof fn lemma_manifest_skipped(host: &HostView, file: Seq<char>, project_only: bool)
    requires
        file_name_of(file) == "package.json"@,
    ensures
        format_file_spec(host, file, project_only) == ResolutionView::Skipped,
{
}

/// Resolution is deterministic: any two resolutions of the same file
/// against the same host snapshot are identical, candidate order included.
pub proof fn lemma_resolution_deterministic(
    host: &HostView,
    file: Seq<char>,
    project_only: bool,
    a: ResolutionView,
    b: ResolutionView,
)
    requires
        a == format_file_spec(host, file, project_only),
        b == format_file_spec(host, file, project_only),
    ensures
        a == b,
{
}

/// In the JavaScript/TypeScript family, a present project-local formatter
/// always outranks every global one: the candidate list is the local tier
/// followed by the global tier, and no global entry ever precedes a local
/// one.
pub proof fn lemma_js_local_preferred(host: &HostView, file: Seq<char>, project_only: bool)
    ensures
        js_candidates(host, file, project_only) == js_local_candidates(host, file)
            + js_global_candidates(host, file, project_only),
        forall|i: int| 0 <= i < js_local_candidates(host, file).len() ==> (#[trigger]
        js_local_candidates(host, file)[i]).project_local,
        forall|i: int| 0 <= i < js_global_candidates(host, file, project_only).len()
            ==> !(#[trigger] js_global_candidates(host, file, project_only)[i]).project_local,
        forall|i: int, j: int|
            0 <= i < js_candidates(host, file, project_only).len() && 0 <= j < js_candidates(
                host,
                file,
                project_only,
            ).len() && (#[trigger] js_candidates(host, file, project_only)[i]).project_local
                && !(#[trigger] js_candidates(host, file, project_only)[j]).project_local ==> i
                < j,
{
    let locals = js_local_candidates(host, file);
    let globals = js_global_candidates(host, file, project_only);
    assert forall|i: int| 0 <= i < locals.len() implies (#[trigger] locals[i]).project_local by {}
    assert forall|i: int| 0 <= i < globals.len() implies !(#[trigger] globals[i]).project_local by {}
    assert forall|i: int, j: int|
        0 <= i < (locals + globals).len() && 0 <= j < (locals + globals).len() && (#[trigger] (
        locals + globals)[i]).project_local && !(#[trigger] (locals + globals)[j]).project_local
        implies i < j by {
        assert(i < locals.len());
        assert(j >= locals.len());
    }
}

/// In the marker-driven family, a present project-local formatter binary
/// is always tried before the global one.
pub proof fn lemma_oxfmt_local_preferred(host: &HostView, file: Seq<char>, project_only: bool)
    ensures
        (match find_root_spec(host, file, generic_markers()) {
            Some(root) => host.path_exists_spec(join_of(root, "node_modules/.bin/oxfmt"@))
                ==> oxfmt_candidates(host, file, project_only).len() >= 1 && oxfmt_candidates(
                host,
                file,
                project_only,
            )[0].project_local && oxfmt_candidates(
                host,
                file,
                project_only,
            )[0].invocations[0].program == join_of(root, "node_modules/.bin/oxfmt"@),
            None => true,
        }),
        forall|i: int, j: int|
            0 <= i < oxfmt_candidates(host, file, project_only).len() && 0 <= j
                < oxfmt_candidates(host, file, project_only).len() && (#[trigger]
            oxfmt_candidates(host, file, project_only)[i]).project_local && !(#[trigger]
            oxfmt_candidates(host, file, project_only)[j]).project_local ==> i < j,
{
}

} // verus!
