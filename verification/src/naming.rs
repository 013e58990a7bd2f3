//! What a file's path says about it: whether the file is a shader binary, and
//! which pipeline stage the shader belongs to.
//!
//! Every rule is a substring test on the whole path, so a marker counts
//! wherever it stands, in a directory's name as well as in the file's.

use crate::binding::{fragment_stage_bits, vertex_stage_bits};
use crate::pattern::{chars_of, contains_chars, lemma_occurs_in_transitive, occurs_at, occurs_in};
use vstd::prelude::*;

verus! {

/// A pipeline stage that a path can name.
#[derive(Clone, Copy, Debug, PartialEq, Eq, Structural)]
pub enum StageKind {
    Vertex,
    Fragment,
}

impl StageKind {
    /// The bit that stands for the stage in a set of stage flags.
    pub open spec fn spec_flag_bits(self) -> u32 {
        match self {
            StageKind::Vertex => 0x1,
            StageKind::Fragment => 0x10,
        }
    }

    /// The bit that stands for the stage in a set of stage flags.
    pub fn flag_bits(self) -> (bits: u32)
        ensures
            bits == self.spec_flag_bits(),
    {
        match self {
            StageKind::Vertex => vertex_stage_bits(),
            StageKind::Fragment => fragment_stage_bits(),
        }
    }
}

/// Paths of shader binaries hold `.spv`, `.vs` or `.fs`.
pub open spec fn is_shader_path(path: Seq<char>) -> bool {
    occurs_in(path, ".spv"@) || occurs_in(path, ".vs"@) || occurs_in(path, ".fs"@)
}

/// The stage that a path names: `.vert.spv` or `.vs` a vertex shader,
/// otherwise `.frag.spv` or `.fs` a fragment shader, otherwise none. A path
/// with markers of both stages names a vertex shader.
pub open spec fn stage_of(path: Seq<char>) -> Option<StageKind> {
    if occurs_in(path, ".vert.spv"@) || occurs_in(path, ".vs"@) {
        Some(StageKind::Vertex)
    } else if occurs_in(path, ".frag.spv"@) || occurs_in(path, ".fs"@) {
        Some(StageKind::Fragment)
    } else {
        None
    }
}

/// The paths of `paths` that are shader binaries, in their order.
pub open spec fn shader_paths(paths: Seq<Seq<char>>) -> Seq<Seq<char>> {
    paths.filter(|path: Seq<char>| is_shader_path(path))
}

/// Every path that names a stage is the path of a shader binary.
pub proof fn lemma_staged_path_is_shader_path(path: Seq<char>)
    requires
        stage_of(path) is Some,
    ensures
        is_shader_path(path),
{
    reveal_strlit(".spv");
    reveal_strlit(".vert.spv");
    reveal_strlit(".frag.spv");
    if occurs_in(path, ".vert.spv"@) {
        assert(".vert.spv"@.subrange(5, 9) =~= ".spv"@);
        assert(occurs_at(".vert.spv"@, ".spv"@, 5));
        lemma_occurs_in_transitive(path, ".vert.spv"@, ".spv"@);
    } else if occurs_in(path, ".frag.spv"@) {
        assert(".frag.spv"@.subrange(5, 9) =~= ".spv"@);
        assert(occurs_at(".frag.spv"@, ".spv"@, 5));
        lemma_occurs_in_transitive(path, ".frag.spv"@, ".spv"@);
    }
}

/// Whether `path` is the path of a shader binary.
pub fn is_shader_file(path: &str) -> (b: bool)
    ensures
        b == is_shader_path(path@),
{
    let chars = chars_of(path);
    contains_chars(&chars, &chars_of(".spv")) || contains_chars(&chars, &chars_of(".vs"))
        || contains_chars(&chars, &chars_of(".fs"))
}

/// The stage that `path` names, if it names one.
pub fn infer_stage(path: &str) -> (stage: Option<StageKind>)
    ensures
        stage == stage_of(path@),
{
    let chars = chars_of(path);
    if contains_chars(&chars, &chars_of(".vert.spv")) || contains_chars(&chars, &chars_of(".vs")) {
        Some(StageKind::Vertex)
    } else if contains_chars(&chars, &chars_of(".frag.spv")) || contains_chars(
        &chars,
        &chars_of(".fs"),
    ) {
        Some(StageKind::Fragment)
    } else {
        None
    }
}

/// Picks the shader binaries out of a directory listing, keeping their order.
pub fn shader_files(entries: &Vec<String>) -> (files: Vec<String>)
    ensures
        files.deep_view() == shader_paths(entries.deep_view()),
{
    let ghost keep = |path: Seq<char>| is_shader_path(path);
    let mut files: Vec<String> = Vec::new();
    let mut i: usize = 0;
    while i < entries.len()
        invariant
            i <= entries.len(),
            keep == |path: Seq<char>| is_shader_path(path),
            files.deep_view() == entries.deep_view().take(i as int).filter(keep),
        decreases entries.len() - i,
    {
        let ghost seen = entries.deep_view().take(i as int);
        let ghost next = entries.deep_view().take(i + 1);
        proof {
            reveal(Seq::filter);
            assert(next.drop_last() =~= seen);
            assert(next.last() == entries[i as int]@);
        }
        if is_shader_file(entries[i].as_str()) {
            files.push(entries[i].clone());
            assert(files.deep_view() =~= seen.filter(keep).push(entries[i as int]@));
        }
        i += 1;
    }
    assert(entries.deep_view().take(i as int) =~= entries.deep_view());
    files
}

} // verus!
