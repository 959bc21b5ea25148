//! The engine's only window onto the disk: a depth-bounded directory walk
//! and a directory-existence probe. Everything else the engine does is a
//! decision over the plain values these two hand back.

use vstd::prelude::*;

use crate::component::FsEntry;

verus! {

/// Relies on `walkdir::WalkDir` with `follow_links(false)`: a recursive
/// walk from `root` that never follows symbolic links and yields only
/// entries whose depth lies within the given inclusive bounds; depth 0 is
/// the root itself, so an entry at depth 0 carries the root path, and
/// every entry's path is built by joining names below the given root, so
/// it extends the root — strictly below depth 0. Unreadable entries are
/// skipped. What the walk finds depends on the disk, so nothing more is
/// promised of the result.
#[verifier::external_body]
pub(crate) fn walk_tree(root: &String, min_depth: usize, max_depth: usize) -> (r: Vec<FsEntry>)
    requires
        min_depth <= max_depth,
    ensures
        forall|i: int|
            0 <= i < r@.len() ==> min_depth <= (#[trigger] r@[i]).depth <= max_depth,
        forall|i: int|
            0 <= i < r@.len() ==> ((#[trigger] r@[i]).depth == 0 ==> r@[i].path@ == root@),
        forall|i: int| 0 <= i < r@.len() ==> !((#[trigger] r@[i]).is_file && r@[i].is_dir),
        forall|i: int|
            0 <= i < r@.len() ==> ((#[trigger] r@[i]).path@.len() >= root@.len()
                && r@[i].path@.subrange(0, root@.len() as int) == root@),
        forall|i: int|
            0 <= i < r@.len() ==> ((#[trigger] r@[i]).depth >= 1 ==> r@[i].path@.len()
                > root@.len()),
{
    let mut out: Vec<FsEntry> = Vec::new();
    let walk = walkdir::WalkDir::new(root.as_str()).follow_links(false).min_depth(
        min_depth,
    ).max_depth(max_depth);
    for entry in walk.into_iter().filter_map(|e| e.ok()) {
        let ft = entry.file_type();
        let size = entry.metadata().map(|m| m.len()).unwrap_or(0);
        let path = entry.path().to_string_lossy().into_owned();
        out.push(
            FsEntry { path, depth: entry.depth(), is_file: ft.is_file(), is_dir: ft.is_dir(), size },
        );
    }
    out
}

/// Relies on `std::path::Path::is_dir`: whether the path names an existing
/// directory on disk. The answer depends on the disk, so nothing is
/// promised of it.
#[verifier::external_body]
pub(crate) fn dir_exists(path: &String) -> bool {
    std::path::Path::new(path.as_str()).is_dir()
}

} // verus!
