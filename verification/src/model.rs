//! A model of the store's effect on the file system, and the laws that
//! hold of it.
//!
//! The shell around this crate performs the actual reads, writes and
//! directory creations. Their effect is modelled here over plain values: a
//! file is `None` when absent and `Some(content)` when it holds `content`,
//! and the set of directories that exist is a set of paths, each path a
//! sequence of name components from the root down. The laws below are
//! proved of this model.

use vstd::prelude::*;

use crate::text::strip_ws;

verus! {

/// The configuration file after a write of `config`: writing creates or
/// truncates the file and stores the text verbatim, whatever was there
/// before.
pub open spec fn file_after_write(previous: Option<Seq<char>>, config: Seq<char>) -> Option<
    Seq<char>,
> {
    Some(config)
}

/// What a read of the configuration yields: the stored text with every
/// whitespace character removed, or nothing when the file is absent (the
/// read then fails).
pub open spec fn read_outcome(file: Option<Seq<char>>) -> Option<Seq<char>> {
    match file {
        Some(content) => Some(strip_ws(content)),
        None => None,
    }
}

/// The directories that must exist for `path` to exist: `path` itself and
/// every ancestor of it, each written as a prefix of `path`'s components.
pub open spec fn ancestor_dirs(path: Seq<Seq<char>>) -> Set<Seq<Seq<char>>> {
    Set::new(|d: Seq<Seq<char>>| exists|i: int| 1 <= i <= path.len() && d == path.subrange(0, i))
}

/// The directories that exist after ensuring `path`: the ones that existed
/// before, together with `path` and all its ancestors.
pub open spec fn dirs_after_ensure(existing: Set<Seq<Seq<char>>>, path: Seq<Seq<char>>) -> Set<
    Seq<Seq<char>>,
> {
    existing.union(ancestor_dirs(path))
}

/// Writing stores the text verbatim: after a write of `config`, the raw
/// file holds exactly `config`, byte for byte, whatever it held before.
pub proof fn lemma_write_stores_verbatim(previous: Option<Seq<char>>, config: Seq<char>)
    ensures
        file_after_write(previous, config) == Some(config),
{
}

/// Reading after writing yields the written text with every whitespace
/// character removed.
pub proof fn lemma_read_after_write(previous: Option<Seq<char>>, config: Seq<char>)
    ensures
        read_outcome(file_after_write(previous, config)) == Some(strip_ws(config)),
{
}

/// Writing the same text twice leaves the same file content as writing it
/// once.
pub proof fn lemma_write_idempotent(previous: Option<Seq<char>>, config: Seq<char>)
    ensures
        file_after_write(file_after_write(previous, config), config) == file_after_write(
            previous,
            config,
        ),
{
}

/// Ensuring a directory twice leaves the same directory structure as
/// ensuring it once.
pub proof fn lemma_ensure_directory_idempotent(existing: Set<Seq<Seq<char>>>, path: Seq<Seq<char>>)
    ensures
        dirs_after_ensure(dirs_after_ensure(existing, path), path) == dirs_after_ensure(
            existing,
            path,
        ),
{
    assert(dirs_after_ensure(dirs_after_ensure(existing, path), path) =~= dirs_after_ensure(
        existing,
        path,
    ));
}

/// Ensuring a nested directory creates every intermediate directory: after
/// the call, every prefix of the path's components names a directory that
/// exists.
pub proof fn lemma_ensure_directory_creates_all(
    existing: Set<Seq<Seq<char>>>,
    path: Seq<Seq<char>>,
)
    ensures
        forall|i: int|
            1 <= i <= path.len() ==> dirs_after_ensure(existing, path).contains(
                #[trigger] path.subrange(0, i),
            ),
{
    assert forall|i: int| 1 <= i <= path.len() implies dirs_after_ensure(existing, path).contains(
        #[trigger] path.subrange(0, i),
    ) by {
        assert(ancestor_dirs(path).contains(path.subrange(0, i)));
    }
}

} // verus!
