//! The manifest as a mathematical value: an optional version and the
//! artifacts in the order in which they are written, no path twice.

use vstd::prelude::*;
use crate::checksum::ChecksumView;

verus! {

/// One artifact of a manifest: a path and the checksum expected of the file there.
pub struct ArtifactView {
    pub path: Seq<char>,
    pub checksum: ChecksumView,
}

/// What a manifest is, as a mathematical value.
pub struct ManifestView {
    pub version: Option<Seq<char>>,
    pub entries: Seq<ArtifactView>,
}

/// Whether no two entries have the same path.
pub open spec fn distinct_paths(entries: Seq<ArtifactView>) -> bool {
    forall|i: int, j: int|
        0 <= i < j < entries.len() ==> (#[trigger] entries[i]).path != (#[trigger] entries[j]).path
}

/// Whether some entry has the given path.
pub open spec fn has_path(entries: Seq<ArtifactView>, path: Seq<char>) -> bool {
    exists|i: int| 0 <= i < entries.len() && (#[trigger] entries[i]).path == path
}

/// The place of an entry with the given path, where there is one.
pub open spec fn position(entries: Seq<ArtifactView>, path: Seq<char>) -> int {
    choose|i: int| 0 <= i < entries.len() && (#[trigger] entries[i]).path == path
}

/// The entries after `artifact` has been recorded: it takes the place of the
/// entry with its path, or comes last where there was none.
pub open spec fn put(entries: Seq<ArtifactView>, artifact: ArtifactView) -> Seq<ArtifactView> {
    if has_path(entries, artifact.path) {
        entries.update(position(entries, artifact.path), artifact)
    } else {
        entries.push(artifact)
    }
}

/// The entries as a mapping from path to checksum, their order forgotten.
pub open spec fn mapping(entries: Seq<ArtifactView>) -> Map<Seq<char>, ChecksumView> {
    Map::new(
        |path: Seq<char>| has_path(entries, path),
        |path: Seq<char>| entries[position(entries, path)].checksum,
    )
}

impl ManifestView {
    /// The manifest without a version and without artifacts.
    pub open spec fn empty() -> ManifestView {
        ManifestView { version: None, entries: Seq::empty() }
    }

    /// The artifacts as a mapping from path to checksum.
    pub open spec fn artifacts(self) -> Map<Seq<char>, ChecksumView> {
        mapping(self.entries)
    }

    /// The manifest after `artifact` has been recorded.
    pub open spec fn with_artifact(self, artifact: ArtifactView) -> ManifestView {
        ManifestView { version: self.version, entries: put(self.entries, artifact) }
    }

    /// The manifest with another version.
    pub open spec fn with_version(self, version: Option<Seq<char>>) -> ManifestView {
        ManifestView { version, entries: self.entries }
    }
}

/// Recording an artifact keeps the paths distinct.
pub proof fn lemma_put_distinct(entries: Seq<ArtifactView>, artifact: ArtifactView)
    requires
        distinct_paths(entries),
    ensures
        distinct_paths(put(entries, artifact)),
        has_path(put(entries, artifact), artifact.path),
        put(entries, artifact)[position(put(entries, artifact), artifact.path)] == artifact,
{
    let after = put(entries, artifact);
    if has_path(entries, artifact.path) {
        let p = position(entries, artifact.path);
        assert forall|i: int, j: int| 0 <= i < j < after.len() implies (#[trigger] after[i]).path
            != (#[trigger] after[j]).path by {
            assert(after[i].path == entries[i].path);
            assert(after[j].path == entries[j].path);
        }
        assert(after[p].path == artifact.path);
    } else {
        assert forall|i: int, j: int| 0 <= i < j < after.len() implies (#[trigger] after[i]).path
            != (#[trigger] after[j]).path by {
            if j == entries.len() {
                assert(entries[i].path != artifact.path);
            } else {
                assert(after[i] == entries[i] && after[j] == entries[j]);
            }
        }
        assert(after[entries.len() as int].path == artifact.path);
    }
    let q = position(after, artifact.path);
    assert(after[q].path == artifact.path);
    if has_path(entries, artifact.path) {
        let p = position(entries, artifact.path);
        if q != p {
            if q < p {
                assert(after[q].path != after[p].path);
            } else {
                assert(after[p].path != after[q].path);
            }
        }
    } else {
        let p = entries.len() as int;
        if q != p {
            assert(after[q].path != after[p].path);
        }
    }
}

/// Recording an artifact is an insertion into the mapping: the path now
/// stands for the new checksum, and every other path for what it stood for.
pub proof fn lemma_put_mapping(entries: Seq<ArtifactView>, artifact: ArtifactView)
    requires
        distinct_paths(entries),
    ensures
        mapping(put(entries, artifact)) == mapping(entries).insert(
            artifact.path,
            artifact.checksum,
        ),
{
    let after = put(entries, artifact);
    lemma_put_distinct(entries, artifact);
    let left = mapping(after);
    let right = mapping(entries).insert(artifact.path, artifact.checksum);
    assert forall|path: Seq<char>| left.dom().contains(path) == right.dom().contains(path) by {
        if has_path(after, path) {
            let q = position(after, path);
            if path != artifact.path {
                assert(entries[q].path == path);
            }
        }
        if has_path(entries, path) {
            let p = position(entries, path);
            assert(after[p].path == path);
        }
    }
    assert forall|path: Seq<char>| #[trigger] left.dom().contains(path) implies left[path]
        == right[path] by {
        if path != artifact.path {
            let q = position(after, path);
            assert(entries[q].path == path);
            let p = position(entries, path);
            if p != q {
                if p < q {
                    assert(entries[p].path != entries[q].path);
                } else {
                    assert(entries[q].path != entries[p].path);
                }
            }
            assert(after[q] == entries[q]);
        }
    }
    assert(left =~= right);
}

/// In a manifest without repeated paths, an entry's path stands for that entry's checksum.
pub proof fn lemma_mapping_of_entry(entries: Seq<ArtifactView>, i: int)
    requires
        distinct_paths(entries),
        0 <= i < entries.len(),
    ensures
        has_path(entries, entries[i].path),
        position(entries, entries[i].path) == i,
        mapping(entries)[entries[i].path] == entries[i].checksum,
{
    let p = position(entries, entries[i].path);
    if p != i {
        if p < i {
            assert(entries[p].path != entries[i].path);
        } else {
            assert(entries[i].path != entries[p].path);
        }
    }
}

} // verus!
