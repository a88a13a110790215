//! Reading undoes writing: the law that ties the two halves of a dialect together.

use vstd::prelude::*;
use crate::checksum::ChecksumAlgorithm;
use crate::hex::{digit_value, encode_spec, lemma_decode_encode, lemma_encode_digits};
use crate::manifest::dialect::{
    Dialect, absorb, entry_representable, hex_len, is_version_line, parse_lines, parse_spec,
    render_entries, render_entry, render_spec, representable, simple_entry, standard_entry,
    version_prefix,
};
use crate::manifest::lines::{lemma_split_joined, line_break, single_line};
use crate::manifest::model::{ArtifactView, ManifestView, distinct_paths, has_path};

verus! {

/// The line of an artifact that the dialect can record is one line, not
/// empty, no remark, and reads back as that artifact.
pub proof fn lemma_entry_reads_back(
    dialect: Dialect,
    algorithm: ChecksumAlgorithm,
    artifact: ArtifactView,
)
    requires
        entry_representable(dialect, algorithm, artifact),
    ensures
        single_line(render_entry(dialect, artifact)),
        render_entry(dialect, artifact).len() > 0,
        dialect == Dialect::Simple ==> render_entry(dialect, artifact)[0] != ';',
        dialect == Dialect::Standard ==> standard_entry(algorithm, render_entry(dialect, artifact))
            == Some(artifact),
        dialect == Dialect::Simple ==> simple_entry(algorithm, render_entry(dialect, artifact))
            == Some(artifact),
{
    let line = render_entry(dialect, artifact);
    let hex = encode_spec(artifact.checksum.digest);
    let n = hex_len(algorithm);
    lemma_decode_encode(artifact.checksum.digest);
    lemma_encode_digits(artifact.checksum.digest);
    assert(hex.len() == n);
    assert(digit_value(line_break()) is None);
    assert forall|i: int| 0 <= i < hex.len() implies hex[i] != line_break() by {
        assert(digit_value(hex[i]) is Some);
    }
    match dialect {
        Dialect::Standard => {
            assert(line.take(n) =~= hex);
            assert(line.skip(n + 2) =~= artifact.path);
            assert(line[n] == ' ');
            assert forall|i: int| 0 <= i < line.len() implies line[i] != line_break() by {
                if i < n {
                    assert(line[i] == hex[i]);
                } else if i >= n + 2 {
                    assert(line[i] == artifact.path[i - n - 2]);
                }
            }
            assert(standard_entry(algorithm, line)->0.checksum == artifact.checksum);
        },
        Dialect::Simple => {
            let p = artifact.path.len();
            assert(line.len() == p + 1 + n);
            assert(line.skip(line.len() - n) =~= hex);
            assert(line.take(line.len() - n - 1) =~= artifact.path);
            assert(line[line.len() - n - 1] == ' ');
            assert(line[0] == artifact.path[0]);
            assert forall|i: int| 0 <= i < line.len() implies line[i] != line_break() by {
                if i < p {
                    assert(line[i] == artifact.path[i]);
                } else if i > p {
                    assert(line[i] == hex[i - p - 1]);
                }
            }
            assert(simple_entry(algorithm, line)->0.checksum == artifact.checksum);
        },
    }
}

/// Reading the lines of artifacts that the dialect can record, none of them
/// under a path that was read before, adds them in order to what was read
/// before.
pub proof fn lemma_entries_read_back(
    dialect: Dialect,
    algorithm: ChecksumAlgorithm,
    entries: Seq<ArtifactView>,
    lineno: nat,
    before: ManifestView,
)
    requires
        forall|i: int|
            0 <= i < entries.len() ==> entry_representable(dialect, algorithm, #[trigger] entries[i]),
        distinct_paths(before.entries + entries),
    ensures
        parse_lines(dialect, algorithm, render_entries(dialect, entries), lineno, before) == Ok::<
            ManifestView,
            nat,
        >(ManifestView { version: before.version, entries: before.entries + entries }),
    decreases entries.len(),
{
    let all = before.entries + entries;
    if entries.len() == 0 {
        assert(all =~= before.entries);
        assert(render_entries(dialect, entries).len() == 0);
    } else {
        let head = entries[0];
        let tail = entries.skip(1);
        let line = render_entry(dialect, head);
        let rest = render_entries(dialect, tail);
        let text = render_entries(dialect, entries);
        assert(text == line + seq![line_break()] + rest);
        lemma_entry_reads_back(dialect, algorithm, head);
        lemma_split_joined(line, rest);
        assert(text.len() > 0);
        // The path of the first artifact is new, so the artifact comes last.
        assert(!has_path(before.entries, head.path)) by {
            if has_path(before.entries, head.path) {
                let i = choose|i: int|
                    0 <= i < before.entries.len() && (#[trigger] before.entries[i]).path
                        == head.path;
                assert(all[i] == before.entries[i]);
                assert(all[before.entries.len() as int] == head);
                assert(all[i].path != all[before.entries.len() as int].path);
            }
        }
        let next = before.with_artifact(head);
        assert(next.entries == before.entries.push(head));
        assert(absorb(dialect, algorithm, before, line, lineno) == Some(next));
        assert(next.entries + tail =~= all);
        assert forall|i: int| 0 <= i < tail.len() implies entry_representable(
            dialect,
            algorithm,
            #[trigger] tail[i],
        ) by {
            assert(tail[i] == entries[i + 1]);
        }
        lemma_entries_read_back(dialect, algorithm, tail, lineno + 1, next);
    }
}

/// Round trip: the text of a manifest that the dialect can record reads
/// back, in that dialect and under the same algorithm, as that manifest:
/// the same version and the same artifacts in the same order.
pub proof fn lemma_round_trip(dialect: Dialect, algorithm: ChecksumAlgorithm, manifest: ManifestView)
    requires
        distinct_paths(manifest.entries),
        representable(dialect, algorithm, manifest),
    ensures
        parse_spec(dialect, algorithm, render_spec(dialect, manifest)) == Ok::<ManifestView, nat>(
            manifest,
        ),
{
    let body = render_entries(dialect, manifest.entries);
    let text = render_spec(dialect, manifest);
    let empty = ManifestView::empty();
    match manifest.version {
        None => {
            assert(text =~= body);
            assert(empty.entries + manifest.entries =~= manifest.entries);
            lemma_entries_read_back(dialect, algorithm, manifest.entries, 0, empty);
        },
        Some(v) => {
            let line = version_prefix() + v;
            assert(text =~= line + seq![line_break()] + body);
            assert forall|i: int| 0 <= i < line.len() implies line[i] != line_break() by {
                if i >= version_prefix().len() {
                    assert(line[i] == v[i - version_prefix().len()]);
                }
            }
            lemma_split_joined(line, body);
            assert(line.take(version_prefix().len() as int) =~= version_prefix());
            assert(is_version_line(line));
            assert(line.skip(version_prefix().len() as int) =~= v);
            let next = empty.with_version(Some(v));
            assert(absorb(dialect, algorithm, empty, line, 0) == Some(next));
            assert(next.entries + manifest.entries =~= manifest.entries);
            lemma_entries_read_back(dialect, algorithm, manifest.entries, 1, next);
            assert(text.len() > 0);
        },
    }
}

} // verus!
