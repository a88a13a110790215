//! Writing a manifest down as text.

use vstd::prelude::*;
use crate::checksum::{ChecksumAlgorithm, ChecksumMode};
use crate::hex::encode_into;
use crate::manifest::{Artifact, Manifest, ManifestError};
use crate::manifest::dialect::{
    Dialect, entry_representable, render_entries, render_entry, render_spec, render_version,
    representable, version_representable,
};
use crate::manifest::lines::{line_break, single_line};
use crate::manifest::model::ArtifactView;
use crate::text::{append_chars, chars_of};

verus! {

/// The lines of some artifacts and one more are the lines of the artifacts
/// followed by the line of that one.
pub proof fn lemma_render_push(dialect: Dialect, entries: Seq<ArtifactView>, last: ArtifactView)
    ensures
        render_entries(dialect, entries.push(last)) == render_entries(dialect, entries)
            + render_entry(dialect, last) + seq![line_break()],
    decreases entries.len(),
{
    let all = entries.push(last);
    if entries.len() == 0 {
        assert(all.skip(1) =~= Seq::<ArtifactView>::empty());
        assert(render_entries(dialect, all.skip(1)) =~= Seq::<char>::empty());
        assert(render_entries(dialect, all) =~= render_entries(dialect, entries) + render_entry(
            dialect,
            last,
        ) + seq![line_break()]);
    } else {
        assert(all.skip(1) =~= entries.skip(1).push(last));
        lemma_render_push(dialect, entries.skip(1), last);
        assert(render_entries(dialect, all) =~= render_entries(dialect, entries) + render_entry(
            dialect,
            last,
        ) + seq![line_break()]);
    }
}

/// Whether the characters hold no line break.
fn is_single_line(chars: &Vec<char>) -> (b: bool)
    ensures
        b == single_line(chars@),
{
    let mut i: usize = 0;
    while i < chars.len()
        invariant
            i <= chars.len(),
            forall|k: int| 0 <= k < i ==> chars@[k] != line_break(),
        decreases chars.len() - i,
    {
        if chars[i] == '\n' {
            return false;
        }
        i += 1;
    }
    true
}

/// Whether the dialect can record the artifact, whose path is given as characters too.
fn can_write(dialect: Dialect, algorithm: ChecksumAlgorithm, artifact: &Artifact, path: &Vec<char>)
    -> (ok: bool)
    requires
        path@ == artifact.path@,
    ensures
        ok == entry_representable(dialect, algorithm, artifact@),
{
    if artifact.checksum.algorithm != algorithm || !artifact.checksum.is_canonical() {
        return false;
    }
    if path.len() == 0 || !is_single_line(path) {
        return false;
    }
    match dialect {
        Dialect::Standard => true,
        Dialect::Simple => artifact.checksum.mode == ChecksumMode::Binary && path[0] != ';',
    }
}

/// Writes the line of an artifact, with its line break, at the end of `out`.
fn write_entry(dialect: Dialect, artifact: &Artifact, path: &Vec<char>, out: &mut Vec<char>)
    requires
        path@ == artifact.path@,
    ensures
        final(out)@ == old(out)@ + render_entry(dialect, artifact@) + seq![line_break()],
{
    match dialect {
        Dialect::Standard => {
            encode_into(&artifact.checksum.digest, out);
            out.push(' ');
            out.push(
                match artifact.checksum.mode {
                    ChecksumMode::Binary => '*',
                    ChecksumMode::Text => ' ',
                },
            );
            append_chars(out, path);
        },
        Dialect::Simple => {
            append_chars(out, path);
            out.push(' ');
            encode_into(&artifact.checksum.digest, out);
        },
    }
    out.push('\n');
    proof {
        assert(out@ =~= old(out)@ + render_entry(dialect, artifact@) + seq![line_break()]);
    }
}

/// Writes the version line, if the manifest has a version. Returns whether
/// the dialect can record the version; where it cannot, `out` is as it was.
fn write_version(dialect: Dialect, manifest: &Manifest, out: &mut Vec<char>) -> (ok: bool)
    ensures
        ok == version_representable(dialect, manifest@.version),
        ok ==> final(out)@ == old(out)@ + render_version(manifest@.version),
        !ok ==> final(out)@ == old(out)@,
{
    match manifest.version() {
        None => {
            proof {
                assert(out@ =~= old(out)@ + render_version(manifest@.version));
            }
            true
        },
        Some(version) => {
            let chars = chars_of(version.as_str());
            if dialect != Dialect::Simple || !is_single_line(&chars) {
                return false;
            }
            out.push(';');
            out.push(' ');
            out.push('v');
            out.push('e');
            out.push('r');
            out.push('s');
            out.push('i');
            out.push('o');
            out.push('n');
            out.push(' ');
            append_chars(out, &chars);
            out.push('\n');
            proof {
                assert(out@ =~= old(out)@ + render_version(manifest@.version));
            }
            true
        },
    }
}

/// Writes a manifest down in the given dialect, for a reader that takes
/// every checksum to be of the given algorithm.
///
/// Succeeds exactly where the dialect can record the manifest, with its
/// text. Otherwise the error is `Version` where the version cannot be
/// recorded, and else names the first artifact that cannot.
pub fn render(dialect: Dialect, algorithm: ChecksumAlgorithm, manifest: &Manifest) -> (result:
    Result<Vec<char>, ManifestError>)
    ensures
        match result {
            Ok(text) => representable(dialect, algorithm, manifest@) && text@ == render_spec(
                dialect,
                manifest@,
            ),
            Err(ManifestError::Version) => !version_representable(dialect, manifest@.version),
            Err(ManifestError::Unrepresentable { index }) => {
                &&& version_representable(dialect, manifest@.version)
                &&& index < manifest@.entries.len()
                &&& !entry_representable(dialect, algorithm, manifest@.entries[index as int])
                &&& forall|k: int|
                    0 <= k < index ==> entry_representable(
                        dialect,
                        algorithm,
                        #[trigger] manifest@.entries[k],
                    )
            },
            Err(_) => false,
        },
{
    let mut out: Vec<char> = Vec::new();
    if !write_version(dialect, manifest, &mut out) {
        return Err(ManifestError::Version);
    }
    let ghost entries = manifest@.entries;
    let mut i: usize = 0;
    proof {
        assert(entries.take(0) =~= Seq::<ArtifactView>::empty());
        assert(out@ =~= render_version(manifest@.version) + render_entries(
            dialect,
            entries.take(0),
        ));
    }
    while i < manifest.len()
        invariant
            i <= manifest@.entries.len(),
            entries == manifest@.entries,
            version_representable(dialect, manifest@.version),
            forall|k: int| 0 <= k < i ==> entry_representable(dialect, algorithm, #[trigger] entries[k]),
            out@ == render_version(manifest@.version) + render_entries(
                dialect,
                entries.take(i as int),
            ),
        decreases manifest@.entries.len() - i,
    {
        let artifact = manifest.artifact(i);
        let path = chars_of(artifact.path.as_str());
        if !can_write(dialect, algorithm, artifact, &path) {
            return Err(ManifestError::Unrepresentable { index: i });
        }
        write_entry(dialect, artifact, &path, &mut out);
        proof {
            lemma_render_push(dialect, entries.take(i as int), entries[i as int]);
            assert(entries.take(i + 1) =~= entries.take(i as int).push(entries[i as int]));
            assert(out@ =~= render_version(manifest@.version) + render_entries(
                dialect,
                entries.take(i + 1),
            ));
        }
        i += 1;
    }
    proof {
        assert(entries.take(i as int) =~= entries);
    }
    Ok(out)
}

} // verus!
