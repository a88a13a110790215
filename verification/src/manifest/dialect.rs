//! The two dialects in which a manifest is written down, as functions
//! between manifests and text.
//!
//! Both write one artifact per line. The standard dialect is the one of the
//! coreutils checksum tools: the digest in hexadecimal, a space, a mark for
//! the mode (`*` for binary, a space for text) and the path. The simple
//! dialect writes the path, a space and the digest; it records binary
//! checksums only, and may begin with a line that gives the version.

use vstd::prelude::*;
use crate::checksum::{ChecksumAlgorithm, ChecksumMode, ChecksumView};
use crate::hex::decode_spec;
use crate::manifest::lines::{after_line, first_line, line_break, single_line};
use crate::manifest::model::{ArtifactView, ManifestView};

verus! {

/// A way of writing a manifest down.
#[derive(Clone, Copy, Debug, PartialEq, Eq, Structural)]
pub enum Dialect {
    /// Digest, mode mark, path.
    Standard,
    /// Path, digest; an optional first line with the version.
    Simple,
}

/// What a version line of the simple dialect begins with.
pub open spec fn version_prefix() -> Seq<char> {
    seq![';', ' ', 'v', 'e', 'r', 's', 'i', 'o', 'n', ' ']
}

/// Whether a line begins with `version_prefix`.
pub open spec fn is_version_line(line: Seq<char>) -> bool {
    line.len() >= version_prefix().len() && line.take(version_prefix().len() as int)
        == version_prefix()
}

/// The mark that the standard dialect writes for a mode.
pub open spec fn mode_mark(mode: ChecksumMode) -> char {
    match mode {
        ChecksumMode::Binary => '*',
        ChecksumMode::Text => ' ',
    }
}

/// The line that stands for an artifact, without its line break.
pub open spec fn render_entry(dialect: Dialect, artifact: ArtifactView) -> Seq<char> {
    match dialect {
        Dialect::Standard => artifact.checksum.hex() + seq![' ', mode_mark(artifact.checksum.mode)]
            + artifact.path,
        Dialect::Simple => artifact.path + seq![' '] + artifact.checksum.hex(),
    }
}

/// The lines that stand for the artifacts, each with its line break.
pub open spec fn render_entries(dialect: Dialect, entries: Seq<ArtifactView>) -> Seq<char>
    decreases entries.len(),
{
    if entries.len() == 0 {
        Seq::empty()
    } else {
        render_entry(dialect, entries[0]) + seq![line_break()] + render_entries(
            dialect,
            entries.skip(1),
        )
    }
}

/// The line that gives the version, with its line break; nothing where
/// there is no version.
pub open spec fn render_version(version: Option<Seq<char>>) -> Seq<char> {
    match version {
        Some(v) => version_prefix() + v + seq![line_break()],
        None => Seq::empty(),
    }
}

/// The text of a manifest in a dialect.
pub open spec fn render_spec(dialect: Dialect, manifest: ManifestView) -> Seq<char> {
    render_version(manifest.version) + render_entries(dialect, manifest.entries)
}

/// Whether the dialect can record the artifact under the given algorithm, so
/// that reading the line gives the artifact back.
pub open spec fn entry_representable(
    dialect: Dialect,
    algorithm: ChecksumAlgorithm,
    artifact: ArtifactView,
) -> bool {
    &&& artifact.checksum.algorithm == algorithm
    &&& artifact.checksum.canonical()
    &&& artifact.path.len() > 0
    &&& single_line(artifact.path)
    &&& dialect == Dialect::Simple ==> artifact.checksum.mode == ChecksumMode::Binary
        && artifact.path[0] != ';'
}

/// Whether the dialect can record the version.
pub open spec fn version_representable(dialect: Dialect, version: Option<Seq<char>>) -> bool {
    match version {
        None => true,
        Some(v) => dialect == Dialect::Simple && single_line(v),
    }
}

/// Whether the dialect can record the manifest under the given algorithm.
pub open spec fn representable(
    dialect: Dialect,
    algorithm: ChecksumAlgorithm,
    manifest: ManifestView,
) -> bool {
    &&& version_representable(dialect, manifest.version)
    &&& forall|i: int|
        0 <= i < manifest.entries.len() ==> entry_representable(
            dialect,
            algorithm,
            #[trigger] manifest.entries[i],
        )
}

/// The number of hexadecimal digits in a digest of the algorithm.
pub open spec fn hex_len(algorithm: ChecksumAlgorithm) -> int {
    2 * (algorithm.spec_digest_len() as int)
}

/// The artifact that a line of the standard dialect stands for; `None` where
/// the line is not of the dialect.
pub open spec fn standard_entry(algorithm: ChecksumAlgorithm, line: Seq<char>) -> Option<
    ArtifactView,
> {
    let n = hex_len(algorithm);
    if line.len() >= n + 3 && line[n] == ' ' && (line[n + 1] == ' ' || line[n + 1] == '*')
        && decode_spec(line.take(n)) is Some {
        Some(
            ArtifactView {
                path: line.skip(n + 2),
                checksum: ChecksumView {
                    algorithm,
                    mode: if line[n + 1] == '*' {
                        ChecksumMode::Binary
                    } else {
                        ChecksumMode::Text
                    },
                    digest: decode_spec(line.take(n))->0,
                },
            },
        )
    } else {
        None
    }
}

/// The artifact that a line of the simple dialect stands for; `None` where
/// the line is not of the dialect.
pub open spec fn simple_entry(algorithm: ChecksumAlgorithm, line: Seq<char>) -> Option<
    ArtifactView,
> {
    let n = hex_len(algorithm);
    if line.len() >= n + 2 && line[line.len() - n - 1] == ' ' && decode_spec(
        line.skip(line.len() - n),
    ) is Some {
        Some(
            ArtifactView {
                path: line.take(line.len() - n - 1),
                checksum: ChecksumView {
                    algorithm,
                    mode: ChecksumMode::Binary,
                    digest: decode_spec(line.skip(line.len() - n))->0,
                },
            },
        )
    } else {
        None
    }
}

/// The manifest after one more line has been read; `None` where the line is
/// not of the dialect. `lineno` counts the lines before this one.
///
/// An empty line changes nothing. In the simple dialect a line that begins
/// with `;` is a remark and changes nothing, except that the very first line
/// of the text gives the version if it begins with `version_prefix`. Any
/// other line must stand for an artifact, which is recorded.
pub open spec fn absorb(
    dialect: Dialect,
    algorithm: ChecksumAlgorithm,
    manifest: ManifestView,
    line: Seq<char>,
    lineno: nat,
) -> Option<ManifestView> {
    if line.len() == 0 {
        Some(manifest)
    } else if dialect == Dialect::Simple && line[0] == ';' {
        if lineno == 0 && is_version_line(line) {
            Some(manifest.with_version(Some(line.skip(version_prefix().len() as int))))
        } else {
            Some(manifest)
        }
    } else {
        let entry = match dialect {
            Dialect::Standard => standard_entry(algorithm, line),
            Dialect::Simple => simple_entry(algorithm, line),
        };
        match entry {
            Some(artifact) => Some(manifest.with_artifact(artifact)),
            None => None,
        }
    }
}

/// The manifest after the lines of `text` have been read one by one, or the
/// number, counted from one, of the first line that is not of the dialect.
pub open spec fn parse_lines(
    dialect: Dialect,
    algorithm: ChecksumAlgorithm,
    text: Seq<char>,
    lineno: nat,
    manifest: ManifestView,
) -> Result<ManifestView, nat>
    decreases text.len(),
{
    if text.len() == 0 {
        Ok(manifest)
    } else {
        match absorb(dialect, algorithm, manifest, first_line(text), lineno) {
            Some(next) => parse_lines(dialect, algorithm, after_line(text), lineno + 1, next),
            None => Err(lineno + 1),
        }
    }
}

/// The manifest that a text stands for in a dialect, every checksum taken to
/// be of the given algorithm; or the number of the first line that is not of
/// the dialect.
pub open spec fn parse_spec(dialect: Dialect, algorithm: ChecksumAlgorithm, text: Seq<char>)
    -> Result<ManifestView, nat> {
    parse_lines(dialect, algorithm, text, 0, ManifestView::empty())
}

} // verus!
