//! Reading a manifest from text, line by line.

use vstd::prelude::*;
use crate::checksum::{Checksum, ChecksumAlgorithm, ChecksumMode};
use crate::hex::decode_range;
use crate::manifest::{Artifact, Manifest, ManifestError};
use crate::manifest::dialect::{
    Dialect, absorb, is_version_line, parse_lines, parse_spec, simple_entry, standard_entry,
    version_prefix,
};
use crate::manifest::lines::line_end;
use crate::manifest::model::ManifestView;
use crate::text::string_of_range;

verus! {

/// Reads the line from `from` up to `end` as an artifact of the standard dialect.
fn read_standard_entry(algorithm: ChecksumAlgorithm, data: &Vec<char>, from: usize, end: usize)
    -> (entry: Option<Artifact>)
    requires
        from <= end <= data.len(),
    ensures
        match entry {
            Some(a) => standard_entry(algorithm, data@.subrange(from as int, end as int)) == Some(
                a@,
            ),
            None => standard_entry(algorithm, data@.subrange(from as int, end as int)) is None,
        },
{
    let ghost line = data@.subrange(from as int, end as int);
    let n: usize = 2 * algorithm.digest_len();
    if end - from < n + 3 {
        return None;
    }
    if data[from + n] != ' ' {
        return None;
    }
    let mark: char = data[from + n + 1];
    if mark != ' ' && mark != '*' {
        return None;
    }
    proof {
        assert(line.take(n as int) =~= data@.subrange(from as int, from + n));
        assert(line.skip(n + 2) =~= data@.subrange(from + n + 2, end as int));
    }
    match decode_range(data, from, from + n) {
        None => None,
        Some(digest) => {
            let mode = if mark == '*' {
                ChecksumMode::Binary
            } else {
                ChecksumMode::Text
            };
            let path = string_of_range(data, from + n + 2, end);
            Some(Artifact { path, checksum: Checksum::new(algorithm, mode, digest) })
        },
    }
}

/// Reads the line from `from` up to `end` as an artifact of the simple dialect.
fn read_simple_entry(algorithm: ChecksumAlgorithm, data: &Vec<char>, from: usize, end: usize) -> (entry:
    Option<Artifact>)
    requires
        from <= end <= data.len(),
    ensures
        match entry {
            Some(a) => simple_entry(algorithm, data@.subrange(from as int, end as int)) == Some(a@),
            None => simple_entry(algorithm, data@.subrange(from as int, end as int)) is None,
        },
{
    let ghost line = data@.subrange(from as int, end as int);
    let n: usize = 2 * algorithm.digest_len();
    if end - from < n + 2 {
        return None;
    }
    if data[end - n - 1] != ' ' {
        return None;
    }
    proof {
        assert(line.skip(line.len() - n) =~= data@.subrange(end - n, end as int));
        assert(line.take(line.len() - n - 1) =~= data@.subrange(from as int, end - n - 1));
    }
    match decode_range(data, end - n, end) {
        None => None,
        Some(digest) => {
            let path = string_of_range(data, from, end - n - 1);
            Some(Artifact { path, checksum: Checksum::new(algorithm, ChecksumMode::Binary, digest) })
        },
    }
}

/// Whether the line from `from` up to `end` begins as a version line does.
fn starts_version(data: &Vec<char>, from: usize, end: usize) -> (b: bool)
    requires
        from <= end <= data.len(),
    ensures
        b == is_version_line(data@.subrange(from as int, end as int)),
{
    let ghost line = data@.subrange(from as int, end as int);
    if end - from < 10 {
        return false;
    }
    let b = data[from] == ';' && data[from + 1] == ' ' && data[from + 2] == 'v' && data[from + 3]
        == 'e' && data[from + 4] == 'r' && data[from + 5] == 's' && data[from + 6] == 'i' && data[from
        + 7] == 'o' && data[from + 8] == 'n' && data[from + 9] == ' ';
    proof {
        let head = line.take(10);
        let prefix = version_prefix();
        if b {
            assert(head =~= prefix);
        } else {
            assert(head[0] == line[0] && head[1] == line[1] && head[2] == line[2] && head[3]
                == line[3] && head[4] == line[4] && head[5] == line[5] && head[6] == line[6]
                && head[7] == line[7] && head[8] == line[8] && head[9] == line[9]);
        }
    }
    b
}

/// Takes the line from `from` up to `end` into the manifest. Returns whether
/// the line is of the dialect; where it is not, the manifest is as it was.
fn absorb_line(
    dialect: Dialect,
    algorithm: ChecksumAlgorithm,
    manifest: &mut Manifest,
    data: &Vec<char>,
    from: usize,
    end: usize,
    lineno: usize,
) -> (ok: bool)
    requires
        from <= end <= data.len(),
    ensures
        match absorb(
            dialect,
            algorithm,
            old(manifest)@,
            data@.subrange(from as int, end as int),
            lineno as nat,
        ) {
            Some(next) => ok && final(manifest)@ == next,
            None => !ok && final(manifest)@ == old(manifest)@,
        },
{
    let ghost line = data@.subrange(from as int, end as int);
    if from == end {
        return true;
    }
    if dialect == Dialect::Simple && data[from] == ';' {
        if lineno == 0 && starts_version(data, from, end) {
            let version = string_of_range(data, from + 10, end);
            proof {
                assert(line.skip(10) =~= data@.subrange(from + 10, end as int));
            }
            manifest.set_version(Some(version));
        }
        return true;
    }
    let entry = match dialect {
        Dialect::Standard => read_standard_entry(algorithm, data, from, end),
        Dialect::Simple => read_simple_entry(algorithm, data, from, end),
    };
    match entry {
        Some(artifact) => {
            manifest.insert(artifact.path, artifact.checksum);
            true
        },
        None => false,
    }
}

/// Reads a manifest from text in the given dialect, taking every checksum to
/// be of the given algorithm.
///
/// Succeeds exactly where every line is of the dialect, with the manifest
/// that the lines build one by one; otherwise names the first line that is
/// not.
pub fn parse(dialect: Dialect, algorithm: ChecksumAlgorithm, data: &Vec<char>) -> (result: Result<
    Manifest,
    ManifestError,
>)
    ensures
        match result {
            Ok(m) => parse_spec(dialect, algorithm, data@) == Ok::<ManifestView, nat>(m@),
            Err(ManifestError::Malformed { line }) => parse_spec(dialect, algorithm, data@)
                == Err::<ManifestView, nat>(line as nat),
            Err(_) => false,
        },
{
    let mut manifest = Manifest::new();
    let mut pos: usize = 0;
    let mut lineno: usize = 0;
    proof {
        assert(data@.skip(0) =~= data@);
    }
    while pos < data.len()
        invariant
            pos <= data.len(),
            lineno <= pos,
            parse_lines(dialect, algorithm, data@.skip(pos as int), lineno as nat, manifest@)
                == parse_spec(dialect, algorithm, data@),
        decreases data.len() - pos,
    {
        let end = line_end(data, pos);
        let ok = absorb_line(dialect, algorithm, &mut manifest, data, pos, end, lineno);
        if !ok {
            return Err(ManifestError::Malformed { line: lineno + 1 });
        }
        pos = if end < data.len() {
            end + 1
        } else {
            end
        };
        lineno += 1;
    }
    proof {
        assert(data@.skip(pos as int).len() == 0);
    }
    Ok(manifest)
}

} // verus!
