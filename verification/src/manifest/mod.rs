//! Manifests: the record of which checksum is expected of which file, and
//! the dialects in which that record is written down.

pub mod b2sum;
pub mod dialect;
pub mod format;
pub mod lines;
pub mod model;
pub mod reader;
pub mod roundtrip;
pub mod sha512sum;
pub mod source;
pub mod writer;

use vstd::prelude::*;
use crate::checksum::{Checksum, ChecksumAlgorithm};
use crate::manifest::dialect::{
    Dialect, entry_representable, parse_spec, render_spec, representable, version_representable,
};
use crate::text::{cat2, chars_of, decimal, decimal_spec, string_of};
use crate::manifest::model::{
    ArtifactView, ManifestView, distinct_paths, has_path, lemma_mapping_of_entry,
    lemma_put_distinct, position, put,
};

verus! {

/// Why a manifest could not be read or written.
#[derive(Clone, Debug)]
pub enum ManifestError {
    /// The line with this number, counted from one, is not an entry of the dialect.
    Malformed { line: usize },
    /// The artifact at this place, counted from zero in writing order, cannot
    /// be written in the dialect.
    Unrepresentable { index: usize },
    /// The version cannot be written in the dialect.
    Version,
    /// The manifest file could not be read or written.
    Io { message: String },
}

impl ManifestError {
    /// The error in words.
    pub open spec fn spec_to_string(self) -> Seq<char> {
        match self {
            ManifestError::Malformed { line } => "Malformed manifest at line "@
                + decimal_spec(line as nat),
            ManifestError::Unrepresentable { index } => "The format cannot record artifact "@
                + decimal_spec(index as nat),
            ManifestError::Version => "The format cannot record a version"@,
            ManifestError::Io { message } => message@,
        }
    }

    /// The error in words.
    pub fn to_string(&self) -> (text: String)
        ensures
            text@ == self.spec_to_string(),
    {
        match self {
            ManifestError::Malformed { line } => {
                let number = decimal(*line);
                cat2("Malformed manifest at line ", number.as_str())
            },
            ManifestError::Unrepresentable { index } => {
                let number = decimal(*index);
                cat2("The format cannot record artifact ", number.as_str())
            },
            ManifestError::Version => "The format cannot record a version".to_owned(),
            ManifestError::Io { message } => message.clone(),
        }
    }
}

/// One artifact of a manifest: a path, relative to the directory that the
/// manifest describes, and the checksum expected of the file there.
#[derive(Debug, PartialEq, Eq)]
pub struct Artifact {
    pub path: String,
    pub checksum: Checksum,
}

impl View for Artifact {
    type V = ArtifactView;

    open spec fn view(&self) -> ArtifactView {
        ArtifactView { path: self.path@, checksum: self.checksum@ }
    }
}

/// A manifest: an optional version and the artifacts, each path at most once.
#[derive(Debug)]
pub struct Manifest {
    version: Option<String>,
    artifacts: Vec<Artifact>,
}

impl View for Manifest {
    type V = ManifestView;

    closed spec fn view(&self) -> ManifestView {
        ManifestView {
            version: match self.version {
                Some(v) => Some(v@),
                None => None,
            },
            entries: self.artifacts@.map_values(|a: Artifact| a@),
        }
    }
}

impl Manifest {
    /// No path occurs twice in a manifest.
    #[verifier::type_invariant]
    pub open spec fn well_formed(self) -> bool {
        distinct_paths(self@.entries)
    }

    /// The manifest without a version and without artifacts.
    pub fn new() -> (m: Self)
        ensures
            m@ == ManifestView::empty(),
    {
        let m = Manifest { version: None, artifacts: Vec::new() };
        proof {
            assert(m@.entries =~= Seq::empty());
        }
        m
    }

    /// The version that the manifest carries, if any.
    pub fn version(&self) -> (v: &Option<String>)
        ensures
            match *v {
                Some(s) => self@.version == Some(s@),
                None => self@.version is None,
            },
    {
        &self.version
    }

    /// Gives the manifest another version, or none.
    pub fn set_version(&mut self, version: Option<String>)
        ensures
            final(self)@ == old(self)@.with_version(
                match version {
                    Some(s) => Some(s@),
                    None => None,
                },
            ),
    {
        proof {
            use_type_invariant(&*self);
        }
        self.version = version;
    }

    /// The number of artifacts.
    pub fn len(&self) -> (n: usize)
        ensures
            n == self@.entries.len(),
    {
        self.artifacts.len()
    }

    /// Whether the manifest has no artifacts.
    pub fn is_empty(&self) -> (b: bool)
        ensures
            b == (self@.entries.len() == 0),
    {
        self.artifacts.len() == 0
    }

    /// The artifacts in writing order.
    pub fn artifacts(&self) -> (all: &Vec<Artifact>)
        ensures
            all@.map_values(|a: Artifact| a@) == self@.entries,
    {
        &self.artifacts
    }

    /// The artifact at place `index` in writing order.
    pub fn artifact(&self, index: usize) -> (a: &Artifact)
        requires
            index < self@.entries.len(),
        ensures
            a@ == self@.entries[index as int],
    {
        &self.artifacts[index]
    }

    /// The place of the artifact with the given path, if there is one.
    pub fn find(&self, path: &String) -> (found: Option<usize>)
        ensures
            match found {
                Some(i) => has_path(self@.entries, path@) && i == position(self@.entries, path@)
                    && i < self@.entries.len(),
                None => !has_path(self@.entries, path@),
            },
    {
        proof {
            use_type_invariant(self);
        }
        let mut i: usize = 0;
        while i < self.artifacts.len()
            invariant
                i <= self.artifacts.len(),
                distinct_paths(self@.entries),
                forall|k: int| 0 <= k < i ==> (#[trigger] self@.entries[k]).path != path@,
            decreases self.artifacts.len() - i,
        {
            if self.artifacts[i].path == *path {
                proof {
                    assert(self@.entries[i as int].path == path@);
                    lemma_mapping_of_entry(self@.entries, i as int);
                }
                return Some(i);
            }
            i += 1;
        }
        None
    }

    /// The checksum expected of the file at `path`, if the manifest names it.
    pub fn get(&self, path: &String) -> (found: Option<&Checksum>)
        ensures
            match found {
                Some(c) => self@.artifacts().contains_key(path@) && self@.artifacts()[path@] == c@,
                None => !self@.artifacts().contains_key(path@),
            },
    {
        match self.find(path) {
            Some(i) => Some(&self.artifacts[i].checksum),
            None => None,
        }
    }

    /// Whether the manifest names the file at `path`.
    pub fn contains(&self, path: &String) -> (b: bool)
        ensures
            b == self@.artifacts().contains_key(path@),
    {
        self.find(path).is_some()
    }

    /// Records the checksum expected of the file at `path`. A path that the
    /// manifest already names keeps its place and gets the new checksum, and
    /// the checksum it had is returned; a new path comes last.
    pub fn insert(&mut self, path: String, checksum: Checksum) -> (previous: Option<Checksum>)
        ensures
            final(self)@ == old(self)@.with_artifact(
                ArtifactView { path: path@, checksum: checksum@ },
            ),
            match previous {
                Some(c) => old(self)@.artifacts().contains_key(path@) && old(self)@.artifacts()[path@]
                    == c@,
                None => !old(self)@.artifacts().contains_key(path@),
            },
    {
        let ghost before = self@;
        let ghost added = ArtifactView { path: path@, checksum: checksum@ };
        proof {
            use_type_invariant(&*self);
            lemma_put_distinct(before.entries, added);
        }
        let found = self.find(&path);
        let mut items: Vec<Artifact> = Vec::new();
        core::mem::swap(&mut self.artifacts, &mut items);
        let previous = match found {
            Some(i) => {
                let replaced = items.remove(i);
                items.insert(i, Artifact { path, checksum });
                Some(replaced.checksum)
            },
            None => {
                items.push(Artifact { path, checksum });
                None
            },
        };
        proof {
            assert(items@.map_values(|a: Artifact| a@) =~= put(before.entries, added));
        }
        core::mem::swap(&mut self.artifacts, &mut items);
        previous
    }
}

/// Whether `result` is what reading `text` in the dialect gives: the
/// manifest that the text stands for, or the first line that is not of the
/// dialect.
pub open spec fn is_reading(
    result: Result<Manifest, ManifestError>,
    dialect: Dialect,
    algorithm: ChecksumAlgorithm,
    text: Seq<char>,
) -> bool {
    match result {
        Ok(m) => parse_spec(dialect, algorithm, text) == Ok::<ManifestView, nat>(m@),
        Err(ManifestError::Malformed { line }) => parse_spec(dialect, algorithm, text) == Err::<
            ManifestView,
            nat,
        >(line as nat),
        Err(_) => false,
    }
}

/// Whether `result` is what writing `manifest` in the dialect gives: its
/// text where the dialect can record it; else `Version` where the version is
/// in the way, and otherwise the first artifact that is.
pub open spec fn is_writing(
    result: Result<String, ManifestError>,
    dialect: Dialect,
    algorithm: ChecksumAlgorithm,
    manifest: ManifestView,
) -> bool {
    match result {
        Ok(text) => representable(dialect, algorithm, manifest) && text@ == render_spec(
            dialect,
            manifest,
        ),
        Err(ManifestError::Version) => !version_representable(dialect, manifest.version),
        Err(ManifestError::Unrepresentable { index }) => {
            &&& version_representable(dialect, manifest.version)
            &&& index < manifest.entries.len()
            &&& !entry_representable(dialect, algorithm, manifest.entries[index as int])
            &&& forall|k: int|
                0 <= k < index ==> entry_representable(
                    dialect,
                    algorithm,
                    #[trigger] manifest.entries[k],
                )
        },
        Err(_) => false,
    }
}

/// Reads a manifest in the given dialect from a string.
pub fn read_str(dialect: Dialect, algorithm: ChecksumAlgorithm, data: &str) -> (result: Result<
    Manifest,
    ManifestError,
>)
    ensures
        is_reading(result, dialect, algorithm, data@),
{
    let chars = chars_of(data);
    reader::parse(dialect, algorithm, &chars)
}

/// Writes a manifest in the given dialect to a string.
pub fn write_string(dialect: Dialect, algorithm: ChecksumAlgorithm, manifest: &Manifest) -> (result:
    Result<String, ManifestError>)
    ensures
        is_writing(result, dialect, algorithm, manifest@),
{
    match writer::render(dialect, algorithm, manifest) {
        Ok(chars) => Ok(string_of(&chars)),
        Err(e) => Err(e),
    }
}

/// Reads a manifest in the standard dialect, taking every checksum to be of
/// the given algorithm.
pub fn standard_from_str(data: &str, algorithm: ChecksumAlgorithm) -> (result: Result<
    Manifest,
    ManifestError,
>)
    ensures
        is_reading(result, Dialect::Standard, algorithm, data@),
{
    read_str(Dialect::Standard, algorithm, data)
}

/// Writes a manifest in the standard dialect, for a reader that takes every
/// checksum to be of the given algorithm.
pub fn standard_to_string(manifest: &Manifest, algorithm: ChecksumAlgorithm) -> (result: Result<
    String,
    ManifestError,
>)
    ensures
        is_writing(result, Dialect::Standard, algorithm, manifest@),
{
    write_string(Dialect::Standard, algorithm, manifest)
}

/// Reads a manifest in the simple dialect, taking every checksum to be of
/// the given algorithm.
pub fn default_from_str(data: &str, algorithm: ChecksumAlgorithm) -> (result: Result<
    Manifest,
    ManifestError,
>)
    ensures
        is_reading(result, Dialect::Simple, algorithm, data@),
{
    read_str(Dialect::Simple, algorithm, data)
}

/// Writes a manifest in the simple dialect, for a reader that takes every
/// checksum to be of the given algorithm.
pub fn default_to_string(manifest: &Manifest, algorithm: ChecksumAlgorithm) -> (result: Result<
    String,
    ManifestError,
>)
    ensures
        is_writing(result, Dialect::Simple, algorithm, manifest@),
{
    write_string(Dialect::Simple, algorithm, manifest)
}

} // verus!
