//! The registry of manifest formats: which dialect and algorithm each one
//! stands for, under which file names it is found, and in which order the
//! formats are tried.

use vstd::prelude::*;
use crate::checksum::ChecksumAlgorithm;
use crate::manifest::{Manifest, ManifestError, is_reading, is_writing};
use crate::manifest::b2sum::{B2SUMParser, b2sum_patterns};
use crate::manifest::dialect::{Dialect, parse_spec, render_spec, representable};
use crate::manifest::model::{ManifestView, distinct_paths};
use crate::manifest::roundtrip::lemma_round_trip;
use crate::manifest::sha512sum::{SHA512SUMParser, sha512sum_patterns};
use crate::paths::{join_path, joined_path};
use crate::pattern::matches_any;

verus! {

/// The manifest formats, in the order in which they are tried on a file name.
#[derive(Clone, Copy, Debug, PartialEq, Eq, Structural, Hash)]
pub enum ManifestFormat {
    /// Path and SHA-512 digest on each line.
    SFV,
    /// The format of the BLAKE2 checksum tool.
    B2SUM,
}

impl Default for ManifestFormat {
    fn default() -> (format: Self)
        ensures
            format == ManifestFormat::SFV,
    {
        ManifestFormat::SFV
    }
}

impl ManifestFormat {
    /// The dialect in which manifests of the format are written.
    pub open spec fn dialect(self) -> Dialect {
        match self {
            ManifestFormat::SFV => Dialect::Simple,
            ManifestFormat::B2SUM => Dialect::Standard,
        }
    }

    /// The algorithm of every checksum in a manifest of the format.
    pub open spec fn implied_algorithm(self) -> ChecksumAlgorithm {
        match self {
            ManifestFormat::SFV => ChecksumAlgorithm::SHA512,
            ManifestFormat::B2SUM => ChecksumAlgorithm::BLAKE2B512,
        }
    }

    /// The patterns under which manifests of the format are found.
    pub open spec fn patterns(self) -> Seq<&'static str> {
        match self {
            ManifestFormat::SFV => sha512sum_patterns(),
            ManifestFormat::B2SUM => b2sum_patterns(),
        }
    }

    /// Whether a file of this name is taken for a manifest of the format.
    pub open spec fn handles(self, filename: Seq<char>) -> bool {
        matches_any(self.patterns(), filename)
    }

    /// The first format, in the order of the registry, that takes a file of
    /// this name for one of its manifests.
    pub open spec fn detect_spec(filename: Seq<char>) -> Option<ManifestFormat> {
        Self::first_claim(
            ManifestFormat::SFV.handles(filename),
            ManifestFormat::B2SUM.handles(filename),
        )
    }

    /// The first format of the registry that claims a file; `None` where none does.
    pub open spec fn first_claim(sfv: bool, b2sum: bool) -> Option<ManifestFormat> {
        if sfv {
            Some(ManifestFormat::SFV)
        } else if b2sum {
            Some(ManifestFormat::B2SUM)
        } else {
            None
        }
    }

    /// The manifest that a text stands for in the format.
    pub open spec fn parse_spec(self, text: Seq<char>) -> Result<ManifestView, nat> {
        parse_spec(self.dialect(), self.implied_algorithm(), text)
    }

    /// Whether the format can record the manifest.
    pub open spec fn can_record(self, manifest: ManifestView) -> bool {
        representable(self.dialect(), self.implied_algorithm(), manifest)
    }

    /// The text of a manifest in the format.
    pub open spec fn render_spec(self, manifest: ManifestView) -> Seq<char> {
        render_spec(self.dialect(), manifest)
    }

    /// Round trip, for every format of the registry: the text of a manifest
    /// that the format can record reads back, in that format, as a manifest
    /// with the same version and the same artifacts, and so with the same
    /// checksum for every path.
    pub proof fn lemma_round_trip(self, manifest: ManifestView)
        requires
            distinct_paths(manifest.entries),
            self.can_record(manifest),
        ensures
            self.parse_spec(self.render_spec(manifest)) == Ok::<ManifestView, nat>(manifest),
            self.parse_spec(self.render_spec(manifest))->Ok_0.version == manifest.version,
            self.parse_spec(self.render_spec(manifest))->Ok_0.artifacts() == manifest.artifacts(),
    {
        lemma_round_trip(self.dialect(), self.implied_algorithm(), manifest);
    }

    /// The name of the format, as the user writes and reads it.
    pub open spec fn spec_name(self) -> Seq<char> {
        match self {
            ManifestFormat::SFV => "sfv"@,
            ManifestFormat::B2SUM => "b2sum"@,
        }
    }

    /// The name of the format, as the user writes and reads it.
    pub fn name(self) -> (name: &'static str)
        ensures
            name@ == self.spec_name(),
    {
        match self {
            ManifestFormat::SFV => "sfv",
            ManifestFormat::B2SUM => "b2sum",
        }
    }

    /// The name of the manifest file where the user gives none.
    pub fn default_filename(self) -> (name: &'static str)
        ensures
            name@ == self.spec_default_filename(),
    {
        match self {
            ManifestFormat::SFV => SHA512SUMParser::default().default_filename(),
            ManifestFormat::B2SUM => B2SUMParser::default().default_filename(),
        }
    }

    /// The name of the manifest file where the user gives none.
    pub open spec fn spec_default_filename(self) -> Seq<char> {
        match self {
            ManifestFormat::SFV => crate::manifest::sha512sum::DEFAULT_MANIFEST_FILENAME@,
            ManifestFormat::B2SUM => crate::manifest::b2sum::DEFAULT_MANIFEST_FILENAME@,
        }
    }

    /// The path of the manifest file of a directory where the user gives
    /// none: the default name, in that directory.
    pub fn build_manifest_filepath(self, dirpath: &str) -> (filepath: String)
        ensures
            filepath@ == joined_path(dirpath@, self.spec_default_filename()),
    {
        join_path(dirpath, self.default_filename())
    }

    /// The algorithm that the format forces on every checksum, if it forces one.
    pub fn algorithm(self) -> (algorithm: Option<ChecksumAlgorithm>)
        ensures
            algorithm == Some(self.implied_algorithm()),
    {
        match self {
            ManifestFormat::SFV => SHA512SUMParser::default().algorithm(),
            ManifestFormat::B2SUM => B2SUMParser::default().algorithm(),
        }
    }

    /// Whether a file of this name is taken for a manifest of the format.
    pub fn can_handle_filepath(self, filename: &str) -> (b: bool)
        ensures
            b == self.handles(filename@),
    {
        match self {
            ManifestFormat::SFV => SHA512SUMParser::default().can_handle_filepath(filename),
            ManifestFormat::B2SUM => B2SUMParser::default().can_handle_filepath(filename),
        }
    }

    /// The first format of the registry among those that claim a file:
    /// `sfv` and `b2sum` say whether the format of that name does.
    pub fn first_of(sfv: bool, b2sum: bool) -> (format: Option<ManifestFormat>)
        ensures
            format == Self::first_claim(sfv, b2sum),
    {
        if sfv {
            Some(ManifestFormat::SFV)
        } else if b2sum {
            Some(ManifestFormat::B2SUM)
        } else {
            None
        }
    }

    /// The format that a file of this name is a manifest of: the first of
    /// the registry that claims it.
    pub fn detect(filename: &str) -> (format: Option<ManifestFormat>)
        ensures
            format == Self::detect_spec(filename@),
    {
        let sfv = ManifestFormat::SFV.can_handle_filepath(filename);
        let b2sum = ManifestFormat::B2SUM.can_handle_filepath(filename);
        Self::first_of(sfv, b2sum)
    }

    /// Reads a manifest of the format from a string.
    pub fn parse_str(self, data: &str) -> (result: Result<Manifest, ManifestError>)
        ensures
            is_reading(result, self.dialect(), self.implied_algorithm(), data@),
    {
        match self {
            ManifestFormat::SFV => SHA512SUMParser::default().from_str(data),
            ManifestFormat::B2SUM => B2SUMParser::default().parse_str(data),
        }
    }

    /// Writes a manifest in the format to a string.
    pub fn to_string(self, manifest: &Manifest) -> (result: Result<String, ManifestError>)
        ensures
            is_writing(result, self.dialect(), self.implied_algorithm(), manifest@),
    {
        match self {
            ManifestFormat::SFV => SHA512SUMParser::default().to_string(manifest),
            ManifestFormat::B2SUM => B2SUMParser::default().to_string(manifest),
        }
    }
}

} // verus!
