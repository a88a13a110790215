//! The manifest format for SHA-512 checksums: the simple dialect, every
//! checksum a SHA-512 one.

use vstd::prelude::*;
use crate::checksum::ChecksumAlgorithm;
use crate::manifest::{
    Manifest, ManifestError, default_from_str, default_to_string, is_reading, is_writing,
};
use crate::manifest::dialect::Dialect;
use crate::pattern::{any_hit, matches_any, pattern_hits};

verus! {

/// The name of the manifest file where the user gives none.
pub const DEFAULT_MANIFEST_FILENAME: &'static str = "sfv.sha512";

/// The file names that are taken for manifests of this format, as regular
/// expressions: the default name only.
pub open spec fn sha512sum_patterns() -> Seq<&'static str> {
    seq!["^sfv\\.sha512$"]
}

/// Reads and writes manifests of SHA-512 checksums.
pub struct SHA512SUMParser {
    filename_patterns: Vec<&'static str>,
}

impl SHA512SUMParser {
    /// The patterns that the parser tries file names against, in order.
    pub closed spec fn patterns(&self) -> Seq<&'static str> {
        self.filename_patterns@
    }

    /// The patterns that the parser tries file names against, in order.
    pub fn filename_patterns(&self) -> (patterns: &Vec<&'static str>)
        ensures
            patterns@ == self.patterns(),
    {
        &self.filename_patterns
    }

    /// The name of the manifest file where the user gives none.
    pub fn default_filename(&self) -> (name: &'static str)
        ensures
            name@ == DEFAULT_MANIFEST_FILENAME@,
    {
        DEFAULT_MANIFEST_FILENAME
    }

    /// The algorithm of every checksum in a manifest of this format.
    pub fn algorithm(&self) -> (algorithm: Option<ChecksumAlgorithm>)
        ensures
            algorithm == Some(ChecksumAlgorithm::SHA512),
    {
        Some(ChecksumAlgorithm::SHA512)
    }

    /// Whether a file of this name is taken for a manifest of this format:
    /// whether one of the patterns matches in it.
    pub fn can_handle_filepath(&self, filename: &str) -> (b: bool)
        ensures
            b == matches_any(self.patterns(), filename@),
    {
        let hits = pattern_hits(&self.filename_patterns, filename);
        any_hit(&hits)
    }

    /// Reads a manifest of this format from a string.
    pub fn from_str(&self, data: &str) -> (result: Result<Manifest, ManifestError>)
        ensures
            is_reading(result, Dialect::Simple, ChecksumAlgorithm::SHA512, data@),
    {
        default_from_str(data, ChecksumAlgorithm::SHA512)
    }

    /// Writes a manifest in this format to a string.
    pub fn to_string(&self, manifest: &Manifest) -> (result: Result<String, ManifestError>)
        ensures
            is_writing(result, Dialect::Simple, ChecksumAlgorithm::SHA512, manifest@),
    {
        default_to_string(manifest, ChecksumAlgorithm::SHA512)
    }
}

impl Default for SHA512SUMParser {
    fn default() -> (parser: Self)
        ensures
            parser.patterns() == sha512sum_patterns(),
    {
        let mut filename_patterns: Vec<&'static str> = Vec::new();
        filename_patterns.push("^sfv\\.sha512$");
        proof {
            assert(filename_patterns@ =~= sha512sum_patterns());
        }
        SHA512SUMParser { filename_patterns }
    }
}

} // verus!
