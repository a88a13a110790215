//! The manifest format of the BLAKE2 checksum tool: the standard dialect,
//! every checksum a BLAKE2b-512 one.

use vstd::prelude::*;
use crate::checksum::ChecksumAlgorithm;
use crate::manifest::{
    Manifest, ManifestError, is_reading, is_writing, standard_from_str, standard_to_string,
};
use crate::manifest::dialect::Dialect;
use crate::pattern::{any_hit, matches_any, pattern_hits};

verus! {

/// The name of the manifest file where the user gives none.
pub const DEFAULT_MANIFEST_FILENAME: &'static str = "artsum.b2sum";

/// The file names that are taken for manifests of this format, as regular
/// expressions: the default name, and any name that ends in `.b2sum` or `.b2`.
pub open spec fn b2sum_patterns() -> Seq<&'static str> {
    seq!["^artsum\\.b2sum$", "^.*\\.b2sum$", "^.*\\.b2$"]
}

/// Reads and writes manifests of the BLAKE2 checksum tool.
pub struct B2SUMParser {
    filename_patterns: Vec<&'static str>,
}

impl B2SUMParser {
    /// The patterns that the parser tries file names against, in order.
    pub closed spec fn patterns(&self) -> Seq<&'static str> {
        self.filename_patterns@
    }

    /// The patterns that the parser tries file names against, in order.
    pub fn filename_patterns(&self) -> (patterns: &Vec<&'static str>)
        ensures
            patterns@ == self.patterns(),
    {
        &self.filename_patterns
    }

    /// The name of the manifest file where the user gives none.
    pub fn default_filename(&self) -> (name: &'static str)
        ensures
            name@ == DEFAULT_MANIFEST_FILENAME@,
    {
        DEFAULT_MANIFEST_FILENAME
    }

    /// The algorithm of every checksum in a manifest of this format.
    pub fn algorithm(&self) -> (algorithm: Option<ChecksumAlgorithm>)
        ensures
            algorithm == Some(ChecksumAlgorithm::BLAKE2B512),
    {
        Some(ChecksumAlgorithm::BLAKE2B512)
    }

    /// Whether a file of this name is taken for a manifest of this format:
    /// whether one of the patterns matches in it.
    pub fn can_handle_filepath(&self, filename: &str) -> (b: bool)
        ensures
            b == matches_any(self.patterns(), filename@),
    {
        let hits = pattern_hits(&self.filename_patterns, filename);
        any_hit(&hits)
    }

    /// Reads a manifest of this format from a string.
    pub fn parse_str(&self, data: &str) -> (result: Result<Manifest, ManifestError>)
        ensures
            is_reading(result, Dialect::Standard, ChecksumAlgorithm::BLAKE2B512, data@),
    {
        standard_from_str(data, ChecksumAlgorithm::BLAKE2B512)
    }

    /// Writes a manifest in this format to a string.
    pub fn to_string(&self, manifest: &Manifest) -> (result: Result<String, ManifestError>)
        ensures
            is_writing(result, Dialect::Standard, ChecksumAlgorithm::BLAKE2B512, manifest@),
    {
        standard_to_string(manifest, ChecksumAlgorithm::BLAKE2B512)
    }
}

impl Default for B2SUMParser {
    fn default() -> (parser: Self)
        ensures
            parser.patterns() == b2sum_patterns(),
    {
        let mut filename_patterns: Vec<&'static str> = Vec::new();
        filename_patterns.push("^artsum\\.b2sum$");
        filename_patterns.push("^.*\\.b2sum$");
        filename_patterns.push("^.*\\.b2$");
        proof {
            assert(filename_patterns@ =~= b2sum_patterns());
        }
        B2SUMParser { filename_patterns }
    }
}

} // verus!
