//! The verify run: every file that a manifest names is checked against the
//! checksum expected of it.

pub mod display;
pub mod run;
pub mod task;

use vstd::prelude::*;
use crate::manifest::ManifestError;
use crate::manifest::format::ManifestFormat;
use crate::manifest::source::{Located, ManifestSource, format_of_path, is_first_manifest};
use crate::paths::joined_path;
use crate::text::{cat2, cat3};

verus! {

/// Options for the verify command.
#[derive(Debug)]
pub struct VerifyOptions {
    /// Path to the directory containing the files to verify.
    pub dirpath: String,
    /// Path to the manifest file to verify.
    pub manifest: Option<String>,
    /// Chunk size to use for generating checksums.
    pub chunk_size: usize,
    /// Maximum number of workers to use.
    pub max_workers: usize,
    /// Debug output enabled.
    pub debug: bool,
    /// No display output.
    pub no_display: bool,
    /// No progress output.
    pub no_progress: bool,
    /// Verbosity level.
    pub verbosity: u8,
}

impl VerifyOptions {
    /// Whether nothing at all is shown to the user.
    pub fn display_disabled(&self) -> (b: bool)
        ensures
            b == (self.no_display || self.debug),
    {
        self.no_display || self.debug
    }

    /// Whether the progress of the run is shown while it goes on.
    pub fn progress_enabled(&self) -> (b: bool)
        ensures
            b == (!self.no_progress && !self.debug),
    {
        !self.no_progress && !self.debug
    }
}

/// Why a verify run came to nothing.
#[derive(Debug)]
pub enum VerifyError {
    /// The directory or the manifest file was not found, or could not be read.
    IoError(String),
    /// The manifest could not be read.
    ManifestError(ManifestError),
    /// The task of a file did not run to its end.
    TaskJoinFailure(String),
    /// Anything else.
    Unknown(String),
}

impl VerifyError {
    /// The error in words.
    pub open spec fn spec_to_string(self) -> Seq<char> {
        match self {
            VerifyError::IoError(message) => message@,
            VerifyError::ManifestError(error) => error.spec_to_string(),
            VerifyError::TaskJoinFailure(message) => "Failed to join checksum verification task, "@
                + message@,
            VerifyError::Unknown(message) => "Unknown error occurred, "@ + message@,
        }
    }

    /// The error in words.
    pub fn to_string(&self) -> (text: String)
        ensures
            text@ == self.spec_to_string(),
    {
        match self {
            VerifyError::IoError(message) => message.clone(),
            VerifyError::ManifestError(error) => error.to_string(),
            VerifyError::TaskJoinFailure(message) => cat2(
                "Failed to join checksum verification task, ",
                message.as_str(),
            ),
            VerifyError::Unknown(message) => cat2("Unknown error occurred, ", message.as_str()),
        }
    }
}

/// What is said where the directory of a run does not exist.
pub open spec fn missing_directory_message(dirpath: Seq<char>) -> Seq<char> {
    "No directory exists at \""@ + dirpath + "\""@
}

/// What is said where the file that the user named is no manifest of any format.
pub open spec fn missing_manifest_message(filepath: Seq<char>) -> Seq<char> {
    "No manifest file found at \""@ + filepath + "\""@
}

/// What is said where a directory holds no manifest of any format.
pub open spec fn no_manifest_message(dirpath: Seq<char>) -> Seq<char> {
    "No manifest file found in directory \""@ + dirpath + "\""@
}

/// The error of a run whose directory does not exist.
pub fn missing_directory(dirpath: &str) -> (error: VerifyError)
    ensures
        error matches VerifyError::IoError(message) && message@ == missing_directory_message(
            dirpath@,
        ),
{
    VerifyError::IoError(cat3("No directory exists at \"", dirpath, "\""))
}

/// The manifest source for a file that the user named: that file, in the
/// format that claims its name. Where no format claims it, the run fails.
pub fn explicit_source(filepath: String) -> (result: Result<ManifestSource, VerifyError>)
    ensures
        match result {
            Ok(source) => format_of_path(filepath@) == Some(source.format) && source.filepath@
                == filepath@,
            Err(VerifyError::IoError(message)) => format_of_path(filepath@) is None && message@
                == missing_manifest_message(filepath@),
            Err(_) => false,
        },
{
    let message = cat3("No manifest file found at \"", filepath.as_str(), "\"");
    match ManifestSource::from_path(filepath) {
        Some(source) => Ok(source),
        None => Err(VerifyError::IoError(message)),
    }
}

/// The manifest among the entries of the directory of a run, whose names
/// are given in the order in which the directory lists them: the first that
/// some format claims, in that directory. Where there is none, the run
/// fails.
pub fn detected_source(dirpath: &str, names: &Vec<String>) -> (result: Result<
    ManifestSource,
    VerifyError,
>)
    ensures
        match result {
            Ok(source) => exists|located: Located|
                {
                    &&& is_first_manifest(names@, Some(located))
                    &&& source.format == located.format
                    &&& source.filepath@ == joined_path(dirpath@, names@[located.index as int]@)
                },
            Err(VerifyError::IoError(message)) => is_first_manifest(names@, None) && message@
                == no_manifest_message(dirpath@),
            Err(_) => false,
        },
{
    match ManifestSource::in_directory(dirpath, names) {
        Some(source) => Ok(source),
        None => Err(VerifyError::IoError(cat3("No manifest file found in directory \"", dirpath, "\""))),
    }
}

/// The number of messages that the display channel of a verify run holds:
/// eight for each worker and four more for each worker beyond the fourth,
/// and never fewer than 1024.
pub open spec fn buffer_size_spec(max_workers: int) -> int {
    let wanted = max_workers * 8 + (if max_workers > 4 {
        max_workers - 4
    } else {
        0
    }) * 4;
    if wanted > 1024 {
        wanted
    } else {
        1024
    }
}

/// The number of messages that the display channel of a verify run holds.
pub fn display_buffer_size(max_workers: usize) -> (size: usize)
    requires
        max_workers * 12 <= usize::MAX,
    ensures
        size == buffer_size_spec(max_workers as int),
        size >= 1024,
{
    let extra: usize = if max_workers > 4 {
        max_workers - 4
    } else {
        0
    };
    let wanted: usize = max_workers * 8 + extra * 4;
    if wanted > 1024 {
        wanted
    } else {
        1024
    }
}

} // verus!
