//! The command line as a value, and the two runs of the program, generate
//! and verify, as decisions over plain values.

pub mod generate;
pub mod generate_run;
pub mod verify;

use vstd::prelude::*;
use crate::checksum::{ChecksumAlgorithm, ChecksumMode, DEFAULT_CHUNK_SIZE};
use crate::cli::generate::GenerateOptions;
use crate::cli::verify::VerifyOptions;
use crate::manifest::format::ManifestFormat;

verus! {

/// The command line.
#[derive(Debug)]
pub struct Cli {
    pub command: Option<Commands>,
    /// Verbosity level.
    pub verbosity: u8,
    /// Disable color output.
    pub no_color: bool,
    /// Disable progress output.
    pub no_progress: bool,
}

/// The commands of the program.
#[derive(Debug)]
pub enum Commands {
    /// Generate a new manifest.
    Generate {
        /// The directory whose files get a checksum.
        dirpath: String,
        /// Path to output the manifest file to.
        output: Option<String>,
        /// Algorithm to use for checksum calculation.
        algorithm: Option<ChecksumAlgorithm>,
        /// Format of the manifest file.
        format: Option<ManifestFormat>,
        /// Checksum mode to use for generating checksums.
        mode: Option<ChecksumMode>,
        /// Chunk size to use for generating checksums.
        chunk_size: usize,
        /// Maximum number of workers to use.
        max_workers: usize,
        /// Verbosity level.
        verbosity: Option<u8>,
    },
    /// Verify a manifest file in the given directory.
    Verify {
        /// Path to the directory containing the files to verify.
        dirpath: String,
        /// Path to the manifest file to verify.
        manifest: Option<String>,
        /// Chunk size to use for generating checksums.
        chunk_size: usize,
        /// Maximum number of workers to use.
        max_workers: usize,
        /// Verbosity level.
        verbosity: Option<u8>,
    },
}

/// The run that a command line asks for, with its options.
#[derive(Debug)]
pub enum Invocation {
    Generate(GenerateOptions),
    Verify(VerifyOptions),
}

/// The verbosity of a command: its own where it gives one, else that of the
/// command line as a whole.
pub open spec fn effective_verbosity(own: Option<u8>, general: u8) -> u8 {
    match own {
        Some(v) => v,
        None => general,
    }
}

/// Whether `invocation` is the run that the command line asks for.
///
/// A command becomes the run of its name, with its own arguments; progress
/// is shown unless the command line forbids it. Without a command the
/// program verifies the current directory against the manifest it finds
/// there, with the default chunk size and one worker for each unit of
/// parallelism that the machine offers.
pub open spec fn is_invocation_of(
    invocation: Invocation,
    cli: Cli,
    current_dir: Seq<char>,
    parallelism: usize,
) -> bool {
    match cli.command {
        Some(
            Commands::Generate {
                dirpath,
                output,
                algorithm,
                format,
                mode,
                chunk_size,
                max_workers,
                verbosity,
            },
        ) => {
            &&& invocation matches Invocation::Generate(options)
            &&& options.dirpath@ == dirpath@
            &&& crate::paths::text_of(options.output) == crate::paths::text_of(output)
            &&& options.algorithm == algorithm
            &&& options.format == format
            &&& options.mode == mode
            &&& options.chunk_size == chunk_size
            &&& options.max_workers == max_workers
            &&& !options.debug
            &&& options.show_progress == !cli.no_progress
            &&& options.verbosity == effective_verbosity(verbosity, cli.verbosity)
        },
        Some(Commands::Verify { dirpath, manifest, chunk_size, max_workers, verbosity }) => {
            &&& invocation matches Invocation::Verify(options)
            &&& options.dirpath@ == dirpath@
            &&& crate::paths::text_of(options.manifest) == crate::paths::text_of(manifest)
            &&& options.chunk_size == chunk_size
            &&& options.max_workers == max_workers
            &&& !options.debug
            &&& !options.no_display
            &&& options.no_progress == cli.no_progress
            &&& options.verbosity == effective_verbosity(verbosity, cli.verbosity)
        },
        None => {
            &&& invocation matches Invocation::Verify(options)
            &&& options.dirpath@ == current_dir
            &&& options.manifest is None
            &&& options.chunk_size == DEFAULT_CHUNK_SIZE
            &&& options.max_workers == parallelism
            &&& !options.debug
            &&& !options.no_display
            &&& options.no_progress == cli.no_progress
            &&& options.verbosity == cli.verbosity
        },
    }
}

impl Cli {
    /// Whether colours are switched off for the whole program.
    pub fn colors_disabled(&self) -> (b: bool)
        ensures
            b == self.no_color,
    {
        self.no_color
    }

    /// The run that the command line asks for. `current_dir` and
    /// `parallelism` are what the machine says of itself; they count only
    /// where no command is given.
    pub fn invocation(self, current_dir: String, parallelism: usize) -> (invocation: Invocation)
        ensures
            is_invocation_of(invocation, self, current_dir@, parallelism),
    {
        let general = self.verbosity;
        let no_progress = self.no_progress;
        match self.command {
            Some(
                Commands::Generate {
                    dirpath,
                    output,
                    algorithm,
                    format,
                    mode,
                    chunk_size,
                    max_workers,
                    verbosity,
                },
            ) => Invocation::Generate(
                GenerateOptions {
                    dirpath,
                    output,
                    algorithm,
                    format,
                    mode,
                    chunk_size,
                    max_workers,
                    debug: false,
                    show_progress: !no_progress,
                    verbosity: match verbosity {
                        Some(v) => v,
                        None => general,
                    },
                },
            ),
            Some(Commands::Verify { dirpath, manifest, chunk_size, max_workers, verbosity }) => {
                Invocation::Verify(
                    VerifyOptions {
                        dirpath,
                        manifest,
                        chunk_size,
                        max_workers,
                        debug: false,
                        no_display: false,
                        no_progress,
                        verbosity: match verbosity {
                            Some(v) => v,
                            None => general,
                        },
                    },
                )
            },
            None => Invocation::Verify(
                VerifyOptions {
                    dirpath: current_dir,
                    manifest: None,
                    chunk_size: DEFAULT_CHUNK_SIZE,
                    max_workers: parallelism,
                    debug: false,
                    no_display: false,
                    no_progress,
                    verbosity: general,
                },
            ),
        }
    }
}

} // verus!
