//! The generate run: the checksum of every file under a directory is
//! computed and recorded in a new manifest.

use vstd::prelude::*;
use crate::checksum::{Checksum, ChecksumAlgorithm, ChecksumError, ChecksumMode};
use crate::display::{
    DisplayStep, DisplayWorker, ProgressTicker, Shown, Span, SpanView, Style, cause_text,
    error_line, line_view, render_error, styled,
};
use crate::manifest::Manifest;
use crate::manifest::format::ManifestFormat;
use crate::manifest::model::{ArtifactView, ManifestView};
use crate::paths::{diff_paths, ends_with, joined_path, path_suffix, relative_path, text_of};
use crate::text::{cat2, cat3, decimal, decimal_spec};

verus! {

/// What is said where the directory of a run does not exist.
pub const DIRECTORY_MISSING: &'static str = "Directory does not exist";

/// Options for generating checksums.
#[derive(Debug)]
pub struct GenerateOptions {
    /// Path to the directory to generate checksums for.
    pub dirpath: String,
    /// Optional output file path for the manifest.
    pub output: Option<String>,
    /// Optional checksum algorithm to use.
    pub algorithm: Option<ChecksumAlgorithm>,
    /// Optional format for the manifest.
    pub format: Option<ManifestFormat>,
    /// Optional checksum mode to use.
    pub mode: Option<ChecksumMode>,
    /// Size of chunks to use when calculating checksums.
    pub chunk_size: usize,
    /// Maximum number of workers to use for checksum calculation.
    pub max_workers: usize,
    /// Debug output is enabled.
    pub debug: bool,
    /// Show progress output.
    pub show_progress: bool,
    /// Verbosity level for output.
    pub verbosity: u8,
}

/// A file and the checksum that was computed of it.
#[derive(Debug)]
pub struct GenerateChecksumResult {
    pub filepath: String,
    pub checksum: Checksum,
}

/// A file whose checksum could not be computed.
#[derive(Debug)]
pub struct GenerateChecksumError {
    pub filepath: String,
    pub message: String,
    pub error: Option<ChecksumError>,
}

/// The counts of a generate run at one moment.
#[derive(Clone, Copy, Debug, PartialEq, Eq, Structural)]
pub struct GenerateChecksumProgress {
    pub success: usize,
    pub error: usize,
}

/// How many files of a generate run got a checksum, and how many did not.
#[derive(Clone, Copy, Debug, PartialEq, Eq, Structural)]
pub struct GenerateChecksumCounters {
    pub success: usize,
    pub error: usize,
}

/// The end of the task of one file.
pub type GenerateOutcome = Result<GenerateChecksumResult, GenerateChecksumError>;

/// The line for a file that got a checksum: the digest and the file, dimmed.
pub open spec fn result_line(digest: Seq<char>, filepath: Seq<char>) -> Seq<SpanView> {
    seq![styled(digest + " "@ + filepath, Style::Dimmed)]
}

/// The counts of a run as the user sees them: the files added, in green,
/// and the errors, in red, where there are any.
pub open spec fn progress_line(progress: GenerateChecksumProgress) -> Seq<SpanView> {
    let added = seq![styled(decimal_spec(progress.success as nat) + " added"@, Style::Green)];
    if progress.error > 0 {
        added + seq![
            styled(" "@, Style::Plain),
            styled(decimal_spec(progress.error as nat) + " errors"@, Style::Red),
        ]
    } else {
        added
    }
}

/// The line that opens a generate run.
pub open spec fn start_line(filepath: Seq<char>, format: ManifestFormat) -> Seq<SpanView> {
    seq![styled("Generating "@ + filepath + " ("@ + format.spec_name() + ")"@, Style::Plain)]
}

impl GenerateChecksumResult {
    /// The line that shows the result to the user.
    pub fn render(&self) -> (line: Vec<Span>)
        ensures
            line_view(line@) == result_line(self.checksum@.hex(), self.filepath@),
    {
        let digest = self.checksum.to_hex();
        let mut line: Vec<Span> = Vec::new();
        line.push(
            Span { text: cat3(digest.as_str(), " ", self.filepath.as_str()), style: Style::Dimmed },
        );
        proof {
            assert(line_view(line@) =~= result_line(self.checksum@.hex(), self.filepath@));
        }
        line
    }
}

impl GenerateChecksumError {
    /// The line that shows the error to the user.
    pub fn render(&self) -> (line: Vec<Span>)
        ensures
            line_view(line@) == error_line(self.filepath@, self.message@, cause_text(self.error)),
    {
        render_error(self.filepath.as_str(), self.message.as_str(), &self.error)
    }
}

impl GenerateChecksumProgress {
    /// The counts as the user sees them.
    pub fn render(&self) -> (line: Vec<Span>)
        ensures
            line_view(line@) == progress_line(*self),
    {
        let mut line: Vec<Span> = Vec::new();
        line.push(Span { text: cat2(decimal(self.success).as_str(), " added"), style: Style::Green });
        if self.error > 0 {
            line.push(Span { text: " ".to_owned(), style: Style::Plain });
            line.push(Span { text: cat2(decimal(self.error).as_str(), " errors"), style: Style::Red });
        }
        proof {
            assert(line_view(line@) =~= progress_line(*self));
        }
        line
    }
}

/// A message on the display channel of a generate run.
#[derive(Debug)]
pub enum DisplayMessage {
    /// The run has started; `filepath` is where the manifest will be.
    Start { format: ManifestFormat, filepath: String },
    /// A file got a checksum.
    Result(GenerateChecksumResult),
    /// The checksum of a file could not be computed.
    Error(GenerateChecksumError),
    /// The counts of the run so far.
    Progress(GenerateChecksumProgress),
    /// The run is over.
    Exit,
}

impl DisplayMessage {
    /// What the consumer of the channel shows for the message.
    pub fn shown(self) -> (shown: Shown)
        ensures
            match self {
                DisplayMessage::Start { format, filepath } => shown matches Shown::Line(line)
                    && line_view(line@) == start_line(filepath@, format),
                DisplayMessage::Result(result) => shown matches Shown::Line(line) && line_view(
                    line@,
                ) == result_line(result.checksum@.hex(), result.filepath@),
                DisplayMessage::Error(error) => shown matches Shown::Line(line) && line_view(line@)
                    == error_line(error.filepath@, error.message@, cause_text(error.error)),
                DisplayMessage::Progress(progress) => shown matches Shown::Progress(line)
                    && line_view(line@) == progress_line(progress),
                DisplayMessage::Exit => shown is Exit,
            },
    {
        match self {
            DisplayMessage::Start { format, filepath } => {
                let head = cat3("Generating ", filepath.as_str(), " (");
                let text = cat3(head.as_str(), format.name(), ")");
                let mut line: Vec<Span> = Vec::new();
                line.push(Span { text, style: Style::Plain });
                proof {
                    assert(line_view(line@) =~= start_line(filepath@, format));
                }
                Shown::Line(line)
            },
            DisplayMessage::Result(result) => Shown::Line(result.render()),
            DisplayMessage::Error(error) => Shown::Line(error.render()),
            DisplayMessage::Progress(progress) => Shown::Progress(progress.render()),
            DisplayMessage::Exit => Shown::Exit,
        }
    }
}

/// One turn of the consumer of the display channel: what it writes for the
/// message it got, and whether it stops.
pub fn display_worker(worker: &mut DisplayWorker, message: DisplayMessage) -> (step: DisplayStep)
    ensures
        step.clear_progress == old(worker).progress_visible,
        final(worker).progress_visible == (message is Progress),
        step.stop == (message is Exit),
        step.flush == !(message is Exit),
        step.newline == !(message is Exit || message is Progress),
        match message {
            DisplayMessage::Start { format, filepath } => line_view(step.spans@) == start_line(
                filepath@,
                format,
            ),
            DisplayMessage::Result(result) => line_view(step.spans@) == result_line(
                result.checksum@.hex(),
                result.filepath@,
            ),
            DisplayMessage::Error(error) => line_view(step.spans@) == error_line(
                error.filepath@,
                error.message@,
                cause_text(error.error),
            ),
            DisplayMessage::Progress(progress) => line_view(step.spans@) == progress_line(progress),
            DisplayMessage::Exit => step.spans@.len() == 0,
        },
{
    worker.step(message.shown())
}

/// One tick of the progress ticker: a snapshot of the counts where the
/// number of finished files is not the one that the last snapshot showed.
pub fn progress_worker(ticker: &mut ProgressTicker, counters: &GenerateChecksumCounters) -> (message:
    Option<DisplayMessage>)
    requires
        counters.success + counters.error <= usize::MAX,
    ensures
        final(ticker).last_progress == counters.success + counters.error,
        message == if counters.success + counters.error != old(ticker).last_progress {
            Some(
                DisplayMessage::Progress(
                    GenerateChecksumProgress { success: counters.success, error: counters.error },
                ),
            )
        } else {
            None
        },
{
    let success = counters.success;
    let error = counters.error;
    if ticker.tick(success + error, false) {
        Some(DisplayMessage::Progress(GenerateChecksumProgress { success, error }))
    } else {
        None
    }
}

/// What the run does when it ends the display.
#[derive(Debug)]
pub struct ExitPlan {
    /// The message to send first, if any.
    pub message: Option<DisplayMessage>,
    /// Whether a consumer runs and has to be stopped.
    pub stop_display: bool,
}

/// Counts the files of a generate run and decides what reaches the display channel.
#[derive(Debug)]
pub struct DisplayManager {
    /// The number of messages that the channel holds.
    pub buffer_size: usize,
    pub counters: GenerateChecksumCounters,
    /// How much the user wants to see.
    pub verbosity: u8,
    /// Whether nothing at all is shown.
    pub disabled: bool,
    /// Whether a consumer of the channel runs.
    pub display_running: bool,
    /// Whether a progress ticker runs.
    pub progress_running: bool,
}

impl DisplayManager {
    /// Whether the two managers differ in their counters at most.
    pub open spec fn same_settings(self, other: DisplayManager) -> bool {
        &&& self.buffer_size == other.buffer_size
        &&& self.verbosity == other.verbosity
        &&& self.disabled == other.disabled
        &&& self.display_running == other.display_running
        &&& self.progress_running == other.progress_running
    }

    /// The manager of a run that has counted nothing. A consumer of the
    /// channel runs from the start unless the display is disabled.
    pub fn new(buffer_size: usize, verbosity: u8, disabled: bool) -> (manager: Self)
        ensures
            manager.buffer_size == buffer_size,
            manager.counters == (GenerateChecksumCounters { success: 0, error: 0 }),
            manager.verbosity == verbosity,
            manager.disabled == disabled,
            manager.display_running == !disabled,
            !manager.progress_running,
    {
        let counters = GenerateChecksumCounters { success: 0, error: 0 };
        let mut display_running = false;
        if !disabled {
            display_running = true;
        }
        let manager = DisplayManager {
            buffer_size,
            counters,
            verbosity,
            disabled,
            display_running,
            progress_running: false,
        };
        manager
    }

    /// Starts the progress ticker, unless the display is disabled; says
    /// whether a ticker is to be started.
    pub fn start_progress_worker(&mut self) -> (started: bool)
        ensures
            started == !old(self).disabled,
            final(self).progress_running == (old(self).progress_running || started),
            final(self).counters == old(self).counters,
            final(self).buffer_size == old(self).buffer_size,
            final(self).verbosity == old(self).verbosity,
            final(self).disabled == old(self).disabled,
            final(self).display_running == old(self).display_running,
    {
        if self.disabled {
            return false;
        }
        self.progress_running = true;
        true
    }

    /// Stops the progress ticker; says whether one ran and has to be stopped.
    pub fn stop_progress_worker(&mut self) -> (stopped: bool)
        ensures
            stopped == old(self).progress_running,
            !final(self).progress_running,
            final(self).counters == old(self).counters,
            final(self).buffer_size == old(self).buffer_size,
            final(self).verbosity == old(self).verbosity,
            final(self).disabled == old(self).disabled,
            final(self).display_running == old(self).display_running,
    {
        let stopped = self.progress_running;
        self.progress_running = false;
        stopped
    }

    /// The message that opens the run, unless the display is disabled.
    pub fn report_start(&self, format: ManifestFormat, filepath: String) -> (message: Option<
        DisplayMessage,
    >)
        ensures
            message == if self.disabled {
                None
            } else {
                Some(DisplayMessage::Start { format, filepath })
            },
    {
        if !self.disabled {
            Some(DisplayMessage::Start { format, filepath })
        } else {
            None
        }
    }

    /// Counts a file that got a checksum. Its message is for a user who
    /// asked for more than the summary, and for nobody where the display is
    /// disabled.
    pub fn report_checksum_result(&mut self, result: GenerateChecksumResult) -> (message: Option<
        DisplayMessage,
    >)
        requires
            old(self).counters.success < usize::MAX,
        ensures
            final(self).counters == (GenerateChecksumCounters {
                success: (old(self).counters.success + 1) as usize,
                error: old(self).counters.error,
            }),
            final(self).same_settings(*old(self)),
            message == result_message(old(self).verbosity, old(self).disabled, result),
    {
        self.counters.success = self.counters.success + 1;
        if !self.disabled && self.verbosity >= 1 {
            Some(DisplayMessage::Result(result))
        } else {
            None
        }
    }

    /// Counts a file whose checksum could not be computed. Its message is
    /// for every user, unless the display is disabled.
    pub fn report_error(&mut self, error: GenerateChecksumError) -> (message: Option<DisplayMessage>)
        requires
            old(self).counters.error < usize::MAX,
        ensures
            final(self).counters == (GenerateChecksumCounters {
                success: old(self).counters.success,
                error: (old(self).counters.error + 1) as usize,
            }),
            final(self).same_settings(*old(self)),
            message == error_message(old(self).disabled, error),
    {
        self.counters.error = self.counters.error + 1;
        if !self.disabled {
            Some(DisplayMessage::Error(error))
        } else {
            None
        }
    }

    /// Ends the display: the last message, unless the display is disabled,
    /// and whether a consumer has to be stopped.
    pub fn report_exit(&mut self) -> (plan: ExitPlan)
        ensures
            plan.message == if old(self).disabled {
                None
            } else {
                Some(DisplayMessage::Exit)
            },
            plan.stop_display == old(self).display_running,
            !final(self).display_running,
            final(self).counters == old(self).counters,
            final(self).buffer_size == old(self).buffer_size,
            final(self).verbosity == old(self).verbosity,
            final(self).disabled == old(self).disabled,
            final(self).progress_running == old(self).progress_running,
    {
        let stop_display = self.display_running;
        self.display_running = false;
        ExitPlan {
            message: if !self.disabled {
                Some(DisplayMessage::Exit)
            } else {
                None
            },
            stop_display,
        }
    }
}

/// The message for a file that got a checksum.
pub open spec fn result_message(verbosity: u8, disabled: bool, result: GenerateChecksumResult)
    -> Option<DisplayMessage> {
    if !disabled && verbosity >= 1 {
        Some(DisplayMessage::Result(result))
    } else {
        None
    }
}

/// The message for a file whose checksum could not be computed.
pub open spec fn error_message(disabled: bool, error: GenerateChecksumError) -> Option<
    DisplayMessage,
> {
    if !disabled {
        Some(DisplayMessage::Error(error))
    } else {
        None
    }
}

/// The algorithm of a run: the one that the format forces, if it forces
/// one; else the one the user asked for; else the default.
pub open spec fn chosen_algorithm(
    implied: Option<ChecksumAlgorithm>,
    requested: Option<ChecksumAlgorithm>,
) -> ChecksumAlgorithm {
    match implied {
        Some(algorithm) => algorithm,
        None => match requested {
            Some(algorithm) => algorithm,
            None => ChecksumAlgorithm::SHA512,
        },
    }
}

/// The algorithm of a run, from what the format forces and what the user
/// asked for.
pub fn resolve_algorithm(implied: Option<ChecksumAlgorithm>, requested: Option<ChecksumAlgorithm>)
    -> (algorithm: ChecksumAlgorithm)
    ensures
        algorithm == chosen_algorithm(implied, requested),
{
    let fallback = match requested {
        Some(algorithm) => algorithm,
        None => ChecksumAlgorithm::default(),
    };
    match implied {
        Some(algorithm) => algorithm,
        None => fallback,
    }
}

/// What the user is told where the format does not take the algorithm asked for.
pub open spec fn warning_text(
    requested: ChecksumAlgorithm,
    format: ManifestFormat,
    used: ChecksumAlgorithm,
) -> Seq<char> {
    "Unsupported algorithm "@ + requested.spec_name() + " for format "@ + format.spec_name()
        + ", using algorithm "@ + used.spec_name()
}

/// The warning of a run: one is due exactly where the user asked for an
/// algorithm and the run uses another.
pub open spec fn warning_spec(
    requested: Option<ChecksumAlgorithm>,
    format: ManifestFormat,
    used: ChecksumAlgorithm,
) -> Option<Seq<char>> {
    match requested {
        Some(algorithm) => if algorithm != used {
            Some(warning_text(algorithm, format, used))
        } else {
            None
        },
        None => None,
    }
}

/// The warning of a run, where one is due.
pub fn algorithm_warning(
    requested: Option<ChecksumAlgorithm>,
    format: ManifestFormat,
    used: ChecksumAlgorithm,
) -> (warning: Option<String>)
    ensures
        text_of(warning) == warning_spec(requested, format, used),
{
    match requested {
        Some(algorithm) => {
            if algorithm != used {
                let head = cat3("Unsupported algorithm ", algorithm.name(), " for format ");
                let tail = cat3(format.name(), ", using algorithm ", used.name());
                let text = cat2(head.as_str(), tail.as_str());
                proof {
                    assert(text@ =~= warning_text(algorithm, format, used));
                }
                Some(text)
            } else {
                None
            }
        },
        None => None,
    }
}

/// What a generate run does, as far as its options decide it.
#[derive(Debug)]
pub struct GeneratePlan {
    pub format: ManifestFormat,
    pub algorithm: ChecksumAlgorithm,
    pub mode: ChecksumMode,
    /// Where the manifest is written.
    pub manifest_filepath: String,
    /// What the user is told before the run starts, if anything.
    pub warning: Option<String>,
    /// The number of messages that the display channel holds.
    pub buffer_size: usize,
}

/// Whether `plan` is what the options ask for: the format given or the
/// default one; the algorithm that the format forces, with a warning where
/// the user asked for another; the mode given or binary; the manifest at the
/// path given, or under the format's default name in the directory of the
/// run; and a display channel of four messages for each worker.
pub open spec fn is_plan_of(plan: GeneratePlan, options: GenerateOptions) -> bool {
    let format = match options.format {
        Some(f) => f,
        None => ManifestFormat::SFV,
    };
    &&& plan.format == format
    &&& plan.algorithm == chosen_algorithm(Some(format.implied_algorithm()), options.algorithm)
    &&& plan.mode == match options.mode {
        Some(m) => m,
        None => ChecksumMode::Binary,
    }
    &&& plan.manifest_filepath@ == match options.output {
        Some(path) => path@,
        None => joined_path(options.dirpath@, format.spec_default_filename()),
    }
    &&& text_of(plan.warning) == warning_spec(options.algorithm, format, plan.algorithm)
    &&& plan.buffer_size == options.max_workers * 4
}

/// Plans a generate run from its options.
pub fn plan(options: &GenerateOptions) -> (plan: GeneratePlan)
    requires
        options.max_workers * 4 <= usize::MAX,
    ensures
        is_plan_of(plan, *options),
{
    let format = match options.format {
        Some(f) => f,
        None => ManifestFormat::default(),
    };
    let algorithm = resolve_algorithm(format.algorithm(), options.algorithm);
    let warning = algorithm_warning(options.algorithm, format, algorithm);
    let mode = match options.mode {
        Some(m) => m,
        None => ChecksumMode::default(),
    };
    let manifest_filepath = match &options.output {
        Some(path) => path.clone(),
        None => format.build_manifest_filepath(options.dirpath.as_str()),
    };
    GeneratePlan {
        format,
        algorithm,
        mode,
        manifest_filepath,
        warning,
        buffer_size: options.max_workers * 4,
    }
}

/// The pattern that finds everything under a directory, at any depth.
pub open spec fn walk_pattern_spec(dirpath: Seq<char>) -> Seq<char> {
    dirpath + "/**/*"@
}

/// The pattern that finds everything under the directory of a run.
pub fn walk_pattern(dirpath: &str) -> (pattern: String)
    ensures
        pattern@ == walk_pattern_spec(dirpath@),
{
    cat2(dirpath, "/**/*")
}

/// Whether an entry found under the directory of a run gets a checksum:
/// it does unless it has vanished, is a directory or a symbolic link, or is
/// the manifest that the run writes.
pub fn should_hash(present: bool, is_dir: bool, is_symlink: bool, is_manifest: bool) -> (b: bool)
    ensures
        b == (present && !is_dir && !is_symlink && !is_manifest),
{
    !(!present || is_dir || is_symlink || is_manifest)
}

/// Whether the entry at `path`, found under the directory of a run, gets
/// a checksum: it does unless it has vanished, is a directory or a symbolic
/// link, or is the manifest that the run writes, which it is where the path
/// of the manifest ends with `path`.
pub fn admits(manifest_filepath: &str, path: &str, present: bool, is_dir: bool, is_symlink: bool)
    -> (b: bool)
    ensures
        b == (present && !is_dir && !is_symlink && !path_suffix(manifest_filepath@, path@)),
{
    let is_manifest = ends_with(manifest_filepath, path);
    should_hash(present, is_dir, is_symlink, is_manifest)
}

/// The end of the task of one file, from what the checksum provider
/// answered: the file with its checksum, or with the reason why it has none.
pub fn task_outcome(filepath: String, answer: Result<Checksum, ChecksumError>) -> (outcome:
    GenerateOutcome)
    ensures
        match answer {
            Ok(checksum) => outcome matches Ok(result) && result.filepath@ == filepath@
                && result.checksum == checksum,
            Err(cause) => outcome matches Err(error) && error.filepath@ == filepath@
                && error.message@ == "Failed to calculate checksum"@ && error.error == Some(cause),
        },
{
    match answer {
        Ok(checksum) => Ok(GenerateChecksumResult { checksum, filepath }),
        Err(error) => Err(
            GenerateChecksumError {
                filepath,
                message: "Failed to calculate checksum".to_owned(),
                error: Some(error),
            },
        ),
    }
}

/// Records a checksum under a path relative to the directory of the run,
/// where there is such a path; says whether it did.
pub fn record_relative(manifest: &mut Manifest, relative: Option<String>, checksum: Checksum) -> (recorded:
    bool)
    ensures
        recorded == relative is Some,
        final(manifest)@ == recorded_under(old(manifest)@, text_of(relative), checksum@),
{
    match relative {
        Some(path) => {
            manifest.insert(path, checksum);
            true
        },
        None => false,
    }
}

/// The manifest after a checksum has been recorded under a relative path,
/// where there is one.
pub open spec fn recorded_under(
    manifest: ManifestView,
    relative: Option<Seq<char>>,
    checksum: crate::checksum::ChecksumView,
) -> ManifestView {
    match relative {
        Some(path) => manifest.with_artifact(ArtifactView { path, checksum }),
        None => manifest,
    }
}

/// The manifest of a run: the checksum of every file that got one,
/// recorded under the file's path relative to the directory of the run, in
/// the order in which the tasks are given. A file without such a path is
/// left out.
pub open spec fn collected(dirpath: Seq<char>, outcomes: Seq<GenerateOutcome>) -> ManifestView
    decreases outcomes.len(),
{
    if outcomes.len() == 0 {
        ManifestView::empty()
    } else {
        let before = collected(dirpath, outcomes.drop_last());
        match outcomes.last() {
            Ok(result) => recorded_under(
                before,
                relative_path(result.filepath@, dirpath),
                result.checksum@,
            ),
            Err(_) => before,
        }
    }
}

/// The number of files that got a checksum.
pub open spec fn successes(outcomes: Seq<GenerateOutcome>) -> nat
    decreases outcomes.len(),
{
    if outcomes.len() == 0 {
        0
    } else {
        successes(outcomes.drop_last()) + if outcomes.last() is Ok {
            1nat
        } else {
            0nat
        }
    }
}

/// The messages of a run, one for each file that has one, in the order in
/// which the tasks are given.
pub open spec fn messages_for(verbosity: u8, disabled: bool, outcomes: Seq<GenerateOutcome>) -> Seq<
    DisplayMessage,
>
    decreases outcomes.len(),
{
    if outcomes.len() == 0 {
        Seq::empty()
    } else {
        let before = messages_for(verbosity, disabled, outcomes.drop_last());
        match outcome_message(verbosity, disabled, outcomes.last()) {
            Some(m) => before.push(m),
            None => before,
        }
    }
}

/// No more files got a checksum than there are files.
pub proof fn lemma_successes_bound(outcomes: Seq<GenerateOutcome>)
    ensures
        successes(outcomes) <= outcomes.len(),
    decreases outcomes.len(),
{
    if outcomes.len() > 0 {
        lemma_successes_bound(outcomes.drop_last());
    }
}

/// The message for the end of the task of one file.
pub open spec fn outcome_message(verbosity: u8, disabled: bool, outcome: GenerateOutcome) -> Option<
    DisplayMessage,
> {
    match outcome {
        Ok(result) => result_message(verbosity, disabled, result),
        Err(error) => error_message(disabled, error),
    }
}

/// Takes the end of the task of one file into the run. A file that got a
/// checksum is recorded in the manifest under its path relative to the
/// directory of the run, where it has one, and counted as a success; a file
/// that got none is counted as an error. Returns the message for the display
/// channel, if there is one.
pub fn absorb(
    dirpath: &str,
    outcome: GenerateOutcome,
    manifest: &mut Manifest,
    manager: &mut DisplayManager,
) -> (message: Option<DisplayMessage>)
    requires
        old(manager).counters.success < usize::MAX,
        old(manager).counters.error < usize::MAX,
    ensures
        final(manifest)@ == match outcome {
            Ok(result) => recorded_under(
                old(manifest)@,
                relative_path(result.filepath@, dirpath@),
                result.checksum@,
            ),
            Err(_) => old(manifest)@,
        },
        message == outcome_message(old(manager).verbosity, old(manager).disabled, outcome),
        final(manager).counters.success == old(manager).counters.success + if outcome is Ok {
            1int
        } else {
            0int
        },
        final(manager).counters.error == old(manager).counters.error + if outcome is Ok {
            0int
        } else {
            1int
        },
        final(manager).same_settings(*old(manager)),
{
    match outcome {
        Ok(result) => {
            let checksum = result.checksum.duplicate();
            let relative = diff_paths(result.filepath.as_str(), dirpath);
            record_relative(manifest, relative, checksum);
            manager.report_checksum_result(result)
        },
        Err(error) => manager.report_error(error),
    }
}

} // verus!
