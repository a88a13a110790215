//! One file of a verify run: what the checksum provider is asked for, and
//! how its answer is classified and counted.

use vstd::prelude::*;
use crate::checksum::{Checksum, ChecksumError, ChecksumOptions, ChecksumView};
use crate::display::{Span, SpanView, Style, cause_text, error_line, line_view, render_error, styled};
use crate::scheduler::Scheduler;
use crate::text::cat3;

verus! {

/// How a file stands to the checksum that the manifest expects of it.
#[derive(Clone, Copy, Debug, PartialEq, Eq, Structural)]
pub enum VerifyTaskStatus {
    /// The file has the expected checksum.
    Valid,
    /// The file has another checksum.
    Invalid,
    /// There is no regular file at the path.
    Missing,
}

impl VerifyTaskStatus {
    /// The mark that stands for the status in a line of output.
    pub open spec fn spec_symbol(self) -> Seq<char> {
        match self {
            VerifyTaskStatus::Valid => "\u{2713}"@,
            VerifyTaskStatus::Invalid => "\u{2717}"@,
            VerifyTaskStatus::Missing => "?"@,
        }
    }

    /// The mark that stands for the status in a line of output.
    pub fn symbol(&self) -> (mark: &str)
        ensures
            mark@ == self.spec_symbol(),
    {
        match self {
            VerifyTaskStatus::Valid => "\u{2713}",
            VerifyTaskStatus::Invalid => "\u{2717}",
            VerifyTaskStatus::Missing => "?",
        }
    }
}

/// What was found out about a file that the manifest names.
#[derive(Debug)]
pub struct VerifyTaskResult {
    pub status: VerifyTaskStatus,
    pub filename: String,
    /// The checksum of the file as it is; `None` where the file is missing.
    pub actual: Option<Checksum>,
    pub expected: Checksum,
}

/// A file whose checksum could not be computed.
#[derive(Debug)]
pub struct VerifyTaskError {
    pub filepath: String,
    pub message: String,
    pub error: Option<ChecksumError>,
}

/// The line for a file that was checked. A valid file: mark and name in
/// green, then the expected digest in brackets, dimmed. An invalid one: mark
/// and name in bold red, then both digests in brackets, the actual one in
/// red. A missing one: mark and name in yellow.
pub open spec fn result_line(
    status: VerifyTaskStatus,
    filename: Seq<char>,
    actual: Seq<char>,
    expected: Seq<char>,
) -> Seq<SpanView> {
    let title = status.spec_symbol() + " "@ + filename;
    match status {
        VerifyTaskStatus::Valid => seq![
            styled(title, Style::Green),
            styled(" "@, Style::Plain),
            styled("("@ + expected + ")"@, Style::Dimmed),
        ],
        VerifyTaskStatus::Invalid => seq![
            styled(title, Style::BoldRed),
            styled(" "@, Style::Plain),
            styled("("@, Style::Dimmed),
            styled(actual, Style::DimmedRed),
            styled(" != "@ + expected + ")"@, Style::Dimmed),
        ],
        VerifyTaskStatus::Missing => seq![styled(title, Style::Yellow)],
    }
}

impl VerifyTaskResult {
    /// The digest of the file as it is, in hexadecimal; empty where none is known.
    pub open spec fn actual_hex(self) -> Seq<char> {
        match self.actual {
            Some(c) => c@.hex(),
            None => Seq::empty(),
        }
    }

    /// The line that shows the result to the user.
    pub fn render(&self) -> (line: Vec<Span>)
        requires
            self.status == VerifyTaskStatus::Invalid ==> self.actual is Some,
        ensures
            line_view(line@) == result_line(
                self.status,
                self.filename@,
                self.actual_hex(),
                self.expected@.hex(),
            ),
    {
        let title = cat3(self.status.symbol(), " ", self.filename.as_str());
        let expected = self.expected.to_hex();
        let mut line: Vec<Span> = Vec::new();
        match self.status {
            VerifyTaskStatus::Valid => {
                line.push(Span { text: title, style: Style::Green });
                line.push(Span { text: " ".to_owned(), style: Style::Plain });
                line.push(Span { text: cat3("(", expected.as_str(), ")"), style: Style::Dimmed });
            },
            VerifyTaskStatus::Invalid => {
                let actual = match &self.actual {
                    Some(c) => c.to_hex(),
                    None => String::new(),
                };
                line.push(Span { text: title, style: Style::BoldRed });
                line.push(Span { text: " ".to_owned(), style: Style::Plain });
                line.push(Span { text: "(".to_owned(), style: Style::Dimmed });
                line.push(Span { text: actual, style: Style::DimmedRed });
                line.push(Span { text: cat3(" != ", expected.as_str(), ")"), style: Style::Dimmed });
            },
            VerifyTaskStatus::Missing => {
                line.push(Span { text: title, style: Style::Yellow });
            },
        }
        proof {
            assert(line_view(line@) =~= result_line(
                self.status,
                self.filename@,
                self.actual_hex(),
                self.expected@.hex(),
            ));
        }
        line
    }
}

impl VerifyTaskError {
    /// The line that shows the error to the user.
    pub fn render(&self) -> (line: Vec<Span>)
        ensures
            line_view(line@) == error_line(self.filepath@, self.message@, cause_text(self.error)),
    {
        render_error(self.filepath.as_str(), self.message.as_str(), &self.error)
    }
}

/// What the outside world reports of a file: that no regular file is at its
/// path, the checksum that was computed of it, or why none could be.
#[derive(Debug)]
pub enum FileProbe {
    NotAFile,
    Computed(Checksum),
    Failed(ChecksumError),
}

/// The four ways in which the task of one file ends.
#[derive(Clone, Copy, Debug, PartialEq, Eq, Structural)]
pub enum OutcomeKind {
    Valid,
    Invalid,
    Missing,
    Errored,
}

/// How a file is classified: missing where no regular file is at its path;
/// else valid or invalid as the computed checksum equals the expected one in
/// algorithm, mode and digest, or does not; errored where none could be
/// computed.
pub open spec fn classify(expected: ChecksumView, probe: FileProbe) -> OutcomeKind {
    match probe {
        FileProbe::NotAFile => OutcomeKind::Missing,
        FileProbe::Computed(actual) => if actual@ == expected {
            OutcomeKind::Valid
        } else {
            OutcomeKind::Invalid
        },
        FileProbe::Failed(_) => OutcomeKind::Errored,
    }
}

/// What is said of a file whose checksum could not be computed.
pub open spec fn failure_message() -> Seq<char> {
    "Failed to calculate checksum"@
}

/// Whether `outcome` reports the file `filename` as `classify` puts it:
/// a result with the status, both checksums where an actual one exists, or
/// an error that carries the cause.
pub open spec fn reports(
    outcome: Result<VerifyTaskResult, VerifyTaskError>,
    filename: Seq<char>,
    expected: ChecksumView,
    probe: FileProbe,
) -> bool {
    match outcome {
        Ok(result) => {
            &&& result.filename@ == filename
            &&& result.expected@ == expected
            &&& match probe {
                FileProbe::NotAFile => result.status == VerifyTaskStatus::Missing
                    && result.actual is None,
                FileProbe::Computed(actual) => {
                    &&& result.actual is Some
                    &&& result.actual->0@ == actual@
                    &&& result.status == if actual@ == expected {
                        VerifyTaskStatus::Valid
                    } else {
                        VerifyTaskStatus::Invalid
                    }
                },
                FileProbe::Failed(_) => false,
            }
        },
        Err(error) => {
            &&& error.filepath@ == filename
            &&& error.message@ == failure_message()
            &&& probe matches FileProbe::Failed(cause)
            &&& error.error == Some(cause)
        },
    }
}

/// How many files of a run ended in each of the four ways.
#[derive(Clone, Copy, Debug, PartialEq, Eq, Structural)]
pub struct VerifyTaskCounters {
    pub valid: usize,
    pub invalid: usize,
    pub missing: usize,
    pub errored: usize,
}

impl VerifyTaskCounters {
    /// The number of files that have been counted.
    pub open spec fn total(self) -> int {
        self.valid + self.invalid + self.missing + self.errored
    }

    /// The counters after one more file has ended in the given way: that
    /// way's counter is one higher, the others are as they were.
    pub open spec fn bumped(self, kind: OutcomeKind) -> (int, int, int, int) {
        let (valid, invalid, missing, errored) = self.counts();
        match kind {
            OutcomeKind::Valid => (valid + 1, invalid, missing, errored),
            OutcomeKind::Invalid => (valid, invalid + 1, missing, errored),
            OutcomeKind::Missing => (valid, invalid, missing + 1, errored),
            OutcomeKind::Errored => (valid, invalid, missing, errored + 1),
        }
    }

    /// The four counts as numbers.
    pub open spec fn counts(self) -> (int, int, int, int) {
        (self.valid as int, self.invalid as int, self.missing as int, self.errored as int)
    }

    /// Counters that have counted nothing.
    pub fn new() -> (c: Self)
        ensures
            c.counts() == (0int, 0int, 0int, 0int),
    {
        VerifyTaskCounters { valid: 0, invalid: 0, missing: 0, errored: 0 }
    }

    /// Counts one more file, which ended in the given way.
    pub fn record(&mut self, kind: OutcomeKind)
        requires
            old(self).total() < usize::MAX,
        ensures
            final(self).counts() == old(self).bumped(kind),
            final(self).total() == old(self).total() + 1,
    {
        match kind {
            OutcomeKind::Valid => {
                self.valid = self.valid + 1;
            },
            OutcomeKind::Invalid => {
                self.invalid = self.invalid + 1;
            },
            OutcomeKind::Missing => {
                self.missing = self.missing + 1;
            },
            OutcomeKind::Errored => {
                self.errored = self.errored + 1;
            },
        }
    }

    /// The exit status of a verify run with these counts: one where a file
    /// was invalid, else zero, whatever the other counts are.
    pub fn exit_status(&self) -> (status: i32)
        ensures
            status == if self.invalid > 0 {
                1i32
            } else {
                0i32
            },
            (status != 0) == (self.invalid > 0),
    {
        if self.invalid > 0 {
            1
        } else {
            0
        }
    }
}

/// Makes the tasks of a verify run and keeps their counts.
#[derive(Debug)]
pub struct VerifyTaskBuilder {
    /// The largest number of files that are read at a time.
    pub max_workers: usize,
    /// The number of bytes that are read from a file at a time.
    pub chunk_size: usize,
    pub counters: VerifyTaskCounters,
}

impl VerifyTaskBuilder {
    /// A builder for a run with the given bound on workers and the given
    /// chunk size, which has counted nothing.
    pub fn new(max_workers: usize, chunk_size: usize) -> (builder: Self)
        ensures
            builder.max_workers == max_workers,
            builder.chunk_size == chunk_size,
            builder.counters.counts() == (0int, 0int, 0int, 0int),
    {
        VerifyTaskBuilder { max_workers, chunk_size, counters: VerifyTaskCounters::new() }
    }

    /// The scheduler for a run over `total` files, bounded as the builder is.
    pub fn scheduler(&self, total: usize) -> (s: Scheduler)
        ensures
            s.max_workers() == self.max_workers,
            s.total() == total,
            s.started() == 0,
            s.completed() == 0,
    {
        Scheduler::new(self.max_workers, total)
    }

    /// What the checksum provider is asked for the file at `filepath`: a
    /// checksum by the algorithm and in the mode of the expected one, read in
    /// chunks of the builder's size.
    pub fn request(&self, filepath: String, expected: &Checksum) -> (options: ChecksumOptions)
        ensures
            options.filepath@ == filepath@,
            options.algorithm == expected.algorithm,
            options.mode == expected.mode,
            options.chunk_size == Some(self.chunk_size),
    {
        ChecksumOptions {
            filepath,
            algorithm: expected.algorithm,
            mode: expected.mode,
            chunk_size: Some(self.chunk_size),
        }
    }

    /// Classifies the file `filename` from what was found out about it, and
    /// counts it.
    pub fn verify_checksum(&mut self, filename: &str, expected: &Checksum, probe: FileProbe) -> (outcome:
        Result<VerifyTaskResult, VerifyTaskError>)
        requires
            old(self).counters.total() < usize::MAX,
        ensures
            reports(outcome, filename@, expected@, probe),
            outcome is Err <==> classify(expected@, probe) == OutcomeKind::Errored,
            final(self).counters.counts() == old(self).counters.bumped(classify(expected@, probe)),
            final(self).counters.total() == old(self).counters.total() + 1,
            final(self).max_workers == old(self).max_workers,
            final(self).chunk_size == old(self).chunk_size,
    {
        match probe {
            FileProbe::NotAFile => {
                self.counters.record(OutcomeKind::Missing);
                Ok(
                    VerifyTaskResult {
                        status: VerifyTaskStatus::Missing,
                        filename: filename.to_owned(),
                        actual: None,
                        expected: expected.duplicate(),
                    },
                )
            },
            FileProbe::Computed(actual) => {
                let status = if actual.same_as(expected) {
                    self.counters.record(OutcomeKind::Valid);
                    VerifyTaskStatus::Valid
                } else {
                    self.counters.record(OutcomeKind::Invalid);
                    VerifyTaskStatus::Invalid
                };
                Ok(
                    VerifyTaskResult {
                        status,
                        filename: filename.to_owned(),
                        actual: Some(actual),
                        expected: expected.duplicate(),
                    },
                )
            },
            FileProbe::Failed(cause) => {
                self.counters.record(OutcomeKind::Errored);
                Err(
                    VerifyTaskError {
                        filepath: filename.to_owned(),
                        message: "Failed to calculate checksum".to_owned(),
                        error: Some(cause),
                    },
                )
            },
        }
    }
}

} // verus!
