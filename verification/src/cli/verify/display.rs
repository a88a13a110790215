//! What a verify run shows: which messages go to the display channel, and
//! what each looks like.

use vstd::prelude::*;
use crate::cli::verify::task::{VerifyTaskCounters, VerifyTaskError, VerifyTaskResult, VerifyTaskStatus};
use crate::display::{ProgressTicker, Shown, Span, SpanView, Style, line_view, styled};
use crate::manifest::format::ManifestFormat;
use crate::manifest::source::ManifestSource;
use crate::text::{cat2, cat3, decimal, decimal_spec};

verus! {

/// The counts of a verify run at one moment.
#[derive(Clone, Copy, Debug, PartialEq, Eq, Structural)]
pub struct VerifyProgress {
    pub counters: VerifyTaskCounters,
    /// The number of files that the manifest names.
    pub total: usize,
}

/// A message on the display channel of a verify run.
#[derive(Debug)]
pub enum DisplayMessage {
    /// The run has started on this manifest.
    Start(ManifestSource),
    /// A file was checked.
    Result(VerifyTaskResult),
    /// The checksum of a file could not be computed.
    Error(VerifyTaskError),
    /// The counts of the run so far.
    Progress(VerifyProgress),
    /// The run is over.
    Exit,
}

/// The line that opens a verify run.
pub open spec fn start_line(filepath: Seq<char>, format: ManifestFormat) -> Seq<SpanView> {
    seq![styled("Verifying "@ + filepath + " ("@ + format.spec_name() + ")"@, Style::Plain)]
}

/// The counts of a run as the user sees them: the valid files in green;
/// then, each only where it is not zero, the invalid ones in red, the
/// missing ones in yellow and the errors in red; and the number of files in
/// all, dimmed.
pub open spec fn progress_line(progress: VerifyProgress) -> Seq<SpanView> {
    let c = progress.counters;
    seq![styled(decimal_spec(c.valid as nat) + " valid"@, Style::Green)] + (if c.invalid > 0 {
        seq![styled(" "@ + decimal_spec(c.invalid as nat) + " invalid"@, Style::Red)]
    } else {
        Seq::empty()
    }) + (if c.missing > 0 {
        seq![styled(" "@ + decimal_spec(c.missing as nat) + " missing"@, Style::Yellow)]
    } else {
        Seq::empty()
    }) + (if c.errored > 0 {
        seq![styled(" "@ + decimal_spec(c.errored as nat) + " errors"@, Style::Red)]
    } else {
        Seq::empty()
    }) + seq![styled(" of "@ + decimal_spec(progress.total as nat), Style::Dimmed)]
}

impl VerifyProgress {
    /// The counts as the user sees them.
    pub fn render(&self) -> (line: Vec<Span>)
        ensures
            line_view(line@) == progress_line(*self),
    {
        let c = self.counters;
        let mut line: Vec<Span> = Vec::new();
        line.push(Span { text: cat2(decimal(c.valid).as_str(), " valid"), style: Style::Green });
        if c.invalid > 0 {
            line.push(
                Span { text: cat3(" ", decimal(c.invalid).as_str(), " invalid"), style: Style::Red },
            );
        }
        if c.missing > 0 {
            line.push(
                Span {
                    text: cat3(" ", decimal(c.missing).as_str(), " missing"),
                    style: Style::Yellow,
                },
            );
        }
        if c.errored > 0 {
            line.push(
                Span { text: cat3(" ", decimal(c.errored).as_str(), " errors"), style: Style::Red },
            );
        }
        line.push(Span { text: cat2(" of ", decimal(self.total).as_str()), style: Style::Dimmed });
        proof {
            assert(line_view(line@) =~= progress_line(*self));
        }
        line
    }
}

impl DisplayMessage {
    /// What the consumer of the channel shows for the message.
    pub fn shown(self) -> (shown: Shown)
        requires
            self matches DisplayMessage::Result(result) ==> (result.status
                == VerifyTaskStatus::Invalid ==> result.actual is Some),
        ensures
            match self {
                DisplayMessage::Start(source) => shown matches Shown::Line(line) && line_view(line@)
                    == start_line(source.filepath@, source.format),
                DisplayMessage::Result(result) => shown matches Shown::Line(line) && line_view(
                    line@,
                ) == crate::cli::verify::task::result_line(
                    result.status,
                    result.filename@,
                    result.actual_hex(),
                    result.expected@.hex(),
                ),
                DisplayMessage::Error(error) => shown matches Shown::Line(line) && line_view(line@)
                    == crate::display::error_line(
                    error.filepath@,
                    error.message@,
                    crate::display::cause_text(error.error),
                ),
                DisplayMessage::Progress(progress) => shown matches Shown::Progress(line)
                    && line_view(line@) == progress_line(progress),
                DisplayMessage::Exit => shown is Exit,
            },
    {
        match self {
            DisplayMessage::Start(source) => {
                let head = cat3("Verifying ", source.filepath.as_str(), " (");
                let text = cat3(head.as_str(), source.format.name(), ")");
                let mut line: Vec<Span> = Vec::new();
                line.push(Span { text, style: Style::Plain });
                proof {
                    assert(line_view(line@) =~= start_line(source.filepath@, source.format));
                }
                Shown::Line(line)
            },
            DisplayMessage::Result(result) => Shown::Line(result.render()),
            DisplayMessage::Error(error) => Shown::Line(error.render()),
            DisplayMessage::Progress(progress) => Shown::Progress(progress.render()),
            DisplayMessage::Exit => Shown::Exit,
        }
    }
}

/// What the run does when it ends the display.
#[derive(Debug)]
pub struct ExitPlan {
    /// The message to send first, if any.
    pub message: Option<DisplayMessage>,
    /// Whether a consumer runs and has to be stopped.
    pub stop_display: bool,
}

/// Decides what of a verify run reaches the display channel.
#[derive(Debug)]
pub struct DisplayManager {
    /// The number of messages that the channel holds.
    pub buffer_size: usize,
    /// The number of files that the manifest names.
    pub total: usize,
    /// How much the user wants to see.
    pub verbosity: u8,
    /// Whether nothing at all is shown.
    pub disabled: bool,
    /// Whether a consumer of the channel runs.
    pub display_running: bool,
    /// Whether a progress ticker runs.
    pub progress_running: bool,
    /// What the last snapshot showed.
    pub ticker: ProgressTicker,
}

impl DisplayManager {
    /// The manager of a run over `total` files. A consumer of the channel
    /// runs from the start unless the display is disabled.
    pub fn new(buffer_size: usize, total: usize, verbosity: u8, disabled: bool) -> (manager: Self)
        ensures
            manager.buffer_size == buffer_size,
            manager.total == total,
            manager.verbosity == verbosity,
            manager.disabled == disabled,
            manager.display_running == !disabled,
            !manager.progress_running,
            manager.ticker.last_progress == 0,
    {
        DisplayManager {
            buffer_size,
            total,
            verbosity,
            disabled,
            display_running: !disabled,
            progress_running: false,
            ticker: ProgressTicker::new(),
        }
    }

    /// Starts the progress ticker, unless the display is disabled; says
    /// whether a ticker is to be started.
    pub fn start_progress_worker(&mut self) -> (started: bool)
        ensures
            started == !old(self).disabled,
            final(self).progress_running == (old(self).progress_running || started),
            final(self).disabled == old(self).disabled,
            final(self).display_running == old(self).display_running,
            final(self).verbosity == old(self).verbosity,
            final(self).total == old(self).total,
            final(self).buffer_size == old(self).buffer_size,
            final(self).ticker == old(self).ticker,
    {
        if self.disabled {
            return false;
        }
        self.progress_running = true;
        true
    }

    /// Stops the progress ticker; says whether one ran and has to be stopped.
    pub fn stop_progress_worker(&mut self) -> (stopped: bool)
        ensures
            stopped == old(self).progress_running,
            !final(self).progress_running,
            final(self).disabled == old(self).disabled,
            final(self).display_running == old(self).display_running,
            final(self).verbosity == old(self).verbosity,
            final(self).total == old(self).total,
            final(self).buffer_size == old(self).buffer_size,
            final(self).ticker == old(self).ticker,
    {
        let stopped = self.progress_running;
        self.progress_running = false;
        stopped
    }

    /// The message that opens the run, unless the display is disabled.
    pub fn report_start(&self, source: ManifestSource) -> (message: Option<DisplayMessage>)
        ensures
            message == if self.disabled {
                None
            } else {
                Some(DisplayMessage::Start(source))
            },
    {
        if self.disabled {
            None
        } else {
            Some(DisplayMessage::Start(source))
        }
    }

    /// The message for a file that was checked. A valid file is shown only
    /// to a user who asked for more than the summary; an invalid or missing
    /// one always, unless the display is disabled.
    pub fn report_task_result(&self, result: VerifyTaskResult) -> (message: Option<DisplayMessage>)
        ensures
            message == if !self.disabled && (result.status != VerifyTaskStatus::Valid
                || self.verbosity >= 1) {
                Some(DisplayMessage::Result(result))
            } else {
                None
            },
    {
        if !self.disabled && (result.status != VerifyTaskStatus::Valid || self.verbosity >= 1) {
            Some(DisplayMessage::Result(result))
        } else {
            None
        }
    }

    /// The message for a file whose checksum could not be computed: shown
    /// always, unless the display is disabled.
    pub fn report_task_error(&self, error: VerifyTaskError) -> (message: Option<DisplayMessage>)
        ensures
            message == if self.disabled {
                None
            } else {
                Some(DisplayMessage::Error(error))
            },
    {
        if self.disabled {
            None
        } else {
            Some(DisplayMessage::Error(error))
        }
    }

    /// A snapshot of the counts, where one is due: where the number of
    /// counted files is not the one last shown, or where `force` asks for
    /// one; never where the display is disabled.
    pub fn report_progress(&mut self, counters: &VerifyTaskCounters, force: bool) -> (message:
        Option<DisplayMessage>)
        requires
            counters.total() <= usize::MAX,
        ensures
            message == if !old(self).disabled && (force || counters.total() != old(
                self,
            ).ticker.last_progress) {
                Some(
                    DisplayMessage::Progress(
                        VerifyProgress { counters: *counters, total: old(self).total },
                    ),
                )
            } else {
                None
            },
            final(self).ticker.last_progress == counters.total(),
            final(self).disabled == old(self).disabled,
            final(self).display_running == old(self).display_running,
            final(self).progress_running == old(self).progress_running,
            final(self).verbosity == old(self).verbosity,
            final(self).total == old(self).total,
            final(self).buffer_size == old(self).buffer_size,
    {
        let finished: usize = counters.valid + counters.invalid + counters.missing + counters.errored;
        let due = self.ticker.tick(finished, force);
        if !self.disabled && due {
            Some(DisplayMessage::Progress(VerifyProgress { counters: *counters, total: self.total }))
        } else {
            None
        }
    }

    /// Ends the display: the last message, unless the display is disabled,
    /// and whether a consumer has to be stopped.
    pub fn report_exit(&mut self) -> (plan: ExitPlan)
        ensures
            plan.message == if old(self).disabled {
                None
            } else {
                Some(DisplayMessage::Exit)
            },
            plan.stop_display == old(self).display_running,
            !final(self).display_running,
            final(self).disabled == old(self).disabled,
            final(self).progress_running == old(self).progress_running,
            final(self).verbosity == old(self).verbosity,
            final(self).total == old(self).total,
            final(self).buffer_size == old(self).buffer_size,
            final(self).ticker == old(self).ticker,
    {
        let stop_display = self.display_running;
        self.display_running = false;
        ExitPlan {
            message: if self.disabled {
                None
            } else {
                Some(DisplayMessage::Exit)
            },
            stop_display,
        }
    }
}

} // verus!
