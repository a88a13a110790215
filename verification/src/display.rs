//! What is shown to the user, as pieces of text with a style each. Turning
//! a style into terminal colours is left to the caller.

use vstd::prelude::*;
use crate::checksum::ChecksumError;
use crate::text::cat3;

verus! {

/// The number of milliseconds between two looks of the progress ticker at
/// the counts, and the pause before the display is ended.
pub const TICK_MILLIS: u64 = 10;

/// How a piece of text is to be shown.
#[derive(Clone, Copy, Debug, PartialEq, Eq, Structural)]
pub enum Style {
    Plain,
    Dimmed,
    Green,
    Red,
    BoldRed,
    Yellow,
    /// Red inside a dimmed passage.
    DimmedRed,
}

/// A piece of text and its style.
#[derive(Debug, PartialEq, Eq)]
pub struct Span {
    pub text: String,
    pub style: Style,
}

/// A piece of text and its style, as a mathematical value.
pub struct SpanView {
    pub text: Seq<char>,
    pub style: Style,
}

impl View for Span {
    type V = SpanView;

    open spec fn view(&self) -> SpanView {
        SpanView { text: self.text@, style: self.style }
    }
}

/// The pieces as mathematical values.
pub open spec fn line_view(spans: Seq<Span>) -> Seq<SpanView> {
    spans.map_values(|s: Span| s@)
}

/// A piece of text in a style.
pub open spec fn styled(text: Seq<char>, style: Style) -> SpanView {
    SpanView { text, style }
}

/// The line for a file whose checksum could not be computed: the file
/// dimmed, a colon, the message in red and, where the cause is known, the
/// cause in brackets, in red too.
pub open spec fn error_line(filepath: Seq<char>, message: Seq<char>, cause: Option<Seq<char>>)
    -> Seq<SpanView> {
    let head = seq![
        styled(filepath, Style::Dimmed),
        styled(": "@, Style::Plain),
        styled(message, Style::Red),
    ];
    match cause {
        Some(c) => head.push(styled(" ("@ + c + ")"@, Style::Red)),
        None => head,
    }
}

/// The text of the cause, where there is one.
pub open spec fn cause_text(error: Option<ChecksumError>) -> Option<Seq<char>> {
    match error {
        Some(e) => Some(e.spec_to_string()),
        None => None,
    }
}

/// Builds the line for a file whose checksum could not be computed.
pub fn render_error(filepath: &str, message: &str, error: &Option<ChecksumError>) -> (line: Vec<
    Span,
>)
    ensures
        line_view(line@) == error_line(filepath@, message@, cause_text(*error)),
{
    let mut line: Vec<Span> = Vec::new();
    line.push(Span { text: filepath.to_owned(), style: Style::Dimmed });
    line.push(Span { text: ": ".to_owned(), style: Style::Plain });
    line.push(Span { text: message.to_owned(), style: Style::Red });
    match error {
        Some(e) => {
            let cause = e.to_string();
            line.push(Span { text: cat3(" (", cause.as_str(), ")"), style: Style::Red });
        },
        None => {},
    }
    proof {
        assert(line_view(line@) =~= error_line(filepath@, message@, cause_text(*error)));
    }
    line
}

/// Something to be shown, as the consumer of the display channel gets it.
#[derive(Debug)]
pub enum Shown {
    /// A line of its own.
    Line(Vec<Span>),
    /// The progress of the run: shown without a line break, and wiped out
    /// by whatever is shown next.
    Progress(Vec<Span>),
    /// Nothing more will come.
    Exit,
}

/// What the consumer does with one message, in this order: wipe out the
/// progress that is on the screen, write the pieces, end the line, flush;
/// and then stop, or wait for the next message.
#[derive(Debug)]
pub struct DisplayStep {
    pub clear_progress: bool,
    pub spans: Vec<Span>,
    pub newline: bool,
    pub flush: bool,
    pub stop: bool,
}

/// The state of the single consumer of the display channel: whether the
/// last thing written was progress, which the next output has to wipe out.
#[derive(Debug)]
pub struct DisplayWorker {
    pub progress_visible: bool,
}

impl DisplayWorker {
    /// A consumer that has shown nothing yet.
    pub fn new() -> (worker: Self)
        ensures
            !worker.progress_visible,
    {
        DisplayWorker { progress_visible: false }
    }

    /// Handles one message. Progress that is on the screen is wiped out
    /// first, whatever the message. A line is written with a line break,
    /// progress without one, and both are flushed; after `Exit` nothing is
    /// written and the consumer stops.
    pub fn step(&mut self, shown: Shown) -> (step: DisplayStep)
        ensures
            step.clear_progress == old(self).progress_visible,
            final(self).progress_visible == (shown is Progress),
            step.stop == (shown is Exit),
            step.flush == !(shown is Exit),
            step.newline == (shown is Line),
            match shown {
                Shown::Line(spans) => step.spans == spans,
                Shown::Progress(spans) => step.spans == spans,
                Shown::Exit => step.spans@.len() == 0,
            },
    {
        let clear_progress = self.progress_visible;
        self.progress_visible = false;
        match shown {
            Shown::Line(spans) => DisplayStep {
                clear_progress,
                spans,
                newline: true,
                flush: true,
                stop: false,
            },
            Shown::Progress(spans) => {
                self.progress_visible = true;
                DisplayStep { clear_progress, spans, newline: false, flush: true, stop: false }
            },
            Shown::Exit => DisplayStep {
                clear_progress,
                spans: Vec::new(),
                newline: false,
                flush: false,
                stop: true,
            },
        }
    }
}

/// The state of the progress ticker: the number of finished files that the
/// last snapshot showed.
#[derive(Debug)]
pub struct ProgressTicker {
    pub last_progress: usize,
}

impl ProgressTicker {
    /// A ticker that has shown nothing yet.
    pub fn new() -> (ticker: Self)
        ensures
            ticker.last_progress == 0,
    {
        ProgressTicker { last_progress: 0 }
    }

    /// One tick: says whether a snapshot is due, which it is where the
    /// number of finished files is not the one last shown, or where `force`
    /// asks for one; and remembers the number.
    pub fn tick(&mut self, finished: usize, force: bool) -> (due: bool)
        ensures
            due == (force || finished != old(self).last_progress),
            final(self).last_progress == finished,
    {
        let due = force || finished != self.last_progress;
        self.last_progress = finished;
        due
    }
}

} // verus!
