//! A generate run as a whole: the files under a directory are handed out to
//! a bounded number of workers, and their checksums are recorded in the
//! manifest in the order of the files, whatever the order in which the
//! workers come back.

use vstd::prelude::*;
use crate::checksum::{Checksum, ChecksumAlgorithm, ChecksumError, ChecksumMode, ChecksumOptions};
use crate::cli::generate::{
    DisplayManager, DisplayMessage, ExitPlan, GenerateChecksumCounters, GenerateOutcome, absorb,
    collected, lemma_successes_bound, messages_for, successes, task_outcome,
};
use crate::cli::verify::run::{
    count_set, lemma_count_set_bound, lemma_count_set_prefix, lemma_count_set_update,
};
use crate::manifest::Manifest;
use crate::manifest::format::ManifestFormat;
use crate::manifest::model::ManifestView;
use crate::scheduler::{Dispatch, Scheduler};

verus! {

/// What the caller of a generate run does next.
#[derive(Debug)]
pub enum GenerateStep {
    /// Compute the checksum of the file with this number, as `request` asks.
    Compute { index: usize, request: ChecksumOptions },
    /// Wait until a worker has an answer, and report it.
    Wait,
    /// Every file has an answer, and every answer is in the manifest.
    Finished,
}

/// Whether `outcome` is the end of the task of the file at `filepath`,
/// given what the checksum provider answered.
pub open spec fn is_outcome_of(
    outcome: GenerateOutcome,
    filepath: Seq<char>,
    answer: Result<Checksum, ChecksumError>,
) -> bool {
    match answer {
        Ok(checksum) => outcome matches Ok(result) && result.filepath@ == filepath
            && result.checksum == checksum,
        Err(cause) => outcome matches Err(error) && error.filepath@ == filepath && error.message@
            == "Failed to calculate checksum"@ && error.error == Some(cause),
    }
}

/// The first `count` of the answers, which all exist.
pub open spec fn first_outcomes(answers: Seq<Option<GenerateOutcome>>, count: int) -> Seq<
    GenerateOutcome,
> {
    Seq::new(count as nat, |i: int| answers[i]->0)
}

/// Which files have an answer: those that are in the manifest already, and
/// those whose answer waits for its turn.
pub open spec fn answered(absorbed: int, slots: Seq<Option<GenerateOutcome>>) -> Seq<bool> {
    Seq::new(slots.len(), |i: int| i < absorbed || slots[i] is Some)
}

/// A generate run over the files of a directory.
pub struct GenerateRun {
    dirpath: String,
    files: Vec<String>,
    algorithm: ChecksumAlgorithm,
    mode: ChecksumMode,
    chunk_size: usize,
    scheduler: Scheduler,
    /// The answers that wait for their turn.
    slots: Vec<Option<GenerateOutcome>>,
    /// The number of files whose answers are in the manifest.
    absorbed: usize,
    manifest: Manifest,
    manager: DisplayManager,
    answers: Ghost<Seq<Option<GenerateOutcome>>>,
}

impl GenerateRun {
    /// The directory of the run.
    pub closed spec fn dirpath(self) -> Seq<char> {
        self.dirpath@
    }

    /// The files of the run, in order.
    pub closed spec fn files(self) -> Seq<String> {
        self.files@
    }

    /// The manifest as it is now.
    pub closed spec fn manifest(self) -> ManifestView {
        self.manifest@
    }

    /// The display manager of the run, with the counts so far.
    pub closed spec fn manager(self) -> DisplayManager {
        self.manager
    }

    /// The algorithm, the mode and the chunk size with which every file is hashed.
    pub closed spec fn hashing(self) -> (ChecksumAlgorithm, ChecksumMode, usize) {
        (self.algorithm, self.mode, self.chunk_size)
    }

    /// The largest number of files that are hashed at a time.
    pub closed spec fn max_workers(self) -> nat {
        self.scheduler.max_workers()
    }

    /// The number of files that have been handed out.
    pub closed spec fn started(self) -> nat {
        self.scheduler.started()
    }

    /// The number of files that have an answer.
    pub closed spec fn completed(self) -> nat {
        self.scheduler.completed()
    }

    /// The number of files whose answers are in the manifest: the files
    /// with the numbers below it.
    pub closed spec fn absorbed(self) -> nat {
        self.absorbed as nat
    }

    /// The end of the task of each file, where the file has an answer.
    pub closed spec fn answers(self) -> Seq<Option<GenerateOutcome>> {
        self.answers@
    }

    /// The number of files that are being hashed now.
    pub open spec fn in_flight(self) -> int {
        self.started() - self.completed()
    }

    /// What holds of a run at every moment.
    pub closed spec fn wf(self) -> bool {
        let n = self.files@.len();
        &&& self.scheduler.total() == n
        &&& self.slots@.len() == n
        &&& self.answers@.len() == n
        &&& self.scheduler.completed() <= self.scheduler.started() <= n
        &&& self.scheduler.in_flight() <= self.scheduler.max_workers()
        &&& self.absorbed <= self.scheduler.started()
        &&& count_set(answered(self.absorbed as int, self.slots@)) == self.scheduler.completed()
        &&& forall|i: int| 0 <= i < self.absorbed ==> (#[trigger] self.slots@[i]) is None
        &&& forall|i: int| 0 <= i < self.absorbed ==> (#[trigger] self.answers@[i]) is Some
        &&& forall|i: int| self.absorbed <= i < n ==> #[trigger] self.slots@[i] == self.answers@[i]
        &&& forall|i: int| self.scheduler.started() <= i < n ==> (#[trigger] self.slots@[i]) is None
        &&& self.absorbed < n ==> self.slots@[self.absorbed as int] is None
        &&& self.manifest@ == collected(
            self.dirpath@,
            first_outcomes(self.answers@, self.absorbed as int),
        )
        &&& self.manager.counters.success == successes(
            first_outcomes(self.answers@, self.absorbed as int),
        )
        &&& self.manager.counters.error == self.absorbed - successes(
            first_outcomes(self.answers@, self.absorbed as int),
        )
    }

    /// At every moment of a run, the manifest holds the answers of the
    /// first files, in the order of the files; each of them is counted as a
    /// success or as an error; and no more files are out than there are
    /// workers. Once every file has an answer, every answer is in the
    /// manifest.
    pub proof fn lemma_invariants(self)
        requires
            self.wf(),
        ensures
            self.answers().len() == self.files().len(),
            self.absorbed() <= self.started() <= self.files().len(),
            self.completed() <= self.started(),
            0 <= self.in_flight() <= self.max_workers(),
            forall|i: int| 0 <= i < self.absorbed() ==> (#[trigger] self.answers()[i]) is Some,
            self.manifest() == collected(
                self.dirpath(),
                first_outcomes(self.answers(), self.absorbed() as int),
            ),
            self.manager().counters.success + self.manager().counters.error == self.absorbed(),
            self.manager().counters.success == successes(
                first_outcomes(self.answers(), self.absorbed() as int),
            ),
            self.completed() == self.files().len() ==> self.absorbed() == self.files().len(),
    {
        let marks = answered(self.absorbed as int, self.slots@);
        lemma_count_set_bound(marks);
        lemma_successes_bound(first_outcomes(self.answers@, self.absorbed as int));
        if self.scheduler.completed() == self.files@.len() && self.absorbed < self.files@.len() {
            assert(marks[self.absorbed as int]);
        }
    }

    /// A run over `files`, which lie under `dirpath`, with at most
    /// `max_workers` of them hashed at a time; none is handed out yet, and
    /// the manifest is empty.
    pub fn new(
        dirpath: String,
        files: Vec<String>,
        algorithm: ChecksumAlgorithm,
        mode: ChecksumMode,
        chunk_size: usize,
        max_workers: usize,
        manager: DisplayManager,
    ) -> (run: Self)
        requires
            manager.counters == (GenerateChecksumCounters { success: 0, error: 0 }),
        ensures
            run.wf(),
            run.dirpath() == dirpath@,
            run.files() == files@,
            run.max_workers() == max_workers,
            run.hashing() == (algorithm, mode, chunk_size),
            run.manager() == manager,
            run.started() == 0,
            run.completed() == 0,
            run.absorbed() == 0,
            run.manifest() == ManifestView::empty(),
            run.answers() == Seq::new(files@.len(), |i: int| None::<GenerateOutcome>),
    {
        let scheduler = Scheduler::new(max_workers, files.len());
        let mut slots: Vec<Option<GenerateOutcome>> = Vec::new();
        let mut i: usize = 0;
        while i < files.len()
            invariant
                i <= files@.len(),
                slots@.len() == i,
                forall|k: int| 0 <= k < i ==> (#[trigger] slots@[k]) is None,
            decreases files@.len() - i,
        {
            slots.push(None);
            i += 1;
        }
        let ghost answers = Seq::new(files@.len(), |i: int| None::<GenerateOutcome>);
        proof {
            let marks = answered(0, slots@);
            lemma_count_set_prefix(marks, 0);
            assert(marks.take(0) =~= Seq::<bool>::empty());
            assert(first_outcomes(answers, 0) =~= Seq::<GenerateOutcome>::empty());
        }
        GenerateRun {
            dirpath,
            files,
            algorithm,
            mode,
            chunk_size,
            scheduler,
            slots,
            absorbed: 0,
            manifest: Manifest::new(),
            manager,
            answers: Ghost(answers),
        }
    }

    /// The manifest as it is now.
    pub fn manifest_ref(&self) -> (m: &Manifest)
        ensures
            m@ == self.manifest(),
    {
        &self.manifest
    }

    /// The counts of the run so far.
    pub fn counts(&self) -> (c: GenerateChecksumCounters)
        ensures
            c == self.manager().counters,
    {
        self.manager.counters
    }

    /// The number of files that are being hashed now.
    pub fn running(&self) -> (n: usize)
        ensures
            n == self.in_flight(),
            n <= self.max_workers(),
    {
        self.scheduler.running()
    }

    /// The message that opens the run, unless the display is disabled.
    pub fn report_start(&self, format: ManifestFormat, filepath: String) -> (message: Option<
        DisplayMessage,
    >)
        ensures
            message == if self.manager().disabled {
                None
            } else {
                Some(DisplayMessage::Start { format, filepath })
            },
    {
        self.manager.report_start(format, filepath)
    }

    /// Starts the progress ticker, unless the display is disabled; says
    /// whether a ticker is to be started.
    pub fn start_progress_worker(&mut self) -> (started: bool)
        requires
            old(self).wf(),
        ensures
            final(self).wf(),
            started == !old(self).manager().disabled,
            final(self).manager().progress_running == (old(self).manager().progress_running
                || started),
            final(self).manager().counters == old(self).manager().counters,
            final(self).manifest() == old(self).manifest(),
            final(self).answers() == old(self).answers(),
            final(self).absorbed() == old(self).absorbed(),
            final(self).started() == old(self).started(),
            final(self).completed() == old(self).completed(),
            final(self).files() == old(self).files(),
            final(self).dirpath() == old(self).dirpath(),
            final(self).max_workers() == old(self).max_workers(),
            final(self).hashing() == old(self).hashing(),
    {
        self.manager.start_progress_worker()
    }

    /// Stops the progress ticker; says whether one ran and has to be stopped.
    pub fn stop_progress_worker(&mut self) -> (stopped: bool)
        requires
            old(self).wf(),
        ensures
            final(self).wf(),
            stopped == old(self).manager().progress_running,
            !final(self).manager().progress_running,
            final(self).manager().counters == old(self).manager().counters,
            final(self).manifest() == old(self).manifest(),
            final(self).answers() == old(self).answers(),
            final(self).absorbed() == old(self).absorbed(),
            final(self).started() == old(self).started(),
            final(self).completed() == old(self).completed(),
            final(self).files() == old(self).files(),
            final(self).dirpath() == old(self).dirpath(),
            final(self).max_workers() == old(self).max_workers(),
            final(self).hashing() == old(self).hashing(),
    {
        self.manager.stop_progress_worker()
    }

    /// Ends the display: the last message, unless the display is disabled,
    /// and whether a consumer has to be stopped.
    pub fn report_exit(&mut self) -> (plan: ExitPlan)
        requires
            old(self).wf(),
        ensures
            final(self).wf(),
            plan.message == if old(self).manager().disabled {
                None
            } else {
                Some(DisplayMessage::Exit)
            },
            plan.stop_display == old(self).manager().display_running,
            !final(self).manager().display_running,
            final(self).manager().counters == old(self).manager().counters,
            final(self).manifest() == old(self).manifest(),
            final(self).answers() == old(self).answers(),
            final(self).absorbed() == old(self).absorbed(),
            final(self).started() == old(self).started(),
            final(self).completed() == old(self).completed(),
            final(self).files() == old(self).files(),
            final(self).dirpath() == old(self).dirpath(),
            final(self).max_workers() == old(self).max_workers(),
            final(self).hashing() == old(self).hashing(),
    {
        self.manager.report_exit()
    }

    /// Decides what to do next: hand out the next file where one is left
    /// and a worker is free; else wait for a worker; or stop, where every
    /// file has an answer and every answer is in the manifest.
    pub fn step(&mut self) -> (next: GenerateStep)
        requires
            old(self).wf(),
        ensures
            final(self).wf(),
            final(self).dirpath() == old(self).dirpath(),
            final(self).files() == old(self).files(),
            final(self).manifest() == old(self).manifest(),
            final(self).manager() == old(self).manager(),
            final(self).max_workers() == old(self).max_workers(),
            final(self).hashing() == old(self).hashing(),
            final(self).completed() == old(self).completed(),
            final(self).absorbed() == old(self).absorbed(),
            final(self).answers() == old(self).answers(),
            final(self).in_flight() <= final(self).max_workers(),
            match next {
                GenerateStep::Compute { index, request } => {
                    &&& old(self).started() < old(self).files().len()
                    &&& old(self).in_flight() < old(self).max_workers()
                    &&& index == old(self).started()
                    &&& final(self).started() == old(self).started() + 1
                    &&& request.filepath@ == old(self).files()[index as int]@
                    &&& (request.algorithm, request.mode, request.chunk_size) == (
                        old(self).hashing().0,
                        old(self).hashing().1,
                        Some(old(self).hashing().2),
                    )
                    &&& old(self).answers()[index as int] is None
                },
                GenerateStep::Wait => {
                    &&& old(self).completed() < old(self).files().len()
                    &&& old(self).started() == old(self).files().len() || old(self).in_flight()
                        == old(self).max_workers()
                    &&& final(self).started() == old(self).started()
                    &&& old(self).max_workers() > 0 ==> old(self).in_flight() > 0
                },
                GenerateStep::Finished => {
                    &&& final(self).started() == old(self).started()
                    &&& old(self).completed() == old(self).files().len()
                    &&& old(self).absorbed() == old(self).files().len()
                    &&& old(self).manifest() == collected(
                        old(self).dirpath(),
                        first_outcomes(old(self).answers(), old(self).files().len() as int),
                    )
                },
            },
    {
        proof {
            self.lemma_invariants();
        }
        match self.scheduler.step() {
            Dispatch::Start(index) => {
                proof {
                    assert(self.slots@[index as int] is None);
                    assert(self.slots@[index as int] == self.answers@[index as int]);
                }
                let request = ChecksumOptions {
                    filepath: self.files[index].clone(),
                    algorithm: self.algorithm,
                    mode: self.mode,
                    chunk_size: Some(self.chunk_size),
                };
                GenerateStep::Compute { index, request }
            },
            Dispatch::Wait => GenerateStep::Wait,
            Dispatch::Finished => GenerateStep::Finished,
        }
    }

    /// Takes in the answer of the checksum provider for the file with the
    /// number `index`; its worker is free again. Then every answer whose
    /// turn has come goes into the manifest, in the order of the files:
    /// a checksum is recorded under the file's path relative to the
    /// directory of the run and counted as a success, a failure is counted
    /// as an error. Returns the messages for the display channel, in order;
    /// or `None`, and leaves the run as it was, where that file was never
    /// handed out or has an answer already.
    pub fn finished(&mut self, index: usize, answer: Result<Checksum, ChecksumError>) -> (messages:
        Option<Vec<DisplayMessage>>)
        requires
            old(self).wf(),
        ensures
            final(self).wf(),
            final(self).dirpath() == old(self).dirpath(),
            final(self).files() == old(self).files(),
            final(self).max_workers() == old(self).max_workers(),
            final(self).hashing() == old(self).hashing(),
            final(self).started() == old(self).started(),
            final(self).manager().same_settings(old(self).manager()),
            messages is Some <==> index < old(self).started() && old(self).answers()[index as int]
                is None,
            match messages {
                Some(sent) => {
                    &&& final(self).completed() == old(self).completed() + 1
                    &&& final(self).answers().len() == old(self).answers().len()
                    &&& final(self).answers()[index as int] matches Some(outcome)
                    &&& is_outcome_of(outcome, old(self).files()[index as int]@, answer)
                    &&& forall|i: int|
                        0 <= i < old(self).answers().len() && i != index ==> final(self).answers()[i]
                            == old(self).answers()[i]
                    &&& old(self).absorbed() <= final(self).absorbed()
                    &&& sent@ == messages_for(
                        old(self).manager().verbosity,
                        old(self).manager().disabled,
                        first_outcomes(final(self).answers(), final(self).absorbed() as int).skip(
                            old(self).absorbed() as int,
                        ),
                    )
                },
                None => *final(self) == *old(self),
            },
    {
        proof {
            self.lemma_invariants();
        }
        if index >= self.scheduler.launched() || index < self.absorbed || self.slots[index].is_some() {
            return None;
        }
        let ghost n = self.files@.len() as int;
        let ghost old_marks = answered(self.absorbed as int, self.slots@);
        proof {
            // A file that is out and has no answer: fewer have one than are out.
            let from = self.scheduler.started() as int;
            lemma_count_set_prefix(old_marks, from);
            lemma_count_set_bound(old_marks.take(from));
            if count_set(old_marks.take(from)) == from {
                assert(old_marks.take(from)[index as int]);
            }
            lemma_count_set_update(old_marks, index as int);
        }
        let outcome = task_outcome(self.files[index].clone(), answer);
        let ghost first = first_outcomes(self.answers@, self.absorbed as int);
        proof {
            self.answers@ = self.answers@.update(index as int, Some(outcome));
            assert(first_outcomes(self.answers@, self.absorbed as int) =~= first);
        }
        self.slots.set(index, Some(outcome));
        self.scheduler.complete();
        proof {
            assert(answered(self.absorbed as int, self.slots@) =~= old_marks.update(
                index as int,
                true,
            ));
        }
        let ghost answers = self.answers@;
        let ghost start = self.absorbed as int;
        let ghost verbosity = self.manager.verbosity;
        let ghost disabled = self.manager.disabled;
        let mut sent: Vec<DisplayMessage> = Vec::new();
        proof {
            assert(first_outcomes(answers, start).skip(start) =~= Seq::<GenerateOutcome>::empty());
        }
        while self.absorbed < self.slots.len() && self.slots[self.absorbed].is_some()
            invariant
                n == self.files@.len(),
                self.files@ == old(self).files@,
                self.dirpath@ == old(self).dirpath@,
                self.answers@ == answers,
                answers.len() == n,
                self.slots@.len() == n,
                self.scheduler.total() == n,
                self.scheduler.started() == old(self).scheduler.started(),
                self.scheduler.completed() == old(self).scheduler.completed() + 1,
                self.scheduler.max_workers() == old(self).scheduler.max_workers(),
                self.scheduler.completed() <= self.scheduler.started() <= n,
                self.scheduler.in_flight() <= self.scheduler.max_workers(),
                (self.algorithm, self.mode, self.chunk_size) == old(self).hashing(),
                0 <= start <= self.absorbed <= self.scheduler.started(),
                count_set(answered(self.absorbed as int, self.slots@)) == self.scheduler.completed(),
                forall|i: int| 0 <= i < self.absorbed ==> (#[trigger] self.slots@[i]) is None,
                forall|i: int| 0 <= i < self.absorbed ==> (#[trigger] answers[i]) is Some,
                forall|i: int| self.absorbed <= i < n ==> #[trigger] self.slots@[i] == answers[i],
                forall|i: int|
                    self.scheduler.started() <= i < n ==> (#[trigger] self.slots@[i]) is None,
                self.manifest@ == collected(
                    self.dirpath@,
                    first_outcomes(answers, self.absorbed as int),
                ),
                self.manager.counters.success == successes(
                    first_outcomes(answers, self.absorbed as int),
                ),
                self.manager.counters.error == self.absorbed - successes(
                    first_outcomes(answers, self.absorbed as int),
                ),
                self.manager.same_settings(old(self).manager),
                verbosity == old(self).manager.verbosity,
                disabled == old(self).manager.disabled,
                sent@ == messages_for(
                    verbosity,
                    disabled,
                    first_outcomes(answers, self.absorbed as int).skip(start),
                ),
            decreases n - self.absorbed,
        {
            let at: usize = self.absorbed;
            let ghost marks = answered(at as int, self.slots@);
            let mut taken: Option<GenerateOutcome> = None;
            core::mem::swap(&mut self.slots[at], &mut taken);
            let outcome = taken.unwrap();
            proof {
                let upto = first_outcomes(answers, at as int);
                let more = first_outcomes(answers, at + 1);
                assert(more.drop_last() =~= upto);
                assert(more.last() == outcome);
                assert(more.skip(start).drop_last() =~= upto.skip(start));
                assert(more.skip(start).last() == outcome);
                lemma_successes_bound(upto);
                assert(answered(at + 1, self.slots@) =~= marks);
            }
            match absorb(self.dirpath.as_str(), outcome, &mut self.manifest, &mut self.manager) {
                Some(message) => {
                    sent.push(message);
                },
                None => {},
            }
            self.absorbed = at + 1;
        }
        Some(sent)
    }
}

} // verus!
