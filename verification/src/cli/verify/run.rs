//! A verify run as a whole: the files of a manifest are handed out to a
//! bounded number of workers, and each is classified and counted exactly
//! once, in whatever order the workers come back.

use vstd::prelude::*;
use crate::checksum::ChecksumOptions;
use crate::cli::verify::task::{
    FileProbe, VerifyTaskBuilder, VerifyTaskCounters, VerifyTaskError, VerifyTaskResult, classify,
    reports,
};
use crate::manifest::Manifest;
use crate::manifest::model::ManifestView;
use crate::paths::{join_path, joined_path};
use crate::scheduler::{Dispatch, Scheduler};

verus! {

/// The number of marks that are set.
pub open spec fn count_set(marks: Seq<bool>) -> nat
    decreases marks.len(),
{
    if marks.len() == 0 {
        0
    } else {
        count_set(marks.drop_last()) + if marks.last() {
            1nat
        } else {
            0nat
        }
    }
}

/// No more marks are set than there are, and where as many are set as
/// there are, each one is.
pub proof fn lemma_count_set_bound(marks: Seq<bool>)
    ensures
        count_set(marks) <= marks.len(),
        count_set(marks) == marks.len() ==> forall|i: int| 0 <= i < marks.len() ==> marks[i],
    decreases marks.len(),
{
    if marks.len() > 0 {
        lemma_count_set_bound(marks.drop_last());
        if count_set(marks) == marks.len() {
            assert forall|i: int| 0 <= i < marks.len() implies marks[i] by {
                if i < marks.len() - 1 {
                    assert(marks.drop_last()[i] == marks[i]);
                }
            }
        }
    }
}

/// Marks that are clear from `from` on do not count.
pub proof fn lemma_count_set_prefix(marks: Seq<bool>, from: int)
    requires
        0 <= from <= marks.len(),
        forall|i: int| from <= i < marks.len() ==> !marks[i],
    ensures
        count_set(marks) == count_set(marks.take(from)),
    decreases marks.len(),
{
    if from == marks.len() {
        assert(marks.take(from) =~= marks);
    } else {
        let shorter = marks.drop_last();
        assert(shorter.take(from) =~= marks.take(from));
        lemma_count_set_prefix(shorter, from);
    }
}

/// Setting a mark that was clear makes one more mark set.
pub proof fn lemma_count_set_update(marks: Seq<bool>, index: int)
    requires
        0 <= index < marks.len(),
        !marks[index],
    ensures
        count_set(marks.update(index, true)) == count_set(marks) + 1,
    decreases marks.len(),
{
    let after = marks.update(index, true);
    if index == marks.len() - 1 {
        assert(after.drop_last() =~= marks.drop_last());
    } else {
        assert(after.drop_last() =~= marks.drop_last().update(index, true));
        lemma_count_set_update(marks.drop_last(), index);
    }
}

/// What the caller of a verify run does next.
#[derive(Debug)]
pub enum VerifyStep {
    /// Find out about the file with this number: whether a regular file is
    /// at the path that `request` gives, and if so, its checksum as
    /// `request` asks for it.
    Probe { index: usize, request: ChecksumOptions },
    /// Wait until a worker has found out about its file, and report it.
    Wait,
    /// Every file has been classified.
    Finished,
}

/// A verify run over the files of a manifest.
#[derive(Debug)]
pub struct VerifyRun {
    dirpath: String,
    manifest: Manifest,
    builder: VerifyTaskBuilder,
    scheduler: Scheduler,
    done: Vec<bool>,
}

impl VerifyRun {
    /// The directory of the run.
    pub closed spec fn dirpath(self) -> Seq<char> {
        self.dirpath@
    }

    /// The manifest of the run.
    pub closed spec fn manifest(self) -> ManifestView {
        self.manifest@
    }

    /// The counts of the run so far.
    pub closed spec fn counters(self) -> VerifyTaskCounters {
        self.builder.counters
    }

    /// The largest number of files that are looked at at a time.
    pub closed spec fn max_workers(self) -> nat {
        self.scheduler.max_workers()
    }

    /// The number of bytes that are read from a file at a time.
    pub closed spec fn chunk_size(self) -> usize {
        self.builder.chunk_size
    }

    /// The number of files that have been handed out; they are the files
    /// with the numbers below it.
    pub closed spec fn started(self) -> nat {
        self.scheduler.started()
    }

    /// The number of files that have been classified.
    pub closed spec fn completed(self) -> nat {
        self.scheduler.completed()
    }

    /// Whether the file with this number has been classified.
    pub closed spec fn is_done(self, index: int) -> bool {
        0 <= index < self.done@.len() && self.done@[index]
    }

    /// The number of files that are being looked at now.
    pub open spec fn in_flight(self) -> int {
        self.started() - self.completed()
    }

    /// What holds of a run at every moment: as many files are counted as
    /// are classified, only files that were handed out are classified,
    /// and no more files are out than there are workers.
    pub closed spec fn wf(self) -> bool {
        &&& self.scheduler.total() == self.manifest@.entries.len()
        &&& self.done@.len() == self.manifest@.entries.len()
        &&& self.builder.max_workers == self.scheduler.max_workers()
        &&& self.scheduler.completed() <= self.scheduler.started() <= self.scheduler.total()
        &&& self.scheduler.in_flight() <= self.scheduler.max_workers()
        &&& self.builder.counters.total() == self.scheduler.completed()
        &&& count_set(self.done@) == self.scheduler.completed()
        &&& forall|i: int| self.scheduler.started() <= i < self.done@.len() ==> !self.done@[i]
    }

    /// At every moment of a run, each classified file is counted in one of
    /// the four ways and no other file is, every classified file was handed
    /// out before, and no more files are out than there are workers.
    pub proof fn lemma_invariants(self)
        requires
            self.wf(),
        ensures
            self.counters().total() == self.completed(),
            self.completed() <= self.started() <= self.manifest().entries.len(),
            0 <= self.in_flight() <= self.max_workers(),
            forall|i: int| self.is_done(i) ==> 0 <= i < self.started(),
            self.completed() == self.manifest().entries.len() ==> forall|i: int|
                0 <= i < self.manifest().entries.len() ==> self.is_done(i),
    {
        lemma_count_set_bound(self.done@);
    }

    /// A run over the files of `manifest`, which lie in `dirpath`, with at
    /// most `max_workers` files looked at at a time, none handed out yet and
    /// none counted.
    pub fn new(dirpath: String, manifest: Manifest, max_workers: usize, chunk_size: usize) -> (run:
        Self)
        ensures
            run.wf(),
            run.dirpath() == dirpath@,
            run.manifest() == manifest@,
            run.max_workers() == max_workers,
            run.chunk_size() == chunk_size,
            run.started() == 0,
            run.completed() == 0,
            run.counters().counts() == (0int, 0int, 0int, 0int),
            forall|i: int| !run.is_done(i),
    {
        let builder = VerifyTaskBuilder::new(max_workers, chunk_size);
        let scheduler = builder.scheduler(manifest.len());
        let mut done: Vec<bool> = Vec::new();
        let mut i: usize = 0;
        while i < manifest.len()
            invariant
                i <= manifest@.entries.len(),
                done@.len() == i,
                forall|k: int| 0 <= k < i ==> !done@[k],
            decreases manifest@.entries.len() - i,
        {
            done.push(false);
            i += 1;
        }
        proof {
            lemma_count_set_prefix(done@, 0);
            assert(done@.take(0) =~= Seq::<bool>::empty());
        }
        VerifyRun { dirpath, manifest, builder, scheduler, done }
    }

    /// The manifest of the run.
    pub fn manifest_ref(&self) -> (m: &Manifest)
        ensures
            m@ == self.manifest(),
    {
        &self.manifest
    }

    /// The counts of the run so far.
    pub fn counts(&self) -> (c: VerifyTaskCounters)
        ensures
            c == self.counters(),
    {
        self.builder.counters
    }

    /// The number of files that are being looked at now.
    pub fn running(&self) -> (n: usize)
        ensures
            n == self.in_flight(),
            n <= self.max_workers(),
    {
        self.scheduler.running()
    }

    /// Decides what to do next: hand out the next file where one is left
    /// and a worker is free; else wait for a worker; or stop, where every
    /// file has been classified, each is counted, and the counts add up to
    /// the number of files of the manifest.
    pub fn step(&mut self) -> (next: VerifyStep)
        requires
            old(self).wf(),
        ensures
            final(self).wf(),
            final(self).dirpath() == old(self).dirpath(),
            final(self).manifest() == old(self).manifest(),
            final(self).counters() == old(self).counters(),
            final(self).max_workers() == old(self).max_workers(),
            final(self).chunk_size() == old(self).chunk_size(),
            final(self).completed() == old(self).completed(),
            forall|i: int| final(self).is_done(i) == old(self).is_done(i),
            final(self).in_flight() <= final(self).max_workers(),
            match next {
                VerifyStep::Probe { index, request } => {
                    &&& old(self).started() < old(self).manifest().entries.len()
                    &&& old(self).in_flight() < old(self).max_workers()
                    &&& index == old(self).started()
                    &&& final(self).started() == old(self).started() + 1
                    &&& request.filepath@ == joined_path(
                        old(self).dirpath(),
                        old(self).manifest().entries[index as int].path,
                    )
                    &&& request.algorithm == old(self).manifest().entries[index as int].checksum.algorithm
                    &&& request.mode == old(self).manifest().entries[index as int].checksum.mode
                    &&& request.chunk_size == Some(old(self).chunk_size())
                },
                VerifyStep::Wait => {
                    &&& old(self).completed() < old(self).manifest().entries.len()
                    &&& old(self).started() == old(self).manifest().entries.len() || old(
                        self,
                    ).in_flight() == old(self).max_workers()
                    &&& final(self).started() == old(self).started()
                    &&& old(self).max_workers() > 0 ==> old(self).in_flight() > 0
                },
                VerifyStep::Finished => {
                    &&& final(self).started() == old(self).started()
                    &&& old(self).completed() == old(self).manifest().entries.len()
                    &&& old(self).counters().total() == old(self).manifest().entries.len()
                    &&& forall|i: int|
                        0 <= i < old(self).manifest().entries.len() ==> old(self).is_done(i)
                },
            },
    {
        proof {
            lemma_count_set_bound(self.done@);
        }
        match self.scheduler.step() {
            Dispatch::Start(index) => {
                let artifact = self.manifest.artifact(index);
                let filepath = join_path(self.dirpath.as_str(), artifact.path.as_str());
                let request = self.builder.request(filepath, &artifact.checksum);
                VerifyStep::Probe { index, request }
            },
            Dispatch::Wait => VerifyStep::Wait,
            Dispatch::Finished => VerifyStep::Finished,
        }
    }

    /// Takes in what a worker found out about the file with the number
    /// `index`: the file is classified and counted, and its worker is free
    /// again. Returns how the file is reported; or `None`, and leaves the
    /// run as it was, where that file was never handed out or has been
    /// classified before.
    pub fn finished(&mut self, index: usize, probe: FileProbe) -> (outcome: Option<
        Result<VerifyTaskResult, VerifyTaskError>,
    >)
        requires
            old(self).wf(),
        ensures
            final(self).wf(),
            final(self).dirpath() == old(self).dirpath(),
            final(self).manifest() == old(self).manifest(),
            final(self).max_workers() == old(self).max_workers(),
            final(self).chunk_size() == old(self).chunk_size(),
            final(self).started() == old(self).started(),
            outcome is Some <==> index < old(self).started() && !old(self).is_done(index as int),
            match outcome {
                Some(reported) => {
                    &&& reports(
                        reported,
                        old(self).manifest().entries[index as int].path,
                        old(self).manifest().entries[index as int].checksum,
                        probe,
                    )
                    &&& final(self).counters().counts() == old(self).counters().bumped(
                        classify(old(self).manifest().entries[index as int].checksum, probe),
                    )
                    &&& final(self).completed() == old(self).completed() + 1
                    &&& forall|i: int| final(self).is_done(i) == (i == index || old(self).is_done(i))
                },
                None => {
                    &&& final(self).counters() == old(self).counters()
                    &&& final(self).completed() == old(self).completed()
                    &&& forall|i: int| final(self).is_done(i) == old(self).is_done(i)
                },
            },
    {
        if index >= self.scheduler.launched() || self.done[index] {
            return None;
        }
        proof {
            // A file that is out and not classified: fewer are classified than are out.
            let marks = self.done@;
            let from = self.scheduler.started() as int;
            lemma_count_set_prefix(marks, from);
            lemma_count_set_bound(marks.take(from));
            if count_set(marks.take(from)) == from {
                assert(marks.take(from)[index as int]);
            }
            lemma_count_set_update(marks, index as int);
        }
        let ghost before = self.done@;
        self.done.set(index, true);
        self.scheduler.complete();
        let artifact = self.manifest.artifact(index);
        let outcome = self.builder.verify_checksum(artifact.path.as_str(), &artifact.checksum, probe);
        proof {
            assert(self.done@ =~= before.update(index as int, true));
        }
        Some(outcome)
    }
}

} // verus!
