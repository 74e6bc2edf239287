//! A run over a set of files: which file may start, what a finished
//! command changes, and what the whole run comes to.

use crate::check::file_passes;
use crate::check::file_report;
use crate::check::CheckError;
use crate::check::Processor;
use crate::errors::Error;
use crate::errors::ErrorView;
use crate::arguments::Check;
use crate::arguments::CheckView;
use crate::pool::Pool;
use crate::repo::tasks_of;
use crate::repo::tasks_view;
use crate::repo::changed_paths;
use crate::repo::pathless_warnings;
use crate::repo::Changed;
use crate::repo::Repo;
use crate::world::framed;
use crate::world::WriterWorld;
use vstd::prelude::*;

verus! {

/// A file to check: its path and its content.
#[derive(Debug, Clone, PartialEq, Eq)]
pub struct FileTask {
    pub path: Vec<u8>,
    pub contents: Vec<u8>,
}

/// Where a file stands in a run. A file only ever moves forward: from
/// pending to running, and from there to passed or failed.
#[derive(Debug, Clone, Copy, PartialEq, Eq, Structural)]
pub enum Phase {
    /// Waiting for a slot.
    Pending,
    /// Holding a slot, with commands in flight.
    Running,
    /// Done, and every command passed.
    Passed,
    /// Done, and a command failed.
    Failed,
}

/// How many files are in the given phase.
pub open spec fn count_phase(phases: Seq<Phase>, phase: Phase) -> nat
    decreases phases.len(),
{
    if phases.len() == 0 {
        0
    } else {
        count_phase(phases.drop_last(), phase) + if phases.last() == phase {
            1nat
        } else {
            0nat
        }
    }
}

/// No more files are in a phase than there are files.
pub proof fn lemma_count_bounded(phases: Seq<Phase>, phase: Phase)
    ensures
        count_phase(phases, phase) <= phases.len(),
    decreases phases.len(),
{
    if phases.len() > 0 {
        lemma_count_bounded(phases.drop_last(), phase);
    }
}

/// Moving one file to another phase changes the count of a phase by that
/// file alone.
pub proof fn lemma_count_update(phases: Seq<Phase>, at: int, next: Phase, phase: Phase)
    requires
        0 <= at < phases.len(),
    ensures
        count_phase(phases.update(at, next), phase) + if phases[at] == phase {
            1nat
        } else {
            0nat
        } == count_phase(phases, phase) + if next == phase {
            1nat
        } else {
            0nat
        },
    decreases phases.len(),
{
    let moved = phases.update(at, next);
    if at == phases.len() - 1 {
        assert(moved.drop_last() == phases.drop_last());
    } else {
        assert(moved.drop_last() == phases.drop_last().update(at, next));
        lemma_count_update(phases.drop_last(), at, next, phase);
    }
}

/// A phase counts zero files exactly when no file is in it.
pub proof fn lemma_count_zero(phases: Seq<Phase>, phase: Phase)
    ensures
        count_phase(phases, phase) == 0 <==> forall|at: int|
            0 <= at < phases.len() ==> phases[at] != phase,
    decreases phases.len(),
{
    if phases.len() > 0 {
        let earlier = phases.drop_last();
        lemma_count_zero(earlier, phase);
        if count_phase(phases, phase) == 0 {
            assert forall|at: int| 0 <= at < phases.len() implies phases[at] != phase by {
                if at < earlier.len() {
                    assert(earlier[at] == phases[at]);
                }
            }
        }
        if forall|at: int| 0 <= at < phases.len() ==> phases[at] != phase {
            assert(forall|at: int| 0 <= at < earlier.len() ==> earlier[at] == phases[at]);
        }
    }
}

/// The phase of a running file once one more of its commands has
/// finished: it stays running until the last command is in.
pub open spec fn phase_after(outcomes: Seq<Result<(), CheckError>>, commands: nat) -> Phase {
    if outcomes.len() < commands {
        Phase::Running
    } else if file_passes(outcomes) {
        Phase::Passed
    } else {
        Phase::Failed
    }
}

/// What a run came to: the number of files that failed.
#[derive(Debug, Clone, Copy, PartialEq, Eq, Structural)]
pub struct RunResult {
    pub failures: usize,
}

impl RunResult {
    /// A run succeeded when no file failed.
    pub open spec fn succeeded(&self) -> bool {
        self.failures == 0
    }

    /// Whether no file failed.
    pub fn is_success(&self) -> (ok: bool)
        ensures
            ok == self.succeeded(),
    {
        self.failures == 0
    }

    /// The result as the caller of a run sees it: failed checks are an
    /// error of their own.
    pub fn into_result(self) -> (res: Result<(), Error>)
        ensures
            self.succeeded() ==> res == Ok::<(), Error>(()),
            !self.succeeded() ==> res == Err::<(), Error>(Error::ChecksFailed()),
    {
        if self.failures == 0 {
            Ok(())
        } else {
            Err(Error::ChecksFailed())
        }
    }
}

/// The state of a run: the files, the phase of each, the outcomes that
/// have come in for each, and the slots.
pub struct Run {
    pool: Pool,
    processor: Processor,
    files: Vec<FileTask>,
    phases: Vec<Phase>,
    outcomes: Vec<Vec<Result<(), CheckError>>>,
    cursor: usize,
    pending: usize,
    failures: usize,
}

impl Run {
    /// The files of the run, as given.
    pub closed spec fn files(&self) -> Seq<FileTask> {
        self.files@
    }

    /// The phase of each file.
    pub closed spec fn phases(&self) -> Seq<Phase> {
        self.phases@
    }

    /// For each file, the outcomes of the commands that have finished so
    /// far, in the order in which they finished.
    pub closed spec fn outcomes(&self) -> Seq<Seq<Result<(), CheckError>>> {
        Seq::new(self.outcomes@.len(), |at: int| self.outcomes@[at]@)
    }

    /// The number of files that may run at once.
    pub closed spec fn limit(&self) -> nat {
        self.pool.limit()
    }

    /// The commands and the placeholder of the run.
    pub closed spec fn processor(&self) -> Processor {
        self.processor
    }

    /// What holds of a run at all times.
    pub closed spec fn wf(&self) -> bool {
        &&& self.pool.wf()
        &&& self.processor.wf()
        &&& self.phases@.len() == self.files@.len()
        &&& self.outcomes@.len() == self.files@.len()
        &&& self.pool.active() == count_phase(self.phases@, Phase::Running)
        &&& self.failures == count_phase(self.phases@, Phase::Failed)
        &&& self.pending == count_phase(self.phases@, Phase::Pending)
        &&& self.cursor <= self.phases@.len()
        &&& forall|at: int| 0 <= at < self.cursor ==> self.phases@[at] != Phase::Pending
        &&& forall|at: int|
            0 <= at < self.phases@.len() ==> self.settled(at)
    }

    /// The phase of a file agrees with the outcomes that have come in
    /// for it.
    pub closed spec fn settled(&self, at: int) -> bool {
        let outcomes = self.outcomes@[at]@;
        let commands = self.processor.commands().len();
        match self.phases@[at] {
            Phase::Pending => outcomes.len() == 0,
            Phase::Running => outcomes.len() < commands,
            Phase::Passed => outcomes.len() == commands && file_passes(outcomes),
            Phase::Failed => outcomes.len() == commands && !file_passes(outcomes),
        }
    }

    /// Sets up a run: every file waits for a slot, and nothing has come in
    /// for any of them.
    pub fn new(limit: usize, processor: Processor, files: Vec<FileTask>) -> (run: Self)
        requires
            limit >= 1,
            processor.wf(),
        ensures
            run.wf(),
            run.limit() == limit,
            run.processor() == processor,
            run.files() == files@,
            run.phases() == Seq::new(files@.len(), |at: int| Phase::Pending),
            run.outcomes() == Seq::new(
                files@.len(),
                |at: int| Seq::<Result<(), CheckError>>::empty(),
            ),
    {
        let mut phases: Vec<Phase> = Vec::new();
        let mut outcomes: Vec<Vec<Result<(), CheckError>>> = Vec::new();
        let mut at: usize = 0;
        while at < files.len()
            invariant
                at <= files.len(),
                phases@.len() == at,
                outcomes@.len() == at,
                forall|k: int| 0 <= k < at ==> phases@[k] == Phase::Pending,
                forall|k: int| 0 <= k < at ==> (#[trigger] outcomes@[k])@.len() == 0,
                at == count_phase(phases@, Phase::Pending),
                count_phase(phases@, Phase::Failed) == 0,
                count_phase(phases@, Phase::Running) == 0,
            decreases files.len() - at,
        {
            let ghost earlier = phases@;
            phases.push(Phase::Pending);
            assert(phases@.drop_last() == earlier);
            outcomes.push(Vec::new());
            at += 1;
        }
        let run = Run {
            pool: Pool::new(limit),
            processor,
            files,
            phases,
            outcomes,
            cursor: 0,
            pending: at,
            failures: 0,
        };
        assert(run.phases() =~= Seq::new(files@.len(), |at: int| Phase::Pending));
        assert forall|k: int| 0 <= k < files@.len() implies #[trigger] run.outcomes()[k]
            == Seq::<Result<(), CheckError>>::empty() by {
            assert(run.outcomes@[k]@.len() == 0);
        }
        assert(run.outcomes() =~= Seq::new(
            files@.len(),
            |at: int| Seq::<Result<(), CheckError>>::empty(),
        ));
        run
    }

    /// The number of files in the run.
    pub fn file_count(&self) -> (count: usize)
        ensures
            count == self.files().len(),
    {
        self.files.len()
    }

    /// The file at `at`.
    pub fn file(&self, at: usize) -> (file: &FileTask)
        requires
            at < self.files().len(),
        ensures
            *file == self.files()[at as int],
    {
        &self.files[at]
    }

    /// The commands and the placeholder of the run.
    pub fn commands(&self) -> (processor: &Processor)
        ensures
            *processor == self.processor(),
    {
        &self.processor
    }

    /// The phase that a file enters when it is admitted: with no command
    /// to run it has passed already.
    pub open spec fn starting_phase(&self) -> Phase {
        if self.processor().commands().len() == 0 {
            Phase::Passed
        } else {
            Phase::Running
        }
    }

    /// Whether a file can be admitted now: one is pending, and a slot is
    /// free or none is needed.
    pub open spec fn can_start(&self) -> bool {
        count_phase(self.phases(), Phase::Pending) > 0 && (self.processor().commands().len() == 0
            || count_phase(self.phases(), Phase::Running) < self.limit())
    }

    /// Admits the first pending file where one can be admitted, and says
    /// which. Every command of an admitted file is to be started at once:
    /// the slots bound the files that run, not their commands.
    pub fn start_next(&mut self) -> (started: Option<usize>)
        requires
            old(self).wf(),
        ensures
            final(self).wf(),
            final(self).limit() == old(self).limit(),
            final(self).processor() == old(self).processor(),
            final(self).files() == old(self).files(),
            final(self).outcomes() == old(self).outcomes(),
            started.is_some() == old(self).can_start(),
            match started {
                Some(at) => {
                    &&& at < old(self).phases().len()
                    &&& old(self).phases()[at as int] == Phase::Pending
                    &&& forall|k: int| 0 <= k < at ==> old(self).phases()[k] != Phase::Pending
                    &&& final(self).phases() == old(self).phases().update(
                        at as int,
                        old(self).starting_phase(),
                    )
                },
                None => final(self).phases() == old(self).phases(),
            },
    {
        let commands = self.processor.command_count();
        if self.pending == 0 {
            return None;
        }
        if commands > 0 && self.pool.in_use() >= self.pool.capacity() {
            return None;
        }
        let mut cursor = self.cursor;
        while cursor < self.phases.len()
            invariant
                cursor <= self.phases@.len(),
                forall|k: int| 0 <= k < cursor ==> self.phases@[k] != Phase::Pending,
            ensures
                cursor <= self.phases@.len(),
                forall|k: int| 0 <= k < cursor ==> self.phases@[k] != Phase::Pending,
                cursor < self.phases@.len() ==> self.phases@[cursor as int] == Phase::Pending,
            decreases self.phases@.len() - cursor,
        {
            match self.phases[cursor] {
                Phase::Pending => {
                    break ;
                },
                _ => {},
            }
            cursor += 1;
        }
        proof {
            lemma_count_zero(self.phases@, Phase::Pending);
        }
        let count = self.phases.len();
        let ghost before = self.phases@;
        let ghost next = self.starting_phase();
        proof {
            lemma_count_update(before, cursor as int, next, Phase::Pending);
            lemma_count_update(before, cursor as int, next, Phase::Running);
            lemma_count_update(before, cursor as int, next, Phase::Failed);
        }
        if commands == 0 {
            self.phases[cursor] = Phase::Passed;
        } else {
            self.pool.try_acquire();
            self.phases[cursor] = Phase::Running;
        }
        self.pending = self.pending - 1;
        assert(cursor < count);
        self.cursor = cursor + 1;
        assert forall|at: int| 0 <= at < self.phases@.len() implies self.settled(at) by {
            assert(old(self).settled(at));
        }
        Some(cursor)
    }

    /// What one more finished command of a file adds to the diagnostic
    /// stream: the report on the file, once its last command is in.
    pub open spec fn report_after(&self, at: int, outcomes: Seq<Result<(), CheckError>>) -> Seq<u8> {
        if outcomes.len() < self.processor().commands().len() {
            Seq::empty()
        } else {
            file_report(self.files()[at].path@, outcomes)
        }
    }

    /// Takes in the outcome of one command of a running file. With the
    /// last command of the file in, the file is summed up: it passes or
    /// fails, a failed file is reported, and its slot is given back.
    pub fn check_finished(&mut self, at: usize, outcome: Result<(), CheckError>, world: &mut WriterWorld)
        requires
            old(self).wf(),
            at < old(self).phases().len(),
            old(self).phases()[at as int] == Phase::Running,
        ensures
            final(self).wf(),
            final(self).limit() == old(self).limit(),
            final(self).processor() == old(self).processor(),
            final(self).files() == old(self).files(),
            final(self).outcomes() == old(self).outcomes().update(
                at as int,
                old(self).outcomes()[at as int].push(outcome),
            ),
            final(self).phases() == old(self).phases().update(
                at as int,
                phase_after(
                    old(self).outcomes()[at as int].push(outcome),
                    old(self).processor().commands().len(),
                ),
            ),
            final(world).err() == old(world).err() + old(self).report_after(
                at as int,
                old(self).outcomes()[at as int].push(outcome),
            ),
            final(world).out() == old(world).out(),
    {
        let count = self.phases.len();
        let ghost before = self.phases@;
        let ghost gathered = self.outcomes@[at as int]@.push(outcome);
        let ghost next = phase_after(gathered, self.processor.commands().len());
        proof {
            assert(old(self).settled(at as int));
            lemma_count_zero(before, Phase::Running);
            lemma_count_update(before, at as int, next, Phase::Pending);
            lemma_count_update(before, at as int, next, Phase::Running);
            lemma_count_update(before, at as int, next, Phase::Failed);
            lemma_count_bounded(before.update(at as int, next), Phase::Failed);
        }
        self.outcomes[at].push(outcome);
        if self.outcomes[at].len() == self.processor.command_count() {
            let passed = self.processor.process(
                self.files[at].path.as_slice(),
                &self.outcomes[at],
                world,
            );
            self.pool.release();
            if passed {
                self.phases[at] = Phase::Passed;
            } else {
                self.phases[at] = Phase::Failed;
                assert(self.failures < count);
                self.failures = self.failures + 1;
            }
        }
        assert forall|k: int| 0 <= k < self.phases@.len() implies self.settled(k) by {
            assert(old(self).settled(k));
        }
        assert(self.outcomes() =~= old(self).outcomes().update(
            at as int,
            old(self).outcomes()[at as int].push(outcome),
        ));
    }

    /// A run is over when every file has passed or failed.
    pub open spec fn finished(&self) -> bool {
        forall|at: int|
            0 <= at < self.phases().len() ==> self.phases()[at] == Phase::Passed
                || self.phases()[at] == Phase::Failed
    }

    /// Whether every file has passed or failed.
    pub fn is_done(&self) -> (done: bool)
        requires
            self.wf(),
        ensures
            done == self.finished(),
    {
        proof {
            lemma_count_zero(self.phases@, Phase::Pending);
            lemma_count_zero(self.phases@, Phase::Running);
        }
        self.pending == 0 && self.pool.in_use() == 0
    }

    /// How many files are running now.
    pub fn running(&self) -> (count: usize)
        requires
            self.wf(),
        ensures
            count == count_phase(self.phases(), Phase::Running),
            count <= self.limit(),
    {
        self.pool.in_use()
    }

    /// How many files have failed so far: one for each failed file,
    /// however many of its commands failed.
    pub fn failures(&self) -> (count: usize)
        requires
            self.wf(),
        ensures
            count == count_phase(self.phases(), Phase::Failed),
    {
        self.failures
    }

    /// The phase of the file at `at`.
    pub fn phase(&self, at: usize) -> (phase: Phase)
        requires
            at < self.phases().len(),
        ensures
            phase == self.phases()[at as int],
    {
        self.phases[at]
    }

    /// What the run has come to so far.
    pub fn result(&self) -> (result: RunResult)
        requires
            self.wf(),
        ensures
            result.failures == count_phase(self.phases(), Phase::Failed),
    {
        RunResult { failures: self.failures }
    }
}

/// At no time do more files run than the pool has slots.
pub proof fn lemma_running_within_limit(run: Run)
    requires
        run.wf(),
    ensures
        count_phase(run.phases(), Phase::Running) <= run.limit(),
{
}

/// A file that fails adds exactly one to the number of failures, however
/// many of its commands failed, and takes one from the number of running
/// files.
pub proof fn lemma_failed_file_counts_once(
    phases: Seq<Phase>,
    at: int,
    outcomes: Seq<Result<(), CheckError>>,
    commands: nat,
)
    requires
        0 <= at < phases.len(),
        phases[at] == Phase::Running,
        outcomes.len() == commands,
        !file_passes(outcomes),
    ensures
        phase_after(outcomes, commands) == Phase::Failed,
        count_phase(phases.update(at, phase_after(outcomes, commands)), Phase::Failed)
            == count_phase(phases, Phase::Failed) + 1,
        count_phase(phases.update(at, phase_after(outcomes, commands)), Phase::Running)
            == count_phase(phases, Phase::Running) - 1,
{
    lemma_count_update(phases, at, Phase::Failed, Phase::Failed);
    lemma_count_update(phases, at, Phase::Failed, Phase::Running);
}

/// A file that passes leaves the number of failures as it was.
pub proof fn lemma_passed_file_counts_nothing(
    phases: Seq<Phase>,
    at: int,
    outcomes: Seq<Result<(), CheckError>>,
    commands: nat,
)
    requires
        0 <= at < phases.len(),
        phases[at] == Phase::Running,
        outcomes.len() == commands,
        file_passes(outcomes),
    ensures
        phase_after(outcomes, commands) == Phase::Passed,
        count_phase(phases.update(at, phase_after(outcomes, commands)), Phase::Failed)
            == count_phase(phases, Phase::Failed),
{
    lemma_count_update(phases, at, Phase::Passed, Phase::Failed);
}

/// The listing of the changed files: each path on a line of its own.
pub open spec fn listing(files: Seq<Changed>) -> Seq<u8>
    decreases files.len(),
{
    if files.len() == 0 {
        Seq::empty()
    } else {
        listing(files.drop_last()) + files.last().path@ + seq![10u8]
    }
}

/// Writes the listing of the changed files to the output stream.
pub fn list_files(files: &Vec<Changed>, world: &mut WriterWorld)
    ensures
        final(world).out() == old(world).out() + listing(files@),
        final(world).err() == old(world).err(),
{
    let newline: [u8; 1] = [10];
    let mut at: usize = 0;
    while at < files.len()
        invariant
            at <= files@.len(),
            newline@ == seq![10u8],
            world.out() == old(world).out() + listing(files@.take(at as int)),
            world.err() == old(world).err(),
        decreases files@.len() - at,
    {
        assert(files@.take(at + 1).drop_last() == files@.take(at as int));
        world.output(files[at].path.as_slice());
        world.output(newline.as_slice());
        at += 1;
    }
    assert(files@.take(at as int) == files@);
}

/// The exit status of the program for what a run came to: zero for
/// success, and the error's own status otherwise.
pub open spec fn exit_status(outcome: Result<(), Error>) -> i32 {
    match outcome {
        Ok(_) => 0,
        Err(error) => error.code(),
    }
}

/// What the end of a run adds to the diagnostic stream: nothing on
/// success, and the error's line otherwise.
pub open spec fn closing_line(outcome: Result<(), Error>) -> Seq<u8> {
    match outcome {
        Ok(_) => Seq::empty(),
        Err(error) => framed("\x1b[0;1;31m", error.message()),
    }
}

/// Ends a run: tells the user what went wrong, where anything did, and
/// gives the exit status of the program.
pub fn run(outcome: Result<(), Error>, world: &mut WriterWorld) -> (status: i32)
    ensures
        status == exit_status(outcome),
        final(world).err() == old(world).err() + closing_line(outcome),
        final(world).out() == old(world).out(),
{
    match outcome {
        Ok(_) => {
            0
        },
        Err(error) => {
            let text = error.describe();
            world.error(text.as_str());
            error.exit_code()
        },
    }
}

/// What setting up a check run comes to, before anything is started: the
/// configuration has to be one that can run, the repository has to have a
/// working directory, and the content of every changed file has to be
/// there. The first of these that fails is the error, and nothing runs.
pub open spec fn prepared(check: CheckView, repo: Repo) -> Result<
    Seq<(Seq<u8>, Seq<u8>)>,
    ErrorView,
> {
    match check.fault() {
        Some(fault) => Err(ErrorView::Config(fault)),
        None => if repo.workdir().is_none() {
            Err(ErrorView::bare_repository())
        } else {
            tasks_of(repo.objects(), changed_paths(repo.deltas()))
        },
    }
}

/// What setting up a check run adds to the diagnostic stream: the
/// warnings on the changed files, unless the configuration is refused
/// before they are looked at.
pub open spec fn preparing_warnings(check: CheckView, repo: Repo) -> Seq<u8> {
    if check.fault().is_some() {
        Seq::empty()
    } else {
        pathless_warnings(repo.deltas())
    }
}

/// Sets up a check run over the changed files of a repository. A
/// configuration that cannot be run is refused before anything else is
/// done. A repository without a working directory has nowhere to run the
/// commands, and a changed file whose content cannot be had cannot be
/// checked: either ends the run with the repository's error.
pub fn run_check(check: Check, repo: &Repo, world: &mut WriterWorld) -> (res: Result<Run, Error>)
    ensures
        final(world).out() == old(world).out(),
        final(world).err() == old(world).err() + preparing_warnings(check@, *repo),
        match res {
            Ok(run) => {
                &&& prepared(check@, *repo) == Ok::<Seq<(Seq<u8>, Seq<u8>)>, ErrorView>(
                    tasks_view(run.files()),
                )
                &&& run.wf()
                &&& run.limit() == check.max_processes
                &&& run.processor().placeholder() == check.placeholder@
                &&& run.processor().commands() == check.validate_commands@
                &&& run.phases() == Seq::new(run.files().len(), |at: int| Phase::Pending)
                &&& run.outcomes() == Seq::new(
                    run.files().len(),
                    |at: int| Seq::<Result<(), CheckError>>::empty(),
                )
            },
            Err(error) => prepared(check@, *repo) == Err::<Seq<(Seq<u8>, Seq<u8>)>, ErrorView>(
                error@,
            ),
        },
{
    assert(check.fault() == check@.fault());
    match check.validate() {
        Ok(_) => {},
        Err(fault) => {
            assert(world.err() + Seq::<u8>::empty() == world.err());
            return Err(Error::Config(fault));
        },
    }
    let changed = repo.fetch_changed_paths(world);
    match repo.root_dir() {
        Ok(_) => {},
        Err(error) => {
            return Err(error);
        },
    }
    let tasks = match repo.tasks(&changed) {
        Ok(tasks) => tasks,
        Err(error) => {
            return Err(error);
        },
    };
    let processor = Processor::new(check.placeholder, check.validate_commands);
    let run = Run::new(check.max_processes, processor, tasks);
    Ok(run)
}

impl Phase {
    /// How far along a file is: pending, then running, then done.
    pub open spec fn rank(self) -> nat {
        match self {
            Phase::Pending => 0,
            Phase::Running => 1,
            Phase::Passed => 2,
            Phase::Failed => 2,
        }
    }
}

/// A file never moves back: starting a pending file and taking in the
/// outcome of a command of a running file both leave the file at least as
/// far along as it was.
pub proof fn lemma_phases_move_forward(
    run: Run,
    outcomes: Seq<Result<(), CheckError>>,
    commands: nat,
)
    ensures
        run.starting_phase().rank() > Phase::Pending.rank(),
        phase_after(outcomes, commands).rank() >= Phase::Running.rank(),
{
}

} // verus!
