use vstd::prelude::*;

use crate::command::StageSpec;
use crate::command::StageSpecView;
use crate::errors::CompileError;

verus! {

/// What one stage's process came to: its exit code (`None` when it ended
/// without one) and the diagnostic bytes it wrote to standard error.
#[derive(Debug)]
pub struct StageOutcome {
    pub exit_code: Option<i32>,
    pub stderr: Vec<u8>,
}

/// A stage succeeded exactly when its process exited with code zero.
pub open spec fn stage_ok(o: StageOutcome) -> bool {
    o.exit_code == Some(0i32)
}

/// The verdict a finished pipeline run must reach, given each stage's outcome
/// and the bytes captured from the last stage: the captured bytes exactly when
/// every stage succeeded, otherwise `StageFailed` for the first stage that did
/// not, carrying that stage's exit code and standard-error bytes.
pub open spec fn verdict_matches(
    outcomes: Seq<StageOutcome>,
    captured: Seq<u8>,
    r: Result<Vec<u8>, CompileError>,
) -> bool {
    &&& (r is Ok <==> (forall|j: int| 0 <= j < outcomes.len() ==> stage_ok(outcomes[j])))
    &&& (r matches Ok(b) ==> b@ == captured)
    &&& (r matches Err(e) ==> {
        &&& e matches CompileError::StageFailed { stage, exit_code, stderr }
        &&& 0 <= stage < outcomes.len()
        &&& !stage_ok(outcomes[stage as int])
        &&& (forall|j: int| 0 <= j < stage as int ==> stage_ok(outcomes[j]))
        &&& exit_code == outcomes[stage as int].exit_code
        &&& stderr@ == outcomes[stage as int].stderr@
    })
}

fn copy_bytes(v: &Vec<u8>) -> (r: Vec<u8>)
    ensures
        r@ == v@,
{
    let mut r: Vec<u8> = Vec::new();
    let mut i: usize = 0;
    while i < v.len()
        invariant
            i <= v@.len(),
            r@ == v@.subrange(0, i as int),
        decreases v@.len() - i,
    {
        r.push(v[i]);
        proof {
            assert(r@ =~= v@.subrange(0, i as int + 1));
        }
        i = i + 1;
    }
    proof {
        assert(r@ =~= v@);
    }
    r
}

/// Judge a finished run: every stage's outcome plus the captured output bytes
/// of the last stage give either those bytes or the failure of the first
/// unsuccessful stage.
pub fn evaluate(outcomes: &Vec<StageOutcome>, captured: Vec<u8>) -> (r: Result<Vec<u8>, CompileError>)
    ensures
        verdict_matches(outcomes@, captured@, r),
{
    let n = outcomes.len();
    let mut i: usize = 0;
    while i < n
        invariant
            n == outcomes@.len(),
            i <= n,
            forall|j: int| 0 <= j < i ==> stage_ok(outcomes@[j]),
        decreases n - i,
    {
        let failed = match outcomes[i].exit_code {
            Some(c) => c != 0,
            None => true,
        };
        if failed {
            return Err(CompileError::StageFailed {
                stage: i,
                exit_code: outcomes[i].exit_code,
                stderr: copy_bytes(&outcomes[i].stderr),
            });
        }
        i = i + 1;
    }
    Ok(captured)
}

/// What the driver of a run must do next. The driver performs the step against
/// the operating system and reports what happened through the `PipelineRun`
/// event methods; it decides nothing itself.
#[derive(Debug)]
pub enum PipelineAction {
    /// Start the stage at this position, its standard input fed from the
    /// previous stage's standard output (none for the first stage), its
    /// standard output feeding the next stage (captured for the last one).
    SpawnStage { index: usize },
    /// Every stage is running: drain and capture the last stage's standard
    /// output while the stages run, then wait for all of them.
    Collect,
    /// The run is over; take the verdict with [`PipelineRun::finish`].
    Finished,
}

/// One pipeline run: an ordered chain of external programs, each stage's
/// standard output feeding the next stage's standard input, the last stage's
/// standard output captured. The run itself only decides; an unverified driver
/// performs each [`PipelineAction`] and reports the outcome back.
pub struct PipelineRun {
    stages: Vec<StageSpec>,
    spawned: usize,
    outcome: Option<Result<Vec<u8>, CompileError>>,
}

impl PipelineRun {
    /// The stages of the run, as given at construction.
    pub closed spec fn stages_view(&self) -> Seq<StageSpecView> {
        self.stages.deep_view()
    }

    pub closed spec fn num_stages(&self) -> int {
        self.stages@.len() as int
    }

    /// How many stages have been started, in order from the first.
    pub closed spec fn spawned_count(&self) -> int {
        self.spawned as int
    }

    /// The verdict, once one is known.
    pub closed spec fn outcome_view(&self) -> Option<Result<Vec<u8>, CompileError>> {
        self.outcome
    }

    pub closed spec fn wf(&self) -> bool {
        &&& 1 <= self.stages@.len()
        &&& self.spawned <= self.stages@.len()
    }

    pub fn new(stages: Vec<StageSpec>) -> (r: Self)
        requires
            1 <= stages@.len(),
        ensures
            r.wf(),
            r.stages_view() == stages.deep_view(),
            r.num_stages() == stages@.len(),
            r.spawned_count() == 0,
            r.outcome_view() is None,
    {
        PipelineRun { stages, spawned: 0, outcome: None }
    }

    pub fn stage_count(&self) -> (n: usize)
        ensures
            n == self.num_stages(),
    {
        self.stages.len()
    }

    /// The stage at a position, for the driver to start.
    pub fn stage_spec(&self, index: usize) -> (s: &StageSpec)
        requires
            index < self.num_stages(),
        ensures
            s@ == self.stages_view()[index as int],
    {
        &self.stages[index]
    }

    /// What to do next. A `Collect` is offered only once every stage has been
    /// started: the chain never waits on an earlier stage while a later one,
    /// which must drain the pipe between them, is still unstarted.
    pub fn next_action(&self) -> (a: PipelineAction)
        requires
            self.wf(),
        ensures
            match a {
                PipelineAction::SpawnStage { index } => {
                    &&& self.outcome_view() is None
                    &&& index == self.spawned_count()
                    &&& index < self.num_stages()
                },
                PipelineAction::Collect => {
                    &&& self.outcome_view() is None
                    &&& self.spawned_count() == self.num_stages()
                },
                PipelineAction::Finished => self.outcome_view() is Some,
            },
    {
        if self.outcome.is_some() {
            PipelineAction::Finished
        } else if self.spawned < self.stages.len() {
            PipelineAction::SpawnStage { index: self.spawned }
        } else {
            PipelineAction::Collect
        }
    }

    /// The driver started the next stage.
    pub fn stage_spawned(&mut self)
        requires
            old(self).wf(),
            old(self).outcome_view() is None,
            old(self).spawned_count() < old(self).num_stages(),
        ensures
            final(self).wf(),
            final(self).stages_view() == old(self).stages_view(),
            final(self).num_stages() == old(self).num_stages(),
            final(self).spawned_count() == old(self).spawned_count() + 1,
            final(self).outcome_view() is None,
    {
        let n = self.stages.len();
        assert(self.spawned < n);
        self.spawned = self.spawned + 1;
    }

    /// The driver could not start the next stage: the run's verdict is a
    /// `SpawnError` naming that stage and the driver's reason.
    pub fn stage_spawn_failed(&mut self, cause: String)
        requires
            old(self).wf(),
            old(self).outcome_view() is None,
            old(self).spawned_count() < old(self).num_stages(),
        ensures
            final(self).wf(),
            final(self).stages_view() == old(self).stages_view(),
            final(self).num_stages() == old(self).num_stages(),
            final(self).spawned_count() == old(self).spawned_count(),
            final(self).outcome_view() matches Some(r) && (r matches Err(e)
                && e matches CompileError::SpawnError { stage, cause: c }
                && stage == old(self).spawned_count() && c@ == cause@),
    {
        self.outcome = Some(
            Err(CompileError::SpawnError { stage: self.spawned, cause }),
        );
    }

    /// Waiting on the stages, or reading their streams, failed in the driver:
    /// the run's verdict is an `IoError` with the driver's reason.
    pub fn io_failed(&mut self, cause: String)
        requires
            old(self).wf(),
            old(self).outcome_view() is None,
        ensures
            final(self).wf(),
            final(self).stages_view() == old(self).stages_view(),
            final(self).num_stages() == old(self).num_stages(),
            final(self).spawned_count() == old(self).spawned_count(),
            final(self).outcome_view() matches Some(r) && (r matches Err(e)
                && e matches CompileError::IoError { cause: c } && c@ == cause@),
    {
        self.outcome = Some(Err(CompileError::IoError { cause }));
    }

    /// Every stage terminated, with these outcomes in stage order, and these
    /// bytes were captured in full from the last stage after its termination.
    /// The verdict is judged by [`evaluate`].
    pub fn collected(&mut self, outcomes: &Vec<StageOutcome>, captured: Vec<u8>)
        requires
            old(self).wf(),
            old(self).outcome_view() is None,
            old(self).spawned_count() == old(self).num_stages(),
            outcomes@.len() == old(self).num_stages(),
        ensures
            final(self).wf(),
            final(self).stages_view() == old(self).stages_view(),
            final(self).num_stages() == old(self).num_stages(),
            final(self).spawned_count() == old(self).spawned_count(),
            final(self).outcome_view() matches Some(r)
                && verdict_matches(outcomes@, captured@, r),
    {
        self.outcome = Some(evaluate(outcomes, captured));
    }

    /// Take the verdict of a finished run.
    pub fn finish(self) -> (r: Result<Vec<u8>, CompileError>)
        requires
            self.outcome_view() is Some,
        ensures
            self.outcome_view() == Some(r),
    {
        self.outcome.unwrap()
    }
}

/// Law: when the first stage of a run fails, the verdict is `StageFailed` for
/// that first stage — the later stages' outcomes, and whatever bytes the last
/// stage produced, are never passed off as a result.
pub proof fn lemma_first_stage_failure_reported(
    outcomes: Seq<StageOutcome>,
    captured: Seq<u8>,
    r: Result<Vec<u8>, CompileError>,
)
    requires
        1 <= outcomes.len(),
        !stage_ok(outcomes[0]),
        verdict_matches(outcomes, captured, r),
    ensures
        r matches Err(e) && (e matches CompileError::StageFailed { stage, exit_code, stderr }
            && stage == 0
            && exit_code == outcomes[0].exit_code
            && stderr@ == outcomes[0].stderr@),
{
    assert(!(forall|j: int| 0 <= j < outcomes.len() ==> stage_ok(outcomes[j])));
}

} // verus!
