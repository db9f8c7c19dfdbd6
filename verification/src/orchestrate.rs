use vstd::prelude::*;

use crate::command::preview_stages;
use crate::command::preview_stages_view;
use crate::command::save_binary_stages;
use crate::command::save_binary_stages_view;
use crate::errors::CompileError;
use crate::pipeline::PipelineRun;
use crate::staging::StagedSource;
use crate::text::decode_text;
use vstd::utf8::decode_utf8;
use vstd::utf8::valid_utf8;

verus! {

/// One compile invocation in flight: the staged source file and the pipeline
/// run over it. The staged file lives exactly as long as the job, so it
/// outlives every stage's chance to read it and never survives the job,
/// whether the run succeeds or fails. Drive `run` to a verdict, then hand the
/// job to [`finish_preview`] or [`finish_save_binary`].
pub struct CompileJob {
    /// The staged source file; dropped with the job.
    pub staged: StagedSource,
    /// The decision state of the run; an unverified driver performs its
    /// actions and reports events back.
    pub run: PipelineRun,
}

impl CompileJob {
    /// The path of this job's staged source file.
    pub closed spec fn staged_path(&self) -> Seq<char> {
        self.staged.path_view()
    }

    /// The staged file's path, for a caller that wants to inspect it.
    pub fn staged_path_string(&self) -> (p: String)
        ensures
            p@ == self.staged_path(),
    {
        let p = self.staged.path();
        p.to_owned()
    }
}

/// First half of compiling for preview: stage the source to a temporary file
/// and set up the two-stage pipeline over it — compile to the compiler's
/// standard output, disassemble from standard input, capture the text. Fails
/// only with `IoError`, when staging fails; nothing is staged then.
pub fn begin_preview(source: &str) -> (r: Result<CompileJob, CompileError>)
    ensures
        r matches Err(e) ==> e matches CompileError::IoError { .. },
        r matches Ok(job) ==> {
            &&& job.run.wf()
            &&& job.run.spawned_count() == 0
            &&& job.run.outcome_view() is None
            &&& job.run.num_stages() == 2
            &&& job.run.stages_view() == preview_stages_view(job.staged_path())
        },
{
    let staged = match StagedSource::create(source) {
        Ok(s) => s,
        Err(e) => {
            return Err(e);
        },
    };
    let stages = preview_stages(staged.path());
    let run = PipelineRun::new(stages);
    Ok(CompileJob { staged, run })
}

/// First half of compiling to a file: stage the source and set up the
/// one-stage pipeline that writes the compiled binary straight to
/// `dest_path`. Fails only with `IoError`, when staging fails.
pub fn begin_save_binary(source: &str, dest_path: &str) -> (r: Result<CompileJob, CompileError>)
    ensures
        r matches Err(e) ==> e matches CompileError::IoError { .. },
        r matches Ok(job) ==> {
            &&& job.run.wf()
            &&& job.run.spawned_count() == 0
            &&& job.run.outcome_view() is None
            &&& job.run.num_stages() == 1
            &&& job.run.stages_view() == save_binary_stages_view(job.staged_path(), dest_path@)
        },
{
    let staged = match StagedSource::create(source) {
        Ok(s) => s,
        Err(e) => {
            return Err(e);
        },
    };
    let stages = save_binary_stages(staged.path(), dest_path);
    let run = PipelineRun::new(stages);
    Ok(CompileJob { staged, run })
}

/// Second half of compiling for preview: take the driven run's verdict and
/// decode the captured bytes into disassembly text. Consumes the job, which
/// releases the staged temporary file. A pipeline failure is passed through
/// unchanged; captured bytes that are not valid UTF-8 are an `EncodingError`.
pub fn finish_preview(job: CompileJob) -> (r: Result<String, CompileError>)
    requires
        job.run.outcome_view() is Some,
    ensures
        job.run.outcome_view() matches Some(v) ==> match v {
            Ok(bytes) => {
                &&& (r is Ok <==> valid_utf8(bytes@))
                &&& (r matches Ok(text) ==> text@ == decode_utf8(bytes@))
                &&& (r matches Err(e) ==> e is EncodingError)
            },
            Err(e) => r matches Err(e2) && e2 == e,
        },
{
    let CompileJob { staged: _staged, run } = job;
    match run.finish() {
        Ok(bytes) => decode_text(bytes),
        Err(e) => Err(e),
    }
}

/// Second half of compiling to a file: take the driven run's verdict. The
/// compiled binary went straight to its destination, so success carries
/// nothing; a pipeline failure is passed through unchanged. Consumes the job,
/// which releases the staged temporary file.
pub fn finish_save_binary(job: CompileJob) -> (r: Result<(), CompileError>)
    requires
        job.run.outcome_view() is Some,
    ensures
        job.run.outcome_view() matches Some(v) ==> match v {
            Ok(_) => r is Ok,
            Err(e) => r matches Err(e2) && e2 == e,
        },
{
    let CompileJob { staged: _staged, run } = job;
    match run.finish() {
        Ok(_) => Ok(()),
        Err(e) => Err(e),
    }
}

} // verus!
