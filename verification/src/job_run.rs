//! A job in the hands of the executor, from the claim to its last status.
//!
//! The contents of the job are read as those of its kind; the refs of its
//! build are loaded; its pipeline is carried out step by step; the state
//! of the build is written; and the job gets its last status and its
//! results. What cannot go on breaks the job: a kind that is not known,
//! contents that cannot be read and a build without refs do so before
//! anything has run, and then the state of the build is left alone.

use vstd::pervasive::unreached;
use vstd::prelude::*;
use vstd::string::*;
use crate::commit::commit_start;
use crate::config::ConfigView;
use crate::errors::{JobError, JobResult};
use crate::executor::{
    accepted,
    check_refs,
    checked_refs,
    job_outcome,
    job_request,
    result_after_update,
    result_view,
    unknown_kind,
    JobExecutor,
    JobRequest,
};
use crate::models::{
    refs_view,
    BuildRef,
    BuildRefView,
    JobContentsView,
    JobKind,
    JobResults,
    JobResultsView,
    JobStatus,
};
use crate::pipeline::{Outcome, OutcomeView, Pipeline, PipelineView, Step};
use crate::publish::publish_start;

verus! {

/// Where a job stands.
pub enum JobRunView {
    /// The contents of the job are to be read.
    Decoding { job_id: i32, kind: i16 },
    /// The refs of the build are to be loaded.
    Loading { job_id: i32, request: JobContentsView },
    /// The current step of the pipeline is to be carried out.
    Running { job_id: i32, request: JobContentsView, pipeline: PipelineView },
    /// The state of the build is to be written.
    Updating { job_id: i32, request: JobContentsView, result: Result<JobResultsView, Seq<char>> },
    /// The job is to be given its last status and its results.
    Finishing { job_id: i32, status: JobStatus, results: JobResultsView },
}

/// A job that broke with `message`.
pub open spec fn broken(job_id: i32, message: Seq<char>) -> JobRunView {
    JobRunView::Finishing {
        job_id,
        status: JobStatus::Broken,
        results: JobResultsView::Message(message),
    }
}

/// A job whose work gave `result`: ended with what it reports, or broken
/// with the message of its error.
pub open spec fn finishing(job_id: i32, result: Result<JobResultsView, Seq<char>>) -> JobRunView {
    match result {
        Ok(results) => JobRunView::Finishing { job_id, status: JobStatus::Ended, results },
        Err(message) => broken(job_id, message),
    }
}

/// A job with its pipeline: the next step is due while there is one, and
/// then the state of the build.
pub open spec fn entered(job_id: i32, request: JobContentsView, pipeline: PipelineView) -> JobRunView {
    match pipeline.result() {
        Some(result) => JobRunView::Updating { job_id, request, result },
        None => JobRunView::Running { job_id, request, pipeline },
    }
}

impl JobRunView {
    /// The job after its contents were read; `decoded` is what they were
    /// read as, or `None` where they could not be read.
    pub open spec fn decoded(self, decoded: Option<JobContentsView>) -> JobRunView {
        match self {
            JobRunView::Decoding { job_id, kind } => match accepted(kind, decoded) {
                Ok(request) => JobRunView::Loading { job_id, request },
                Err(message) => broken(job_id, message),
            },
            _ => self,
        }
    }

    /// The job after the refs of its build were loaded; `loaded` is `None`
    /// where they could not be. The commit pipeline is planned from the
    /// working directory; where that is not known, `current_dir` holds
    /// what the system said, and the commit has failed.
    pub open spec fn refs_loaded(
        self,
        config: ConfigView,
        loaded: Option<Seq<BuildRefView>>,
        current_dir: Result<Seq<char>, Seq<char>>,
    ) -> JobRunView {
        match self {
            JobRunView::Loading { job_id, request } => match checked_refs(loaded) {
                Err(message) => broken(job_id, message),
                Ok(refs) => match request {
                    JobContentsView::Commit { build, endoflife } => match current_dir {
                        Ok(dir) => entered(
                            job_id,
                            request,
                            commit_start(config, dir, build as int, endoflife, refs),
                        ),
                        Err(error) => JobRunView::Updating { job_id, request, result: Err(error) },
                    },
                    JobContentsView::Publish { build } => entered(
                        job_id,
                        request,
                        publish_start(config, build as int),
                    ),
                },
            },
            _ => self,
        }
    }

    /// The job after the current step of its pipeline was carried out.
    pub open spec fn step_done(self, outcome: OutcomeView) -> JobRunView {
        match self {
            JobRunView::Running { job_id, request, pipeline } => entered(
                job_id,
                request,
                pipeline.advanced(outcome),
            ),
            _ => self,
        }
    }

    /// The job after the state of its build was to be written. `update`
    /// says whether it was, or what the store said where it failed. A build
    /// that was not in work any more leaves the result of the pipeline as
    /// it is; a failure of the store becomes the error of the job.
    pub open spec fn build_updated(self, update: Result<bool, Seq<char>>) -> JobRunView {
        match self {
            JobRunView::Updating { job_id, request, result } => finishing(
                job_id,
                match update {
                    Ok(_) => result,
                    Err(error) => Err(error),
                },
            ),
            _ => self,
        }
    }
}

/// A job whose kind is not known breaks with the error `unknown_kind()`,
/// whatever its contents are, before anything is loaded or run.
pub proof fn lemma_unknown_kind_breaks(job_id: i32, kind: i16, decoded: Option<JobContentsView>)
    requires
        JobKind::of_code(kind) is None,
    ensures
        (JobRunView::Decoding { job_id, kind }).decoded(decoded) == broken(job_id, unknown_kind()),
{
}

/// A job does not end ended unless its work has come to its end without an
/// error and the update of the build has not failed in the store.
pub proof fn lemma_ended_means_success(run: JobRunView, update: Result<bool, Seq<char>>)
    requires
        run.build_updated(update) matches JobRunView::Finishing { status, .. } && status
            == JobStatus::Ended,
        run is Updating,
    ensures
        update is Ok,
        run->Updating_result is Ok,
{
}

enum Stage {
    Decoding { kind: i16 },
    Loading(JobRequest),
    Running(JobRequest, Pipeline),
    Updating(JobRequest, JobResult<JobResults>),
    Finishing(JobStatus, JobResults),
}

/// A job in the hands of the executor.
pub struct JobRun {
    job_id: i32,
    stage: Stage,
}

/// What the executor is to do next for a job.
pub enum Task<'a> {
    /// Read the contents of the job as those of the kind with this code,
    /// and report with `decoded`.
    Decode { kind: i16 },
    /// Load the refs of this build, and report with `refs_loaded`.
    LoadRefs { build: i32 },
    /// Carry out this step, and report with `step_done`.
    Perform(&'a Step),
    /// Write the outcome of the pipeline to the build of the request, and
    /// report with `build_updated`.
    UpdateBuild { request: &'a JobRequest, result: &'a JobResult<JobResults> },
    /// Give the job this status and these results; the job is then done.
    UpdateJob { job_id: i32, status: JobStatus, results: &'a JobResults },
}

impl View for JobRun {
    type V = JobRunView;

    closed spec fn view(&self) -> JobRunView {
        match self.stage {
            Stage::Decoding { kind } => JobRunView::Decoding { job_id: self.job_id, kind },
            Stage::Loading(request) => JobRunView::Loading {
                job_id: self.job_id,
                request: request@,
            },
            Stage::Running(request, pipeline) => JobRunView::Running {
                job_id: self.job_id,
                request: request@,
                pipeline: pipeline@,
            },
            Stage::Updating(request, result) => JobRunView::Updating {
                job_id: self.job_id,
                request: request@,
                result: result_view(result),
            },
            Stage::Finishing(status, results) => JobRunView::Finishing {
                job_id: self.job_id,
                status,
                results: results@,
            },
        }
    }
}

impl JobRun {
    #[verifier::type_invariant]
    spec fn step_is_due(self) -> bool {
        self.stage matches Stage::Running(_, pipeline) ==> pipeline@.running()
    }

    /// The job `job_id` of the kind with the code `kind`, just claimed.
    pub fn start(job_id: i32, kind: i16) -> (run: JobRun)
        ensures
            run@ == (JobRunView::Decoding { job_id, kind }),
    {
        JobRun { job_id, stage: Stage::Decoding { kind } }
    }

    /// What is to be done next.
    pub fn task(&self) -> (task: Task<'_>)
        ensures
            match self@ {
                JobRunView::Decoding { kind, .. } => task matches Task::Decode { kind: k } && k
                    == kind,
                JobRunView::Loading { request, .. } => task matches Task::LoadRefs { build }
                    && build == request.build(),
                JobRunView::Running { pipeline, .. } => task matches Task::Perform(step)
                    && pipeline.running() && step@ == pipeline.steps[pipeline.position as int],
                JobRunView::Updating { request, result, .. } => task matches Task::UpdateBuild {
                    request: r,
                    result: s,
                } && r@ == request && result_view(*s) == result,
                JobRunView::Finishing { job_id, status, results } => task matches Task::UpdateJob {
                    job_id: j,
                    status: s,
                    results: r,
                } && j == job_id && s == status && r@ == results,
            },
    {
        proof {
            use_type_invariant(self);
        }
        match &self.stage {
            Stage::Decoding { kind } => Task::Decode { kind: *kind },
            Stage::Loading(request) => Task::LoadRefs { build: request.build() },
            Stage::Running(_, pipeline) => {
                match pipeline.next_step() {
                    Some(step) => Task::Perform(step),
                    None => unreached(),
                }
            },
            Stage::Updating(request, result) => Task::UpdateBuild { request, result },
            Stage::Finishing(status, results) => Task::UpdateJob {
                job_id: self.job_id,
                status: *status,
                results,
            },
        }
    }

    fn enter(job_id: i32, request: JobRequest, pipeline: Pipeline) -> (run: JobRun)
        ensures
            run@ == entered(job_id, request@, pipeline@),
    {
        if pipeline.next_step().is_some() {
            JobRun { job_id, stage: Stage::Running(request, pipeline) }
        } else {
            match pipeline.result() {
                Some(result) => JobRun { job_id, stage: Stage::Updating(request, result) },
                None => unreached(),
            }
        }
    }

    fn finish(job_id: i32, result: JobResult<JobResults>) -> (run: JobRun)
        ensures
            run@ == finishing(job_id, result_view(result)),
    {
        let (status, results) = job_outcome(result);
        JobRun { job_id, stage: Stage::Finishing(status, results) }
    }

    /// Takes what the contents of the job were read as, `None` where they
    /// could not be read.
    pub fn decoded(self, decoded: Option<JobRequest>) -> (run: JobRun)
        ensures
            run@ == self@.decoded(
                match decoded {
                    Some(request) => Some(request@),
                    None => None,
                },
            ),
    {
        let job_id = self.job_id;
        match self.stage {
            Stage::Decoding { kind } => match job_request(kind, decoded) {
                Ok(request) => JobRun { job_id, stage: Stage::Loading(request) },
                Err(e) => JobRun::finish(job_id, Err(e)),
            },
            _ => self,
        }
    }

    /// Takes the refs that were loaded for the build, `None` where they
    /// could not be loaded, and the working directory, or what the system
    /// said where it is not known.
    pub fn refs_loaded(
        self,
        executor: &JobExecutor,
        loaded: Option<Vec<BuildRef>>,
        current_dir: Result<String, String>,
    ) -> (run: JobRun)
        ensures
            run@ == self@.refs_loaded(
                executor.config@,
                match loaded {
                    Some(refs) => Some(refs_view(refs@)),
                    None => None,
                },
                match current_dir {
                    Ok(dir) => Ok(dir@),
                    Err(error) => Err(error@),
                },
            ),
    {
        let job_id = self.job_id;
        match self.stage {
            Stage::Loading(request) => match check_refs(loaded) {
                Err(e) => JobRun::finish(job_id, Err(e)),
                Ok(refs) => {
                    let needs_dir = match &request {
                        JobRequest::Commit(_) => true,
                        JobRequest::Publish(_) => false,
                    };
                    match current_dir {
                        Err(error) if needs_dir => JobRun {
                            job_id,
                            stage: Stage::Updating(request, Err(JobError::new(error.as_str()))),
                        },
                        Err(_) => {
                            let pipeline = executor.plan(&request, &refs, "");
                            JobRun::enter(job_id, request, pipeline)
                        },
                        Ok(dir) => {
                            let pipeline = executor.plan(&request, &refs, dir.as_str());
                            JobRun::enter(job_id, request, pipeline)
                        },
                    }
                },
            },
            _ => self,
        }
    }

    /// Takes the outcome of the step that `task` handed out.
    pub fn step_done(self, outcome: &Outcome) -> (run: JobRun)
        ensures
            run@ == self@.step_done(outcome@),
    {
        let job_id = self.job_id;
        match self.stage {
            Stage::Running(request, pipeline) => {
                let mut pipeline = pipeline;
                pipeline.advance(outcome);
                JobRun::enter(job_id, request, pipeline)
            },
            _ => self,
        }
    }

    /// Takes whether the state of the build was written, or what the store
    /// said where writing failed.
    pub fn build_updated(self, update: Result<bool, String>) -> (run: JobRun)
        ensures
            run@ == self@.build_updated(
                match update {
                    Ok(written) => Ok(written),
                    Err(error) => Err(error@),
                },
            ),
    {
        let job_id = self.job_id;
        match self.stage {
            Stage::Updating(_, result) => JobRun::finish(job_id, result_after_update(result, update)),
            _ => self,
        }
    }
}

} // verus!
