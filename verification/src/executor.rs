//! The job executor: what is done for a claimed job, and what is written
//! back when it has ended.
//!
//! The executor reads the kind of the job and its contents, loads the refs
//! of the build, runs the pipeline of the kind, moves the state of the
//! build from "in work" to its outcome if the build is still in work, and
//! gives the job its last status and its results. A job whose kind is not
//! known, whose contents cannot be read or whose build has no refs breaks
//! before any pipeline runs.

use vstd::prelude::*;
use vstd::string::*;
use crate::commit::{commit_pipeline, commit_start};
use crate::config::Config;
use crate::errors::{JobError, JobResult};
use crate::models::{
    opt_text,
    refs_view,
    Build,
    BuildRef,
    BuildRefView,
    CommitJob,
    JobContentsView,
    JobKind,
    JobResults,
    JobResultsView,
    JobStatus,
    PublishJob,
    PublishedState,
    PublishedStateView,
    RepoState,
    RepoStateView,
};
use crate::pipeline::Pipeline;
use crate::publish::{publish_pipeline, publish_start};

verus! {

/// What a job asks for, read from its contents.
#[derive(Debug, PartialEq, Eq)]
pub enum JobRequest {
    Commit(CommitJob),
    Publish(PublishJob),
}

impl View for JobRequest {
    type V = JobContentsView;

    open spec fn view(&self) -> JobContentsView {
        match self {
            JobRequest::Commit(job) => job@,
            JobRequest::Publish(job) => job@,
        }
    }
}

impl JobContentsView {
    /// The kind of job that has these contents.
    pub open spec fn kind(self) -> JobKind {
        match self {
            JobContentsView::Commit { .. } => JobKind::Commit,
            JobContentsView::Publish { .. } => JobKind::Publish,
        }
    }

    /// The build that the contents are about.
    pub open spec fn build(self) -> i32 {
        match self {
            JobContentsView::Commit { build, .. } => build,
            JobContentsView::Publish { build } => build,
        }
    }
}

impl JobRequest {
    /// The kind of the request.
    pub open spec fn kind(self) -> JobKind {
        self@.kind()
    }

    /// The build that the request is about.
    pub fn build(&self) -> (id: i32)
        ensures
            id == self@.build(),
    {
        match self {
            JobRequest::Commit(job) => job.build,
            JobRequest::Publish(job) => job.build,
        }
    }
}

/// The error of a job whose contents could not be read as those of its
/// kind.
pub open spec fn parse_failure(kind: JobKind) -> Seq<char> {
    match kind {
        JobKind::Commit => "Can't parse commit job"@,
        JobKind::Publish => "Can't parse publish job"@,
    }
}

/// The error of a job whose kind is not known.
pub open spec fn unknown_kind() -> Seq<char> {
    "Unknown job type"@
}

/// What a result says.
pub open spec fn result_view(result: JobResult<JobResults>) -> Result<JobResultsView, Seq<char>> {
    match result {
        Ok(results) => Ok(results@),
        Err(e) => Err(e@),
    }
}

/// What a job asks for, given the code of its kind and what its contents
/// were read as: the contents, if the kind is known and they are of that
/// kind, and else the error that breaks the job.
pub open spec fn accepted(kind: i16, decoded: Option<JobContentsView>) -> Result<
    JobContentsView,
    Seq<char>,
> {
    match JobKind::of_code(kind) {
        None => Err(unknown_kind()),
        Some(k) => match decoded {
            Some(request) if request.kind() == k => Ok(request),
            _ => Err(parse_failure(k)),
        },
    }
}

/// The refs to work on, given what was loaded: a build needs at least one
/// ref.
pub open spec fn checked_refs(loaded: Option<Seq<BuildRefView>>) -> Result<
    Seq<BuildRefView>,
    Seq<char>,
> {
    match loaded {
        None => Err("Can't load build refs"@),
        Some(refs) => if refs.len() == 0 {
            Err("No refs in build"@)
        } else {
            Ok(refs)
        },
    }
}

/// Settles what a job asks for. `kind` is the code of its kind, and
/// `decoded` what its contents were read as, `None` where they could not be
/// read. The request is accepted if the kind is known and the contents are
/// those of that kind.
pub fn job_request(kind: i16, decoded: Option<JobRequest>) -> (r: JobResult<JobRequest>)
    ensures
        match accepted(
            kind,
            match decoded {
                Some(request) => Some(request@),
                None => None,
            },
        ) {
            Ok(_) => r matches Ok(request) && Some(request) == decoded,
            Err(message) => r matches Err(e) && e@ == message,
        },
{
    match JobKind::from_db(kind) {
        Some(JobKind::Commit) => match decoded {
            Some(JobRequest::Commit(job)) => Ok(JobRequest::Commit(job)),
            _ => Err(JobError::new("Can't parse commit job")),
        },
        Some(JobKind::Publish) => match decoded {
            Some(JobRequest::Publish(job)) => Ok(JobRequest::Publish(job)),
            _ => Err(JobError::new("Can't parse publish job")),
        },
        None => Err(JobError::new("Unknown job type")),
    }
}

/// Checks the refs that were loaded for a build; `None` stands for refs
/// that could not be loaded. A build needs at least one ref.
pub fn check_refs(loaded: Option<Vec<BuildRef>>) -> (r: JobResult<Vec<BuildRef>>)
    ensures
        match checked_refs(
            match loaded {
                Some(refs) => Some(refs_view(refs@)),
                None => None,
            },
        ) {
            Ok(_) => r matches Ok(refs) && Some(refs) == loaded,
            Err(message) => r matches Err(e) && e@ == message,
        },
{
    match loaded {
        None => Err(JobError::new("Can't load build refs")),
        Some(refs) => {
            if refs.len() == 0 {
                Err(JobError::new("No refs in build"))
            } else {
                Ok(refs)
            }
        },
    }
}

/// The last status of a job and its results: ended with what the pipeline
/// reported, or broken with the message of the error.
pub fn job_outcome(result: JobResult<JobResults>) -> (r: (JobStatus, JobResults))
    ensures
        match result {
            Ok(results) => r.0 == JobStatus::Ended && r.1 == results,
            Err(e) => r.0 == JobStatus::Broken && r.1@ == JobResultsView::Message(e@),
        },
        r.0 == JobStatus::Ended || r.0 == JobStatus::Broken,
{
    match result {
        Ok(results) => (JobStatus::Ended, results),
        Err(e) => (JobStatus::Broken, JobResults::Message(e.to_string())),
    }
}

/// The result of a job after the state of its build was to be updated.
/// `update` says whether the state was written, or what the store said
/// where it failed. A build that was not in work any more leaves the result
/// of the pipeline as it is; a failure of the store becomes the error of
/// the job.
pub fn result_after_update(result: JobResult<JobResults>, update: Result<bool, String>) -> (r:
    JobResult<JobResults>)
    ensures
        match update {
            Ok(_) => r == result,
            Err(error) => r matches Err(e) && e@ == error@,
        },
{
    match update {
        Ok(_) => result,
        Err(error) => Err(JobError::new(error.as_str())),
    }
}

/// The state of the repository of a build after the commit pipeline: ready,
/// or failed with the message of the error.
pub fn repo_state_after(result: &JobResult<JobResults>) -> (s: RepoState)
    ensures
        s@ == match *result {
            Ok(_) => RepoStateView::Ready,
            Err(e) => RepoStateView::Failed(e@),
        },
{
    match result {
        Ok(_) => RepoState::Ready,
        Err(e) => RepoState::Failed(e.to_string()),
    }
}

/// The published state of a build after the publish pipeline: published,
/// or failed with the message of the error.
pub fn published_state_after(result: &JobResult<JobResults>) -> (s: PublishedState)
    ensures
        s@ == match *result {
            Ok(_) => PublishedStateView::Published,
            Err(e) => PublishedStateView::Failed(e@),
        },
{
    match result {
        Ok(_) => PublishedState::Published,
        Err(e) => PublishedState::Failed(e.to_string()),
    }
}

impl Build {
    /// The state of the repository that the columns stand for.
    pub open spec fn repo_state_view(self) -> RepoStateView {
        RepoStateView::decode(self.repo_state, opt_text(self.repo_state_reason))
    }

    /// The published state that the columns stand for.
    pub open spec fn published_state_view(self) -> PublishedStateView {
        PublishedStateView::decode(self.published_state, opt_text(self.published_state_reason))
    }

    /// Moves the state of the repository to `next` if it is `expected`
    /// now, whatever the reason, and says whether it did. A build in
    /// another state is left as it is.
    pub fn update_repo_state(&mut self, expected: &RepoState, next: &RepoState) -> (written: bool)
        ensures
            written == old(self).repo_state_view().same_state_as(expected@),
            !written ==> *final(self) == *old(self),
            written ==> (final(self).repo_state, opt_text(final(self).repo_state_reason))
                == next@.encode(),
            final(self).id == old(self).id,
            final(self).created == old(self).created,
            final(self).published_state == old(self).published_state,
            final(self).published_state_reason == old(self).published_state_reason,
    {
        let current = RepoState::from_db(self.repo_state, &self.repo_state_reason);
        if !current.same_state_as(expected) {
            return false;
        }
        let (code, reason) = next.to_db();
        self.repo_state = code;
        self.repo_state_reason = reason;
        true
    }

    /// Moves the published state to `next` if it is `expected` now,
    /// whatever the reason, and says whether it did. A build in another
    /// state is left as it is.
    pub fn update_published_state(&mut self, expected: &PublishedState, next: &PublishedState) -> (written:
        bool)
        ensures
            written == old(self).published_state_view().same_state_as(expected@),
            !written ==> *final(self) == *old(self),
            written ==> (final(self).published_state, opt_text(final(self).published_state_reason))
                == next@.encode(),
            final(self).id == old(self).id,
            final(self).created == old(self).created,
            final(self).repo_state == old(self).repo_state,
            final(self).repo_state_reason == old(self).repo_state_reason,
    {
        let current = PublishedState::from_db(self.published_state, &self.published_state_reason);
        if !current.same_state_as(expected) {
            return false;
        }
        let (code, reason) = next.to_db();
        self.published_state = code;
        self.published_state_reason = reason;
        true
    }

    /// Writes the outcome of the commit pipeline to a build that is being
    /// verified, and says whether it did. A build in another state is left
    /// as it is.
    pub fn finish_commit(&mut self, result: &JobResult<JobResults>) -> (written: bool)
        ensures
            written == old(self).repo_state_view().same_state_as(RepoStateView::Verifying),
            !written ==> *final(self) == *old(self),
            written ==> (final(self).repo_state, opt_text(final(self).repo_state_reason)) == (
            match *result {
                Ok(_) => RepoStateView::Ready,
                Err(e) => RepoStateView::Failed(e@),
            }).encode(),
            final(self).id == old(self).id,
            final(self).created == old(self).created,
            final(self).published_state == old(self).published_state,
            final(self).published_state_reason == old(self).published_state_reason,
    {
        let next = repo_state_after(result);
        self.update_repo_state(&RepoState::Verifying, &next)
    }

    /// Writes the outcome of the publish pipeline to a build that is being
    /// published, and says whether it did. A build in another state is
    /// left as it is.
    pub fn finish_publish(&mut self, result: &JobResult<JobResults>) -> (written: bool)
        ensures
            written == old(self).published_state_view().same_state_as(
                PublishedStateView::Publishing,
            ),
            !written ==> *final(self) == *old(self),
            written ==> (final(self).published_state, opt_text(final(self).published_state_reason))
                == (match *result {
                Ok(_) => PublishedStateView::Published,
                Err(e) => PublishedStateView::Failed(e@),
            }).encode(),
            final(self).id == old(self).id,
            final(self).created == old(self).created,
            final(self).repo_state == old(self).repo_state,
            final(self).repo_state_reason == old(self).repo_state_reason,
    {
        let next = published_state_after(result);
        self.update_published_state(&PublishedState::Publishing, &next)
    }
}

/// The worker that processes one job at a time.
#[derive(Debug)]
pub struct JobExecutor {
    pub config: Config,
}

impl JobExecutor {
    /// An executor with these settings.
    pub fn new(config: Config) -> (executor: JobExecutor)
        ensures
            executor.config == config,
    {
        JobExecutor { config }
    }

    /// Plans the pipeline for `request`: the commit pipeline over the refs
    /// of the build, seen from the working directory `current_dir`, or the
    /// publish pipeline.
    pub fn plan(&self, request: &JobRequest, refs: &Vec<BuildRef>, current_dir: &str) -> (p:
        Pipeline)
        ensures
            p@ == match *request {
                JobRequest::Commit(job) => commit_start(
                    self.config@,
                    current_dir@,
                    job.build as int,
                    opt_text(job.endoflife),
                    refs_view(refs@),
                ),
                JobRequest::Publish(job) => publish_start(self.config@, job.build as int),
            },
    {
        match request {
            JobRequest::Commit(job) => commit_pipeline(&self.config, current_dir, job, refs),
            JobRequest::Publish(job) => publish_pipeline(&self.config, job),
        }
    }
}

} // verus!
