//! A pipeline: the steps of a job, handed out one at a time.
//!
//! The library decides what is done and how each outcome is read; the
//! caller carries out the step that it is handed and reports what happened.
//! The first step that fails ends the pipeline: no later step is handed
//! out.

use vstd::prelude::*;
use vstd::string::*;
use crate::command::{lossy_text, utf8_lossy, CommandLine, CommandLineView};
use crate::errors::{JobError, JobResult};
use crate::models::{commit_map, ref_commits, JobResults, JobResultsView, RefCommit};
use crate::text::{trim, trimmed};

verus! {

/// One step of a pipeline.
#[derive(Debug, PartialEq, Eq)]
pub enum Step {
    /// Create the directory and the missing ones above it.
    CreateDirAll { path: String },
    /// Create or replace the file with these contents.
    WriteFile { path: String, contents: String },
    /// Remove the directory and all that is in it.
    RemoveDirAll { path: String },
    /// Run the command through the subprocess runner. Where it exits with
    /// another status than 0, the error is `failure` followed by its
    /// trimmed error output.
    Run { command: CommandLine, failure: String },
    /// Run the command and take its trimmed output as the commit of the ref
    /// `ref_name`.
    Resolve { command: CommandLine, ref_name: String },
}

/// A `Step` as text.
pub enum StepView {
    CreateDirAll { path: Seq<char> },
    WriteFile { path: Seq<char>, contents: Seq<char> },
    RemoveDirAll { path: Seq<char> },
    Run { command: CommandLineView, failure: Seq<char> },
    Resolve { command: CommandLineView, ref_name: Seq<char> },
}

impl View for Step {
    type V = StepView;

    open spec fn view(&self) -> StepView {
        match self {
            Step::CreateDirAll { path } => StepView::CreateDirAll { path: path@ },
            Step::WriteFile { path, contents } => StepView::WriteFile {
                path: path@,
                contents: contents@,
            },
            Step::RemoveDirAll { path } => StepView::RemoveDirAll { path: path@ },
            Step::Run { command, failure } => StepView::Run {
                command: command@,
                failure: failure@,
            },
            Step::Resolve { command, ref_name } => StepView::Resolve {
                command: command@,
                ref_name: ref_name@,
            },
        }
    }
}

/// The views of `steps`, in their order.
pub open spec fn steps_view(steps: Seq<Step>) -> Seq<StepView> {
    steps.map_values(|s: Step| s@)
}

/// What happened when a step was carried out.
#[derive(Debug, PartialEq, Eq)]
pub enum Outcome {
    /// The step was done; a command ran and exited with status 0, and this
    /// is its output.
    Succeeded { output: String },
    /// The command ran and did not exit with status 0; this is its error
    /// output.
    ExitedWithFailure { stderr: String },
    /// The step could not be carried out; this is what the system said.
    NotPerformed { error: String },
}

/// An `Outcome` as text.
pub enum OutcomeView {
    Succeeded { output: Seq<char> },
    ExitedWithFailure { stderr: Seq<char> },
    NotPerformed { error: Seq<char> },
}

impl View for Outcome {
    type V = OutcomeView;

    open spec fn view(&self) -> OutcomeView {
        match self {
            Outcome::Succeeded { output } => OutcomeView::Succeeded { output: output@ },
            Outcome::ExitedWithFailure { stderr } => OutcomeView::ExitedWithFailure {
                stderr: stderr@,
            },
            Outcome::NotPerformed { error } => OutcomeView::NotPerformed { error: error@ },
        }
    }
}

impl Outcome {
    /// The outcome of a step on the file system: done, or what the system
    /// said.
    pub fn of_io(result: Result<(), String>) -> (o: Outcome)
        ensures
            o@ == match result {
                Ok(_) => OutcomeView::Succeeded { output: Seq::empty() },
                Err(error) => OutcomeView::NotPerformed { error: error@ },
            },
    {
        match result {
            Ok(_) => Outcome::Succeeded { output: String::new() },
            Err(error) => Outcome::NotPerformed { error },
        }
    }

    /// The outcome of a command that went through the subprocess runner,
    /// from the runner's result: success, combined output and error output.
    pub fn of_run(result: JobResult<(bool, String, String)>) -> (o: Outcome)
        ensures
            o@ == match result {
                Ok(run) => if run.0 {
                    OutcomeView::Succeeded { output: run.1@ }
                } else {
                    OutcomeView::ExitedWithFailure { stderr: run.2@ }
                },
                Err(e) => OutcomeView::NotPerformed { error: e@ },
            },
    {
        match result {
            Ok(run) => {
                let (success, output, stderr) = run;
                if success {
                    Outcome::Succeeded { output }
                } else {
                    Outcome::ExitedWithFailure { stderr }
                }
            },
            Err(e) => Outcome::NotPerformed { error: e.to_string() },
        }
    }

    /// The outcome of a command that ran to its end, from its exit code
    /// (`None` where it has none) and the bytes of its two streams. It
    /// succeeded if and only if the exit code is 0.
    pub fn of_exit(code: Option<i32>, stdout: &Vec<u8>, stderr: &Vec<u8>) -> (o: Outcome)
        ensures
            o@ == if code == Some(0i32) {
                OutcomeView::Succeeded { output: utf8_lossy(stdout@) }
            } else {
                OutcomeView::ExitedWithFailure { stderr: utf8_lossy(stderr@) }
            },
    {
        let success = match code {
            Some(c) => c == 0,
            None => false,
        };
        if success {
            Outcome::Succeeded { output: lossy_text(stdout) }
        } else {
            Outcome::ExitedWithFailure { stderr: lossy_text(stderr) }
        }
    }
}

/// What an outcome means for the pipeline.
pub enum Verdict {
    /// Go on with the next step.
    Proceed,
    /// Note the commit of a ref, and go on.
    Record(Seq<char>, Seq<char>),
    /// End with this error.
    Fail(Seq<char>),
}

/// What the error of a failed lookup of `ref_name` begins with.
pub open spec fn resolve_failure(ref_name: Seq<char>) -> Seq<char> {
    "Can't find commit for ref "@ + ref_name + " build refs: "@
}

/// What the error begins with when the command of `step` exits with
/// another status than 0.
pub open spec fn failure_prefix(step: StepView) -> Seq<char> {
    match step {
        StepView::Run { failure, .. } => failure,
        StepView::Resolve { ref_name, .. } => resolve_failure(ref_name),
        _ => Seq::empty(),
    }
}

/// How the outcome of `step` is read.
pub open spec fn verdict(step: StepView, outcome: OutcomeView) -> Verdict {
    match outcome {
        OutcomeView::Succeeded { output } => match step {
            StepView::Resolve { ref_name, .. } => Verdict::Record(ref_name, trimmed(output)),
            _ => Verdict::Proceed,
        },
        OutcomeView::ExitedWithFailure { stderr } => Verdict::Fail(
            failure_prefix(step) + trimmed(stderr),
        ),
        OutcomeView::NotPerformed { error } => match step {
            StepView::Resolve { ref_name, .. } => Verdict::Fail(resolve_failure(ref_name) + error),
            _ => Verdict::Fail(error),
        },
    }
}

/// The state of a pipeline.
pub struct PipelineView {
    /// All steps, in their order.
    pub steps: Seq<StepView>,
    /// How many steps are done.
    pub position: nat,
    /// The refs and commits noted so far, in their order.
    pub commits: Seq<(Seq<char>, Seq<char>)>,
    /// The error that ended the pipeline, if one did.
    pub failure: Option<Seq<char>>,
    /// Whether the result reports the commits.
    pub reports_refs: bool,
}

impl PipelineView {
    /// Whether a step is waiting to be carried out.
    pub open spec fn running(self) -> bool {
        self.failure is None && self.position < self.steps.len()
    }

    /// The pipeline after the outcome of its current step. One that has
    /// ended stays as it is.
    pub open spec fn advanced(self, outcome: OutcomeView) -> PipelineView {
        if !self.running() {
            self
        } else {
            match verdict(self.steps[self.position as int], outcome) {
                Verdict::Proceed => PipelineView { position: self.position + 1, ..self },
                Verdict::Record(ref_name, commit) => PipelineView {
                    position: self.position + 1,
                    commits: self.commits.push((ref_name, commit)),
                    ..self
                },
                Verdict::Fail(message) => PipelineView { failure: Some(message), ..self },
            }
        }
    }

    /// The pipeline after a run of outcomes, each for the step that was
    /// current then.
    pub open spec fn advanced_all(self, outcomes: Seq<OutcomeView>) -> PipelineView
        decreases outcomes.len(),
    {
        if outcomes.len() == 0 {
            self
        } else {
            self.advanced_all(outcomes.drop_last()).advanced(outcomes.last())
        }
    }

    /// The result of the pipeline: none while a step is waiting, the error
    /// if a step failed, and else what the pipeline reports.
    pub open spec fn result(self) -> Option<Result<JobResultsView, Seq<char>>> {
        match self.failure {
            Some(message) => Some(Err(message)),
            None => if self.position < self.steps.len() {
                None
            } else if self.reports_refs {
                Some(Ok(JobResultsView::Refs(commit_map(self.commits))))
            } else {
                Some(Ok(JobResultsView::Empty))
            },
        }
    }
}

/// A pipeline that failed stays as it is, whatever is reported to it: no
/// further step is handed out, and its error stands.
pub proof fn lemma_failure_is_final(p: PipelineView, outcomes: Seq<OutcomeView>)
    requires
        p.failure is Some,
    ensures
        p.advanced_all(outcomes) == p,
        !p.advanced_all(outcomes).running(),
    decreases outcomes.len(),
{
    if outcomes.len() > 0 {
        lemma_failure_is_final(p, outcomes.drop_last());
    }
}

/// The steps of a pipeline are fixed, and it moves forward by at most one
/// step for each outcome.
pub proof fn lemma_steps_in_order(p: PipelineView, outcomes: Seq<OutcomeView>)
    ensures
        p.advanced_all(outcomes).steps == p.steps,
        p.position <= p.advanced_all(outcomes).position <= p.position + outcomes.len(),
    decreases outcomes.len(),
{
    if outcomes.len() > 0 {
        lemma_steps_in_order(p, outcomes.drop_last());
    }
}

/// The steps of a job and how far it has come.
#[derive(Debug)]
pub struct Pipeline {
    steps: Vec<Step>,
    position: usize,
    commits: Vec<RefCommit>,
    failure: Option<JobError>,
    reports_refs: bool,
}

impl View for Pipeline {
    type V = PipelineView;

    closed spec fn view(&self) -> PipelineView {
        PipelineView {
            steps: steps_view(self.steps@),
            position: self.position as nat,
            commits: ref_commits(self.commits@),
            failure: match self.failure {
                Some(e) => Some(e@),
                None => None,
            },
            reports_refs: self.reports_refs,
        }
    }
}

impl Pipeline {
    /// A pipeline of these steps, none of them done. Its result reports the
    /// commits that it notes if `reports_refs` is set, and nothing else.
    pub fn new(steps: Vec<Step>, reports_refs: bool) -> (p: Pipeline)
        ensures
            p@ == (PipelineView {
                steps: steps_view(steps@),
                position: 0,
                commits: Seq::empty(),
                failure: None,
                reports_refs,
            }),
    {
        let p = Pipeline { steps, position: 0, commits: Vec::new(), failure: None, reports_refs };
        assert(ref_commits(p.commits@) =~= Seq::empty());
        p
    }

    /// A pipeline that has failed before its first step.
    pub fn rejected(error: JobError) -> (p: Pipeline)
        ensures
            p@ == (PipelineView {
                steps: Seq::empty(),
                position: 0,
                commits: Seq::empty(),
                failure: Some(error@),
                reports_refs: false,
            }),
    {
        let p = Pipeline {
            steps: Vec::new(),
            position: 0,
            commits: Vec::new(),
            failure: Some(error),
            reports_refs: false,
        };
        assert(ref_commits(p.commits@) =~= Seq::empty());
        assert(steps_view(p.steps@) =~= Seq::empty());
        p
    }

    /// The step to carry out next, if the pipeline has not ended.
    pub fn next_step(&self) -> (r: Option<&Step>)
        ensures
            r is Some == self@.running(),
            r matches Some(step) ==> step@ == self@.steps[self@.position as int],
    {
        if self.failure.is_none() && self.position < self.steps.len() {
            Some(&self.steps[self.position])
        } else {
            None
        }
    }

    /// Takes the outcome of the step that `next_step` handed out.
    pub fn advance(&mut self, outcome: &Outcome)
        ensures
            final(self)@ == old(self)@.advanced(outcome@),
    {
        if self.failure.is_some() || self.position >= self.steps.len() {
            return ;
        }
        let step = &self.steps[self.position];
        match outcome {
            Outcome::Succeeded { output } => {
                match step {
                    Step::Resolve { ref_name, .. } => {
                        let entry = RefCommit {
                            ref_name: ref_name.clone(),
                            commit: trim(output.as_str()),
                        };
                        self.commits.push(entry);
                        assert(ref_commits(self.commits@) =~= ref_commits(old(self).commits@).push(
                            (entry.ref_name@, entry.commit@),
                        ));
                    },
                    _ => {},
                }
                self.position = self.position + 1;
            },
            Outcome::ExitedWithFailure { stderr } => {
                let detail = trim(stderr.as_str());
                let error = match step {
                    Step::Run { failure, .. } => JobError::with_detail(
                        failure.as_str(),
                        detail.as_str(),
                    ),
                    Step::Resolve { ref_name, .. } => {
                        let prefix = resolve_prefix(ref_name.as_str());
                        JobError::with_detail(prefix.as_str(), detail.as_str())
                    },
                    _ => {
                        JobError::new(detail.as_str())
                    },
                };
                self.failure = Some(error);
            },
            Outcome::NotPerformed { error } => {
                let error = match step {
                    Step::Resolve { ref_name, .. } => {
                        let prefix = resolve_prefix(ref_name.as_str());
                        JobError::with_detail(prefix.as_str(), error.as_str())
                    },
                    _ => JobError::new(error.as_str()),
                };
                self.failure = Some(error);
            },
        }
    }

    /// The result of the pipeline, or `None` while a step is waiting.
    pub fn result(self) -> (r: Option<JobResult<JobResults>>)
        ensures
            match self@.result() {
                None => r is None,
                Some(Ok(v)) => r matches Some(Ok(x)) && x@ == v,
                Some(Err(m)) => r matches Some(Err(e)) && e@ == m,
            },
    {
        match self.failure {
            Some(e) => Some(Err(e)),
            None => {
                if self.position < self.steps.len() {
                    None
                } else if self.reports_refs {
                    Some(Ok(JobResults::Refs(self.commits)))
                } else {
                    Some(Ok(JobResults::Empty))
                }
            },
        }
    }
}

fn resolve_prefix(ref_name: &str) -> (r: String)
    ensures
        r@ == resolve_failure(ref_name@),
{
    let mut r = String::from_str("Can't find commit for ref ");
    r.append(ref_name);
    r.append(" build refs: ");
    r
}

} // verus!
