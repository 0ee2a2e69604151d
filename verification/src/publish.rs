//! The publish pipeline: the repository of a build is merged into the
//! production repository.
//!
//! All refs of the build are committed from its repository into the
//! production repository with one command; then the summary of the
//! production repository is made, this time with static deltas.

use vstd::prelude::*;
use vstd::string::*;
use crate::command::{optional_arg, CommandLine, CommandLineView};
use crate::config::{Config, ConfigView};
use crate::models::PublishJob;
use crate::pipeline::{steps_view, Pipeline, PipelineView, Step, StepView};
use crate::repo::{build_repo, build_repo_path};

verus! {

/// The command that commits all refs of the repository at `repo` into the
/// production repository. The summary is left for later; then come the
/// signing options, where there are any.
pub open spec fn publish_from(config: ConfigView, repo: Seq<char>) -> CommandLineView {
    CommandLineView {
        program: "flatpak"@,
        args: seq!["build-commit-from"@, "--no-update-summary"@] + optional_arg(
            "--gpg-homedir=="@,
            config.gpg_homedir,
        ) + optional_arg("--gpg-sign=="@, config.build_gpg_key) + seq![
            "--src-repo="@ + repo,
            config.repo_path,
        ],
    }
}

/// The command that makes the summary and the static deltas of the
/// production repository.
pub open spec fn update_repo(config: ConfigView) -> CommandLineView {
    CommandLineView {
        program: "flatpak"@,
        args: seq!["build-update-repo"@, "--generate-static-deltas"@, config.repo_path],
    }
}

/// All steps of the publish pipeline.
pub open spec fn publish_plan(config: ConfigView, build_id: int) -> Seq<StepView> {
    seq![
        StepView::Run {
            command: publish_from(config, build_repo_path(config, build_id)),
            failure: "Failed to publish repo: "@,
        },
        StepView::Run { command: update_repo(config), failure: "Failed to update repo: "@ },
    ]
}

/// The publish pipeline before its first step.
pub open spec fn publish_start(config: ConfigView, build_id: int) -> PipelineView {
    PipelineView {
        steps: publish_plan(config, build_id),
        position: 0,
        commits: Seq::empty(),
        failure: None,
        reports_refs: false,
    }
}

/// Plans the publish pipeline for the build of `job`.
pub fn publish_pipeline(config: &Config, job: &PublishJob) -> (p: Pipeline)
    ensures
        p@ == publish_start(config@, job.build as int),
{
    let repo = build_repo(config, job.build);
    let mut import = CommandLine::new("flatpak");
    import.arg("build-commit-from");
    import.arg("--no-update-summary");
    import.optional_arg("--gpg-homedir==", &config.gpg_homedir);
    import.optional_arg("--gpg-sign==", &config.build_gpg_key);
    import.arg_with("--src-repo=", repo.as_str());
    import.arg(config.repo_path.as_str());
    assert(import@.args =~= publish_from(config@, repo@).args);
    let mut update = CommandLine::new("flatpak");
    update.arg("build-update-repo");
    update.arg("--generate-static-deltas");
    update.arg(config.repo_path.as_str());
    assert(update@.args =~= update_repo(config@).args);
    let first = Step::Run { command: import, failure: String::from_str("Failed to publish repo: ") };
    let second = Step::Run { command: update, failure: String::from_str("Failed to update repo: ") };
    let mut steps: Vec<Step> = Vec::new();
    steps.push(first);
    steps.push(second);
    assert(steps_view(steps@) =~= publish_plan(config@, job.build as int));
    Pipeline::new(steps, false)
}

} // verus!
