//! The layout of a repository on disk: where the repositories of a build
//! are, which directories a new repository gets, and what its
//! configuration file says.

use vstd::prelude::*;
use vstd::string::*;
use crate::config::{Config, ConfigView};
use crate::models::opt_text;
use crate::pipeline::{steps_view, Step, StepView};
use crate::text::{decimal, join_path, joined_path, to_decimal};

verus! {

/// The repository of the build `build_id`.
pub open spec fn build_repo_path(config: ConfigView, build_id: int) -> Seq<char> {
    joined_path(config.build_repo_base_path, decimal(build_id))
}

/// The repository that holds what was uploaded for the build `build_id`.
pub open spec fn upload_path(config: ConfigView, build_id: int) -> Seq<char> {
    joined_path(build_repo_path(config, build_id), "upload"@)
}

/// The production repository as seen from the directory `current_dir`.
pub open spec fn parent_path(config: ConfigView, current_dir: Seq<char>) -> Seq<char> {
    joined_path(current_dir, config.repo_path)
}

/// A path joined to an absolute one is absolute: seen from an absolute
/// working directory, the production repository has an absolute path.
pub proof fn lemma_joined_to_absolute(base: Seq<char>, rel: Seq<char>)
    requires
        base.len() > 0,
        base[0] == '/',
    ensures
        joined_path(base, rel).len() > 0,
        joined_path(base, rel)[0] == '/',
{
}

/// The repository of the build `build_id`.
pub fn build_repo(config: &Config, build_id: i32) -> (r: String)
    ensures
        r@ == build_repo_path(config@, build_id as int),
{
    let number = to_decimal(build_id);
    join_path(config.build_repo_base_path.as_str(), number.as_str())
}

/// The configuration file of a new repository: its format, then the
/// collection of the build where there is one, then the parent repository
/// where it has one.
pub open spec fn repo_config(
    collection_id: Option<Seq<char>>,
    build_id: int,
    parent: Option<Seq<char>>,
) -> Seq<char> {
    "\n[core]\nrepo_version=1\nmode=archive-z2\n"@ + (match collection_id {
        Some(id) => "collection-id="@ + id + ".Build"@ + decimal(build_id) + "\n"@,
        None => Seq::empty(),
    }) + (match parent {
        Some(path) => "parent="@ + path,
        None => Seq::empty(),
    })
}

/// The configuration file of a new repository.
pub fn repo_config_text(collection_id: &Option<String>, build_id: i32, parent: &Option<String>) -> (r:
    String)
    ensures
        r@ == repo_config(opt_text(*collection_id), build_id as int, opt_text(*parent)),
{
    let mut r = String::from_str("\n[core]\nrepo_version=1\nmode=archive-z2\n");
    match collection_id {
        Some(id) => {
            let number = to_decimal(build_id);
            r.append("collection-id=");
            r.append(id.as_str());
            r.append(".Build");
            r.append(number.as_str());
            r.append("\n");
        },
        None => {},
    }
    match parent {
        Some(path) => {
            r.append("parent=");
            r.append(path.as_str());
        },
        None => {},
    }
    r
}

/// The step that creates the directory `dir` of the repository at `repo`.
pub open spec fn dir_step(repo: Seq<char>, dir: Seq<char>) -> StepView {
    StepView::CreateDirAll { path: joined_path(repo, dir) }
}

/// The steps that lay out a repository at `repo`: its directories, then its
/// configuration file.
pub open spec fn init_steps(
    repo: Seq<char>,
    parent: Option<Seq<char>>,
    build_id: int,
    collection_id: Option<Seq<char>>,
) -> Seq<StepView> {
    seq![
        dir_step(repo, "extensions"@),
        dir_step(repo, "objects"@),
        dir_step(repo, "refs/heads"@),
        dir_step(repo, "refs/mirrors"@),
        dir_step(repo, "refs/remotes"@),
        dir_step(repo, "state"@),
        dir_step(repo, "tmp/cache"@),
        StepView::WriteFile {
            path: joined_path(repo, "config"@),
            contents: repo_config(collection_id, build_id, parent),
        },
    ]
}

fn push_dir_step(steps: &mut Vec<Step>, repo: &str, dir: &str)
    ensures
        steps_view(final(steps)@) == steps_view(old(steps)@).push(dir_step(repo@, dir@)),
{
    steps.push(Step::CreateDirAll { path: join_path(repo, dir) });
}

/// Adds the steps that lay out a repository at `repo`.
pub fn push_init_steps(
    steps: &mut Vec<Step>,
    repo: &str,
    parent: &Option<String>,
    build_id: i32,
    collection_id: &Option<String>,
)
    ensures
        steps_view(final(steps)@) == steps_view(old(steps)@) + init_steps(
            repo@,
            opt_text(*parent),
            build_id as int,
            opt_text(*collection_id),
        ),
{
    push_dir_step(steps, repo, "extensions");
    push_dir_step(steps, repo, "objects");
    push_dir_step(steps, repo, "refs/heads");
    push_dir_step(steps, repo, "refs/mirrors");
    push_dir_step(steps, repo, "refs/remotes");
    push_dir_step(steps, repo, "state");
    push_dir_step(steps, repo, "tmp/cache");
    let ghost dirs = steps_view(steps@);
    let file = Step::WriteFile {
        path: join_path(repo, "config"),
        contents: repo_config_text(collection_id, build_id, parent),
    };
    steps.push(file);
    assert(steps_view(steps@) =~= dirs.push(file@));
}

} // verus!
