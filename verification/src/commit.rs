//! The commit pipeline: the refs that were uploaded for a build are
//! committed to the repository of the build.
//!
//! Two repositories are laid out: the one of the build, whose parent is
//! the production repository, and the one that holds what was uploaded,
//! which has no parent. Each ref is then committed from the second into
//! the first and its new commit is looked up; an application gets a file
//! that points to it. At the end the summary of the build's repository is
//! made once, and the uploaded repository is removed. It stays where a step
//! has failed.

use vstd::prelude::*;
use vstd::string::*;
use crate::command::{optional_arg, CommandLine, CommandLineView};
use crate::config::{Config, ConfigView};
use crate::errors::JobError;
use crate::models::{opt_text, refs_view, BuildRef, BuildRefView, CommitJob};
use crate::pipeline::{
    lemma_steps_in_order,
    steps_view,
    OutcomeView,
    Pipeline,
    PipelineView,
    Step,
    StepView,
};
use crate::repo::{
    build_repo,
    build_repo_path,
    init_steps,
    parent_path,
    push_init_steps,
    upload_path,
};
use crate::text::{
    decimal,
    join_path,
    joined_path,
    segments,
    split,
    starts_with,
    to_decimal,
};

verus! {

/// The command that commits one ref from the uploaded repository into the
/// repository of the build. All refs of a build get the same time stamp,
/// the summary is left for later, the uploaded objects are verified, a new
/// commit is made even where nothing changed, and nothing is synced to
/// disk; then come the signing options and the end-of-life note, where
/// there are any.
pub open spec fn commit_from(
    config: ConfigView,
    endoflife: Option<Seq<char>>,
    upload: Seq<char>,
    repo: Seq<char>,
    r: BuildRefView,
) -> CommandLineView {
    CommandLineView {
        program: "flatpak"@,
        args: seq![
            "build-commit-from"@,
            "--timestamp=NOW"@,
            "--no-update-summary"@,
            "--untrusted"@,
            "--force"@,
            "--disable-fsync"@,
        ] + optional_arg("--gpg-homedir=="@, config.gpg_homedir) + optional_arg(
            "--gpg-sign=="@,
            config.build_gpg_key,
        ) + optional_arg("--end-of-life="@, endoflife) + seq![
            "--src-repo="@ + upload,
            "--src-ref="@ + r.commit,
            repo,
            r.ref_name,
        ],
    }
}

/// What the error begins with when a ref could not be committed.
pub open spec fn commit_failure(ref_name: Seq<char>) -> Seq<char> {
    "Failed to build commit for ref "@ + ref_name + ": "@
}

/// The command that looks up the commit of a ref in a repository.
pub open spec fn rev_parse(repo: Seq<char>, ref_name: Seq<char>) -> CommandLineView {
    CommandLineView { program: "ostree"@, args: seq!["rev-parse"@, "--repo="@ + repo, ref_name] }
}

/// The command that makes the summary of the repository of a build.
pub open spec fn update_build_repo(repo: Seq<char>) -> CommandLineView {
    CommandLineView { program: "flatpak"@, args: seq!["build-update-repo"@, repo] }
}

/// Whether the ref is that of an application.
pub open spec fn is_app_ref(ref_name: Seq<char>) -> bool {
    "app/"@.is_prefix_of(ref_name)
}

/// Whether a pointer file can be written for the ref where it needs one:
/// the name of an application ref has an application and a branch, its
/// second and fourth part.
pub open spec fn valid_ref(ref_name: Seq<char>) -> bool {
    is_app_ref(ref_name) ==> segments(ref_name, '/').len() >= 4
}

/// The error for a ref that is not valid.
pub open spec fn invalid_ref(ref_name: Seq<char>) -> Seq<char> {
    "Invalid ref name "@ + ref_name
}

/// The file that points to the application `app_id` in the repository of
/// the build `build_id`.
pub open spec fn ref_file(app_id: Seq<char>, branch: Seq<char>, base_url: Seq<char>, build_id: int) -> Seq<
    char,
> {
    "\n[Flatpak Ref]\nName="@ + app_id + "\nBranch="@ + branch + "\nUrl="@ + base_url
        + "/build-repo/"@ + decimal(build_id)
        + "\nRuntimeRepo=https://dl.flathub.org/repo/flathub.flatpakrepo\nIsRuntime=false\n"@
}

/// The step that writes the pointer file of an application ref.
pub open spec fn ref_file_step(config: ConfigView, build_id: int, ref_name: Seq<char>) -> StepView {
    let parts = segments(ref_name, '/');
    StepView::WriteFile {
        path: joined_path(build_repo_path(config, build_id), parts[1] + ".flatpakref"@),
        contents: ref_file(parts[1], parts[3], config.base_url, build_id),
    }
}

/// The step that commits the ref `r`.
pub open spec fn commit_step(
    config: ConfigView,
    endoflife: Option<Seq<char>>,
    build_id: int,
    r: BuildRefView,
) -> StepView {
    StepView::Run {
        command: commit_from(
            config,
            endoflife,
            upload_path(config, build_id),
            build_repo_path(config, build_id),
            r,
        ),
        failure: commit_failure(r.ref_name),
    }
}

/// The steps for one ref: commit it, look its commit up, and write the
/// pointer file if it is an application.
pub open spec fn ref_steps(
    config: ConfigView,
    endoflife: Option<Seq<char>>,
    build_id: int,
    r: BuildRefView,
) -> Seq<StepView> {
    seq![
        commit_step(config, endoflife, build_id, r),
        StepView::Resolve {
            command: rev_parse(build_repo_path(config, build_id), r.ref_name),
            ref_name: r.ref_name,
        },
    ] + if is_app_ref(r.ref_name) {
        seq![ref_file_step(config, build_id, r.ref_name)]
    } else {
        Seq::empty()
    }
}

/// The steps for all refs, in the order of the refs.
pub open spec fn all_ref_steps(
    config: ConfigView,
    endoflife: Option<Seq<char>>,
    build_id: int,
    refs: Seq<BuildRefView>,
) -> Seq<StepView>
    decreases refs.len(),
{
    if refs.len() == 0 {
        Seq::empty()
    } else {
        all_ref_steps(config, endoflife, build_id, refs.drop_last()) + ref_steps(
            config,
            endoflife,
            build_id,
            refs.last(),
        )
    }
}

/// The two steps that end the pipeline: the summary of the build's
/// repository, and the removal of the uploaded repository.
pub open spec fn closing_steps(config: ConfigView, build_id: int) -> Seq<StepView> {
    seq![
        StepView::Run {
            command: update_build_repo(build_repo_path(config, build_id)),
            failure: "Failed to updaterepo: "@,
        },
        StepView::RemoveDirAll { path: upload_path(config, build_id) },
    ]
}

/// All steps of the commit pipeline.
pub open spec fn commit_plan(
    config: ConfigView,
    current_dir: Seq<char>,
    build_id: int,
    endoflife: Option<Seq<char>>,
    refs: Seq<BuildRefView>,
) -> Seq<StepView> {
    init_steps(
        build_repo_path(config, build_id),
        Some(parent_path(config, current_dir)),
        build_id,
        config.collection_id,
    ) + init_steps(upload_path(config, build_id), None, build_id, None) + all_ref_steps(
        config,
        endoflife,
        build_id,
        refs,
    ) + closing_steps(config, build_id)
}

/// The place of the first ref that is not valid, if there is one.
pub open spec fn first_invalid(refs: Seq<BuildRefView>) -> Option<int>
    decreases refs.len(),
{
    if refs.len() == 0 {
        None
    } else {
        match first_invalid(refs.drop_last()) {
            Some(k) => Some(k),
            None => if valid_ref(refs.last().ref_name) {
                None
            } else {
                Some(refs.len() - 1)
            },
        }
    }
}

/// The commit pipeline before its first step: all steps planned where
/// every ref is valid, and else failed on the first ref that is not.
pub open spec fn commit_start(
    config: ConfigView,
    current_dir: Seq<char>,
    build_id: int,
    endoflife: Option<Seq<char>>,
    refs: Seq<BuildRefView>,
) -> PipelineView {
    match first_invalid(refs) {
        None => PipelineView {
            steps: commit_plan(config, current_dir, build_id, endoflife, refs),
            position: 0,
            commits: Seq::empty(),
            failure: None,
            reports_refs: true,
        },
        Some(k) => PipelineView {
            steps: Seq::empty(),
            position: 0,
            commits: Seq::empty(),
            failure: Some(invalid_ref(refs[k].ref_name)),
            reports_refs: false,
        },
    }
}

fn commit_command(
    config: &Config,
    endoflife: &Option<String>,
    upload: &str,
    repo: &str,
    r: &BuildRef,
) -> (c: CommandLine)
    ensures
        c@ == commit_from(config@, opt_text(*endoflife), upload@, repo@, r@),
{
    let mut c = CommandLine::new("flatpak");
    c.arg("build-commit-from");
    c.arg("--timestamp=NOW");
    c.arg("--no-update-summary");
    c.arg("--untrusted");
    c.arg("--force");
    c.arg("--disable-fsync");
    c.optional_arg("--gpg-homedir==", &config.gpg_homedir);
    c.optional_arg("--gpg-sign==", &config.build_gpg_key);
    c.optional_arg("--end-of-life=", endoflife);
    c.arg_with("--src-repo=", upload);
    c.arg_with("--src-ref=", r.commit.as_str());
    c.arg(repo);
    c.arg(r.ref_name.as_str());
    assert(c@.args =~= commit_from(config@, opt_text(*endoflife), upload@, repo@, r@).args);
    c
}

fn rev_parse_command(repo: &str, ref_name: &str) -> (c: CommandLine)
    ensures
        c@ == rev_parse(repo@, ref_name@),
{
    let mut c = CommandLine::new("ostree");
    c.arg("rev-parse");
    c.arg_with("--repo=", repo);
    c.arg(ref_name);
    assert(c@.args =~= rev_parse(repo@, ref_name@).args);
    c
}

fn ref_file_text(app_id: &str, branch: &str, base_url: &str, build_id: i32) -> (r: String)
    ensures
        r@ == ref_file(app_id@, branch@, base_url@, build_id as int),
{
    let number = to_decimal(build_id);
    let mut r = String::from_str("\n[Flatpak Ref]\nName=");
    r.append(app_id);
    r.append("\nBranch=");
    r.append(branch);
    r.append("\nUrl=");
    r.append(base_url);
    r.append("/build-repo/");
    r.append(number.as_str());
    r.append("\nRuntimeRepo=https://dl.flathub.org/repo/flathub.flatpakrepo\nIsRuntime=false\n");
    r
}

/// Adds the steps for the ref `r` if it is valid, and says whether it is.
fn push_ref_steps(
    steps: &mut Vec<Step>,
    config: &Config,
    endoflife: &Option<String>,
    build_id: i32,
    repo: &str,
    upload: &str,
    r: &BuildRef,
) -> (valid: bool)
    requires
        repo@ == build_repo_path(config@, build_id as int),
        upload@ == upload_path(config@, build_id as int),
    ensures
        valid == valid_ref(r.ref_name@),
        valid ==> steps_view(final(steps)@) == steps_view(old(steps)@) + ref_steps(
            config@,
            opt_text(*endoflife),
            build_id as int,
            r@,
        ),
        !valid ==> final(steps)@ == old(steps)@,
{
    let name = r.ref_name.as_str();
    let app = starts_with(name, "app/");
    let mut pointer: Option<Step> = None;
    if app {
        let parts = split(name, '/');
        if parts.len() < 4 {
            return false;
        }
        let mut file_name = parts[1].clone();
        file_name.append(".flatpakref");
        pointer = Some(
            Step::WriteFile {
                path: join_path(repo, file_name.as_str()),
                contents: ref_file_text(
                    parts[1].as_str(),
                    parts[3].as_str(),
                    config.base_url.as_str(),
                    build_id,
                ),
            },
        );
    }
    let mut failure = String::from_str("Failed to build commit for ref ");
    failure.append(name);
    failure.append(": ");
    let commit = Step::Run { command: commit_command(config, endoflife, upload, repo, r), failure };
    let resolve = Step::Resolve {
        command: rev_parse_command(repo, name),
        ref_name: r.ref_name.clone(),
    };
    steps.push(commit);
    steps.push(resolve);
    if let Some(file) = pointer {
        steps.push(file);
    }
    true
}

/// Plans the commit pipeline for the refs of the build of `job`, seen from
/// the working directory `current_dir`.
pub fn commit_pipeline(config: &Config, current_dir: &str, job: &CommitJob, refs: &Vec<BuildRef>) -> (p:
    Pipeline)
    ensures
        p@ == commit_start(
            config@,
            current_dir@,
            job.build as int,
            opt_text(job.endoflife),
            refs_view(refs@),
        ),
{
    let build_id = job.build;
    let repo = build_repo(config, build_id);
    let upload = join_path(repo.as_str(), "upload");
    let parent = Some(join_path(current_dir, config.repo_path.as_str()));
    let mut steps: Vec<Step> = Vec::new();
    push_init_steps(&mut steps, repo.as_str(), &parent, build_id, &config.collection_id);
    push_init_steps(&mut steps, upload.as_str(), &None, build_id, &None);
    let ghost all = refs_view(refs@);
    let ghost eol = opt_text(job.endoflife);
    let ghost head = init_steps(
        build_repo_path(config@, build_id as int),
        Some(parent_path(config@, current_dir@)),
        build_id as int,
        config@.collection_id,
    ) + init_steps(upload_path(config@, build_id as int), None, build_id as int, None);
    let mut i: usize = 0;
    while i < refs.len()
        invariant
            i <= refs.len(),
            all == refs_view(refs@),
            eol == opt_text(job.endoflife),
            build_id == job.build,
            repo@ == build_repo_path(config@, build_id as int),
            upload@ == upload_path(config@, build_id as int),
            first_invalid(all.take(i as int)) is None,
            steps_view(steps@) == head + all_ref_steps(
                config@,
                eol,
                build_id as int,
                all.take(i as int),
            ),
        decreases refs.len() - i,
    {
        let ghost upto = all.take(i as int + 1);
        assert(upto.drop_last() =~= all.take(i as int));
        let valid = push_ref_steps(
            &mut steps,
            config,
            &job.endoflife,
            build_id,
            repo.as_str(),
            upload.as_str(),
            &refs[i],
        );
        if !valid {
            proof {
                lemma_first_invalid_stays(all, i as int + 1);
            }
            let error = JobError::with_detail("Invalid ref name ", refs[i].ref_name.as_str());
            return Pipeline::rejected(error);
        }
        i += 1;
    }
    assert(all.take(i as int) =~= all);
    let ghost body = steps_view(steps@);
    let mut update = CommandLine::new("flatpak");
    update.arg("build-update-repo");
    update.arg(repo.as_str());
    assert(update@.args =~= update_build_repo(repo@).args);
    let summary = Step::Run { command: update, failure: String::from_str("Failed to updaterepo: ") };
    let removal = Step::RemoveDirAll { path: upload };
    steps.push(summary);
    steps.push(removal);
    assert(steps_view(steps@) =~= body + closing_steps(config@, build_id as int));
    Pipeline::new(steps, true)
}

/// Every ref is committed with `--untrusted` and `--force`, whatever the
/// settings, the build and the ref: what was uploaded is verified, and a
/// new commit is made even where nothing has changed.
pub proof fn lemma_commit_verifies_and_forces(
    config: ConfigView,
    endoflife: Option<Seq<char>>,
    upload: Seq<char>,
    repo: Seq<char>,
    r: BuildRefView,
)
    ensures
        commit_from(config, endoflife, upload, repo, r).args.contains("--untrusted"@),
        commit_from(config, endoflife, upload, repo, r).args.contains("--force"@),
{
    let args = commit_from(config, endoflife, upload, repo, r).args;
    assert(args[3] == "--untrusted"@);
    assert(args[4] == "--force"@);
}

/// The steps for the refs hold the commit of each ref.
proof fn lemma_ref_steps_commit_every_ref(
    config: ConfigView,
    endoflife: Option<Seq<char>>,
    build_id: int,
    refs: Seq<BuildRefView>,
    i: int,
)
    requires
        0 <= i < refs.len(),
    ensures
        all_ref_steps(config, endoflife, build_id, refs).contains(
            commit_step(config, endoflife, build_id, refs[i]),
        ),
    decreases refs.len(),
{
    let earlier = all_ref_steps(config, endoflife, build_id, refs.drop_last());
    let all = all_ref_steps(config, endoflife, build_id, refs);
    let wanted = commit_step(config, endoflife, build_id, refs[i]);
    if i == refs.len() - 1 {
        assert(all[earlier.len() as int] == wanted);
    } else {
        lemma_ref_steps_commit_every_ref(config, endoflife, build_id, refs.drop_last(), i);
        let k = choose|k: int| 0 <= k < earlier.len() && earlier[k] == wanted;
        assert(all[k] == wanted);
    }
}

/// The plan commits each ref of the build, with the command that
/// `commit_from` gives for it.
pub proof fn lemma_plan_commits_every_ref(
    config: ConfigView,
    current_dir: Seq<char>,
    build_id: int,
    endoflife: Option<Seq<char>>,
    refs: Seq<BuildRefView>,
    i: int,
)
    requires
        0 <= i < refs.len(),
    ensures
        commit_plan(config, current_dir, build_id, endoflife, refs).contains(
            commit_step(config, endoflife, build_id, refs[i]),
        ),
{
    let plan = commit_plan(config, current_dir, build_id, endoflife, refs);
    let body = all_ref_steps(config, endoflife, build_id, refs);
    let wanted = commit_step(config, endoflife, build_id, refs[i]);
    lemma_ref_steps_commit_every_ref(config, endoflife, build_id, refs, i);
    let k = choose|k: int| 0 <= k < body.len() && body[k] == wanted;
    assert(plan[16 + k] == wanted);
}

/// No step for a ref removes anything.
proof fn lemma_ref_steps_remove_nothing(
    config: ConfigView,
    endoflife: Option<Seq<char>>,
    build_id: int,
    refs: Seq<BuildRefView>,
    k: int,
)
    requires
        0 <= k < all_ref_steps(config, endoflife, build_id, refs).len(),
    ensures
        !(all_ref_steps(config, endoflife, build_id, refs)[k] is RemoveDirAll),
    decreases refs.len(),
{
    let earlier = all_ref_steps(config, endoflife, build_id, refs.drop_last());
    if refs.len() > 0 && k < earlier.len() {
        lemma_ref_steps_remove_nothing(config, endoflife, build_id, refs.drop_last(), k);
    }
}

/// The uploaded repository is removed by the last step of the plan, and no
/// earlier step removes anything.
pub proof fn lemma_removal_is_last(
    config: ConfigView,
    current_dir: Seq<char>,
    build_id: int,
    endoflife: Option<Seq<char>>,
    refs: Seq<BuildRefView>,
)
    ensures
        commit_plan(config, current_dir, build_id, endoflife, refs).len() >= 18,
        commit_plan(config, current_dir, build_id, endoflife, refs).last() == (
        StepView::RemoveDirAll { path: upload_path(config, build_id) }),
        forall|k: int|
            0 <= k < commit_plan(config, current_dir, build_id, endoflife, refs).len() - 1 ==> !(
            #[trigger] commit_plan(config, current_dir, build_id, endoflife, refs)[k]
                is RemoveDirAll),
{
    let plan = commit_plan(config, current_dir, build_id, endoflife, refs);
    let body = all_ref_steps(config, endoflife, build_id, refs);
    assert forall|k: int| 0 <= k < plan.len() - 1 implies !(#[trigger] plan[k] is RemoveDirAll) by {
        if 16 <= k < 16 + body.len() {
            lemma_ref_steps_remove_nothing(config, endoflife, build_id, refs, k - 16);
        }
    }
}

/// Where the commit pipeline fails before its last step, the uploaded
/// repository stays: none of the steps that were handed out, the failed one
/// included, removes anything.
pub proof fn lemma_upload_kept_on_failure(
    config: ConfigView,
    current_dir: Seq<char>,
    build_id: int,
    endoflife: Option<Seq<char>>,
    refs: Seq<BuildRefView>,
    outcomes: Seq<OutcomeView>,
)
    ensures
        ({
            let p = commit_start(config, current_dir, build_id, endoflife, refs).advanced_all(
                outcomes,
            );
            p.failure is Some && p.position < p.steps.len() - 1 ==> forall|k: int|
                0 <= k <= p.position ==> !(#[trigger] p.steps[k] is RemoveDirAll)
        }),
{
    let start = commit_start(config, current_dir, build_id, endoflife, refs);
    lemma_steps_in_order(start, outcomes);
    if first_invalid(refs) is None {
        lemma_removal_is_last(config, current_dir, build_id, endoflife, refs);
    }
}

/// The first ref that is not valid among the first `n` is the first that is
/// not valid among all.
proof fn lemma_first_invalid_stays(refs: Seq<BuildRefView>, n: int)
    requires
        0 <= n <= refs.len(),
        first_invalid(refs.take(n)) is Some,
    ensures
        first_invalid(refs) == first_invalid(refs.take(n)),
    decreases refs.len() - n,
{
    if n < refs.len() {
        assert(refs.take(n + 1).drop_last() =~= refs.take(n));
        lemma_first_invalid_stays(refs, n + 1);
    } else {
        assert(refs.take(n) =~= refs);
    }
}

} // verus!
