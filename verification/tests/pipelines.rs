use repo_jobs::commit::commit_pipeline;
use repo_jobs::command::CommandLine;
use repo_jobs::config::Config;
use repo_jobs::errors::JobError;
use repo_jobs::executor::{job_outcome, JobExecutor, JobRequest};
use repo_jobs::models::{
    Build, BuildRef, CommitJob, JobResults, JobStatus, PublishJob, RefCommit, RepoState,
};
use repo_jobs::pipeline::{Outcome, Pipeline, Step};
use repo_jobs::publish::publish_pipeline;
use repo_jobs::repo::{build_repo, push_init_steps, repo_config_text};

const APP_REF: &str = "app/org.foo.Bar/x86_64/stable";
const RUNTIME_REF: &str = "runtime/org.foo.Platform/x86_64/1.0";

fn config() -> Config {
    Config {
        repo_path: "/srv/repo".to_string(),
        build_repo_base_path: "/srv/build-repo".to_string(),
        collection_id: None,
        gpg_homedir: None,
        build_gpg_key: None,
        base_url: "https://hub.example.org".to_string(),
    }
}

fn signing_config() -> Config {
    Config {
        repo_path: "repo".to_string(),
        build_repo_base_path: "build-repo".to_string(),
        collection_id: Some("org.example.Hub".to_string()),
        gpg_homedir: Some("/etc/gpg".to_string()),
        build_gpg_key: Some("DEADBEEF".to_string()),
        base_url: "https://hub.example.org".to_string(),
    }
}

fn build_ref(id: i32, ref_name: &str, commit: &str) -> BuildRef {
    BuildRef { id, build_id: 42, ref_type: 0, ref_name: ref_name.to_string(), commit: commit.to_string() }
}

fn two_refs() -> Vec<BuildRef> {
    vec![build_ref(1, APP_REF, "C1"), build_ref(2, RUNTIME_REF, "C2")]
}

fn commit_job() -> CommitJob {
    CommitJob { build: 42, endoflife: None }
}

fn verifying_build() -> Build {
    Build {
        id: 42,
        created: chrono::NaiveDateTime::default(),
        repo_state: 0,
        repo_state_reason: None,
        published_state: 0,
        published_state_reason: None,
    }
}

fn command(program: &str, args: &[&str]) -> CommandLine {
    CommandLine { program: program.to_string(), args: args.iter().map(|a| a.to_string()).collect() }
}

fn create_dir(path: &str) -> Step {
    Step::CreateDirAll { path: path.to_string() }
}

fn init_steps_of(repo: &str, config: &str) -> Vec<Step> {
    vec![
        create_dir(&format!("{}/extensions", repo)),
        create_dir(&format!("{}/objects", repo)),
        create_dir(&format!("{}/refs/heads", repo)),
        create_dir(&format!("{}/refs/mirrors", repo)),
        create_dir(&format!("{}/refs/remotes", repo)),
        create_dir(&format!("{}/state", repo)),
        create_dir(&format!("{}/tmp/cache", repo)),
        Step::WriteFile { path: format!("{}/config", repo), contents: config.to_string() },
    ]
}

/// Carries a pipeline out on paper: every step is noted, and `answer` says
/// how it went.
fn run(pipeline: &mut Pipeline, answer: &dyn Fn(usize, &Step) -> Outcome) -> Vec<Step> {
    let mut done = Vec::new();
    loop {
        let step = match pipeline.next_step() {
            Some(step) => copy_step(step),
            None => break,
        };
        let outcome = answer(done.len(), &step);
        done.push(step);
        pipeline.advance(&outcome);
    }
    done
}

fn copy_step(step: &Step) -> Step {
    let copy = |c: &CommandLine| CommandLine { program: c.program.clone(), args: c.args.clone() };
    match step {
        Step::CreateDirAll { path } => Step::CreateDirAll { path: path.clone() },
        Step::WriteFile { path, contents } => {
            Step::WriteFile { path: path.clone(), contents: contents.clone() }
        }
        Step::RemoveDirAll { path } => Step::RemoveDirAll { path: path.clone() },
        Step::Run { command, failure } => {
            Step::Run { command: copy(command), failure: failure.clone() }
        }
        Step::Resolve { command, ref_name } => {
            Step::Resolve { command: copy(command), ref_name: ref_name.clone() }
        }
    }
}

fn all_goes_well(_: usize, step: &Step) -> Outcome {
    match step {
        Step::Resolve { ref_name, .. } => {
            Outcome::of_exit(Some(0), &format!("new-{}\n", ref_name).into_bytes(), &Vec::new())
        }
        Step::Run { .. } => Outcome::of_run(Ok((true, "log".to_string(), String::new()))),
        _ => Outcome::of_io(Ok(())),
    }
}

#[test]
fn repo_config_without_collection() {
    assert_eq!(
        repo_config_text(&None, 42, &Some("/srv/repo".to_string())),
        "\n[core]\nrepo_version=1\nmode=archive-z2\nparent=/srv/repo"
    );
}

#[test]
fn repo_config_without_parent() {
    assert_eq!(repo_config_text(&None, 42, &None), "\n[core]\nrepo_version=1\nmode=archive-z2\n");
    assert_eq!(
        repo_config_text(&Some("c".to_string()), -3, &None),
        "\n[core]\nrepo_version=1\nmode=archive-z2\ncollection-id=c.Build-3\n"
    );
}

#[test]
fn repo_config_with_collection() {
    assert_eq!(
        repo_config_text(
            &Some("org.example.Hub".to_string()),
            42,
            &Some("/srv/repo".to_string())
        ),
        "\n[core]\nrepo_version=1\nmode=archive-z2\ncollection-id=org.example.Hub.Build42\nparent=/srv/repo"
    );
}

#[test]
fn build_repo_is_named_by_the_build() {
    assert_eq!(build_repo(&config(), 42), "/srv/build-repo/42");
    assert_eq!(build_repo(&signing_config(), 7), "build-repo/7");
}

#[test]
fn init_steps_lay_out_the_skeleton() {
    let mut steps = vec![create_dir("/before")];
    push_init_steps(&mut steps, "/r", &Some("/srv/repo".to_string()), 3, &Some("c".to_string()));
    let mut expected = vec![create_dir("/before")];
    expected.extend(init_steps_of(
        "/r",
        "\n[core]\nrepo_version=1\nmode=archive-z2\ncollection-id=c.Build3\nparent=/srv/repo",
    ));
    assert_eq!(steps, expected);
}

#[test]
fn commit_plan_of_two_refs() {
    let mut pipeline = commit_pipeline(&config(), "/home/hub", &commit_job(), &two_refs());
    let done = run(&mut pipeline, &all_goes_well);
    let mut expected = init_steps_of(
        "/srv/build-repo/42",
        "\n[core]\nrepo_version=1\nmode=archive-z2\nparent=/srv/repo",
    );
    expected.extend(init_steps_of(
        "/srv/build-repo/42/upload",
        "\n[core]\nrepo_version=1\nmode=archive-z2\n",
    ));
    expected.push(Step::Run {
        command: command(
            "flatpak",
            &[
                "build-commit-from",
                "--timestamp=NOW",
                "--no-update-summary",
                "--untrusted",
                "--force",
                "--disable-fsync",
                "--src-repo=/srv/build-repo/42/upload",
                "--src-ref=C1",
                "/srv/build-repo/42",
                APP_REF,
            ],
        ),
        failure: format!("Failed to build commit for ref {}: ", APP_REF),
    });
    expected.push(Step::Resolve {
        command: command("ostree", &["rev-parse", "--repo=/srv/build-repo/42", APP_REF]),
        ref_name: APP_REF.to_string(),
    });
    expected.push(Step::WriteFile {
        path: "/srv/build-repo/42/org.foo.Bar.flatpakref".to_string(),
        contents: "\n[Flatpak Ref]\nName=org.foo.Bar\nBranch=stable\nUrl=https://hub.example.org/build-repo/42\nRuntimeRepo=https://dl.flathub.org/repo/flathub.flatpakrepo\nIsRuntime=false\n".to_string(),
    });
    expected.push(Step::Run {
        command: command(
            "flatpak",
            &[
                "build-commit-from",
                "--timestamp=NOW",
                "--no-update-summary",
                "--untrusted",
                "--force",
                "--disable-fsync",
                "--src-repo=/srv/build-repo/42/upload",
                "--src-ref=C2",
                "/srv/build-repo/42",
                RUNTIME_REF,
            ],
        ),
        failure: format!("Failed to build commit for ref {}: ", RUNTIME_REF),
    });
    expected.push(Step::Resolve {
        command: command("ostree", &["rev-parse", "--repo=/srv/build-repo/42", RUNTIME_REF]),
        ref_name: RUNTIME_REF.to_string(),
    });
    expected.push(Step::Run {
        command: command("flatpak", &["build-update-repo", "/srv/build-repo/42"]),
        failure: "Failed to updaterepo: ".to_string(),
    });
    expected.push(Step::RemoveDirAll { path: "/srv/build-repo/42/upload".to_string() });
    assert_eq!(done.len(), 23);
    assert_eq!(done, expected);
}

#[test]
fn commit_scenario_success() {
    let executor = JobExecutor::new(config());
    let request = JobRequest::Commit(commit_job());
    let mut pipeline = executor.plan(&request, &two_refs(), "/home/hub");
    let done = run(&mut pipeline, &all_goes_well);
    let result = pipeline.result().unwrap();

    // the payload maps each ref to its new commit
    let results = result.as_ref().unwrap();
    assert_eq!(results.commit_of(APP_REF), Some(format!("new-{}", APP_REF)));
    assert_eq!(results.commit_of(RUNTIME_REF), Some(format!("new-{}", RUNTIME_REF)));
    assert_eq!(results.commit_of("app/org.foo.Other/x86_64/stable"), None);
    assert_eq!(
        *results,
        JobResults::Refs(vec![
            RefCommit { ref_name: APP_REF.to_string(), commit: format!("new-{}", APP_REF) },
            RefCommit { ref_name: RUNTIME_REF.to_string(), commit: format!("new-{}", RUNTIME_REF) },
        ])
    );

    // the application got its pointer file, which names the build's address
    let files: Vec<&Step> = done
        .iter()
        .filter(|s| matches!(s, Step::WriteFile { path, .. } if path.ends_with(".flatpakref")))
        .collect();
    assert_eq!(files.len(), 1);
    match files[0] {
        Step::WriteFile { path, contents } => {
            assert_eq!(path, "/srv/build-repo/42/org.foo.Bar.flatpakref");
            assert!(contents.contains("Name=org.foo.Bar\n"));
            assert!(contents.contains("Branch=stable\n"));
            assert!(contents.contains("Url=https://hub.example.org/build-repo/42\n"));
        }
        _ => unreachable!(),
    }

    // the summary is made once, after the refs, and the upload goes last
    let summaries = done
        .iter()
        .filter(|s| matches!(s, Step::Run { command, .. } if command.args[0] == "build-update-repo"))
        .count();
    assert_eq!(summaries, 1);
    assert_eq!(
        done.last(),
        Some(&Step::RemoveDirAll { path: "/srv/build-repo/42/upload".to_string() })
    );

    // the build becomes ready, the job ends
    let mut build = verifying_build();
    assert!(build.finish_commit(&result));
    assert_eq!(
        RepoState::from_db(build.repo_state, &build.repo_state_reason),
        RepoState::Ready
    );
    assert_eq!(build.repo_state_reason, None);
    let (status, _) = job_outcome(result);
    assert_eq!(status, JobStatus::Ended);
}

#[test]
fn commit_scenario_second_ref_fails() {
    let mut pipeline = commit_pipeline(&config(), "/home/hub", &commit_job(), &two_refs());
    let done = run(&mut pipeline, &|_, step: &Step| match step {
        Step::Run { command, .. } if command.args.contains(&"--src-ref=C2".to_string()) => {
            Outcome::of_run(Ok((false, "log".to_string(), "  error: bad object\n".to_string())))
        }
        other => all_goes_well(0, other),
    });
    let result = pipeline.result().unwrap();
    let message = result.as_ref().unwrap_err().to_string();
    assert_eq!(
        message,
        format!("Failed to build commit for ref {}: error: bad object", RUNTIME_REF)
    );

    // the first ref was committed and looked up, and nothing came after the
    // failed step: no summary, and the upload is still there
    assert_eq!(done.len(), 20);
    assert!(matches!(&done[16], Step::Run { command, .. } if command.args[7] == "--src-ref=C1"));
    assert!(matches!(&done[17], Step::Resolve { ref_name, .. } if ref_name == APP_REF));
    assert!(matches!(&done[18], Step::WriteFile { .. }));
    assert!(matches!(&done[19], Step::Run { command, .. } if command.args[7] == "--src-ref=C2"));
    assert!(!done.iter().any(|s| matches!(s, Step::RemoveDirAll { .. })));
    assert!(!done
        .iter()
        .any(|s| matches!(s, Step::Run { command, .. } if command.args[0] == "build-update-repo")));

    // the build has failed with that reason, the job is broken
    let mut build = verifying_build();
    assert!(build.finish_commit(&result));
    let state = RepoState::from_db(build.repo_state, &build.repo_state_reason);
    assert_eq!(state, RepoState::Failed(message.clone()));
    assert!(message.contains(RUNTIME_REF));
    assert!(message.contains("error: bad object"));
    let (status, results) = job_outcome(result);
    assert_eq!(status, JobStatus::Broken);
    assert_eq!(results, JobResults::Message(message));
}

#[test]
fn commit_always_verifies_and_forces() {
    for config in [config(), signing_config()] {
        for endoflife in [None, Some("use org.foo.Baz".to_string())] {
            let job = CommitJob { build: 42, endoflife };
            let mut pipeline = commit_pipeline(&config, "/home/hub", &job, &two_refs());
            let done = run(&mut pipeline, &all_goes_well);
            let commits: Vec<&CommandLine> = done
                .iter()
                .filter_map(|s| match s {
                    Step::Run { command, .. } if command.args[0] == "build-commit-from" => {
                        Some(command)
                    }
                    _ => None,
                })
                .collect();
            assert_eq!(commits.len(), 2);
            for command in commits {
                assert!(command.args.contains(&"--untrusted".to_string()));
                assert!(command.args.contains(&"--force".to_string()));
            }
        }
    }
}

#[test]
fn commit_plan_is_the_same_when_planned_again() {
    let first = run(
        &mut commit_pipeline(&signing_config(), "/home/hub", &commit_job(), &two_refs()),
        &all_goes_well,
    );
    let second = run(
        &mut commit_pipeline(&signing_config(), "/home/hub", &commit_job(), &two_refs()),
        &all_goes_well,
    );
    assert_eq!(first, second);
}

#[test]
fn commit_with_signing_and_end_of_life() {
    let job = CommitJob { build: 42, endoflife: Some("moved".to_string()) };
    let mut pipeline =
        commit_pipeline(&signing_config(), "/home/hub", &job, &vec![build_ref(1, RUNTIME_REF, "C2")]);
    let done = run(&mut pipeline, &all_goes_well);
    assert_eq!(
        done[16],
        Step::Run {
            command: command(
                "flatpak",
                &[
                    "build-commit-from",
                    "--timestamp=NOW",
                    "--no-update-summary",
                    "--untrusted",
                    "--force",
                    "--disable-fsync",
                    "--gpg-homedir==/etc/gpg",
                    "--gpg-sign==DEADBEEF",
                    "--end-of-life=moved",
                    "--src-repo=build-repo/42/upload",
                    "--src-ref=C2",
                    "build-repo/42",
                    RUNTIME_REF,
                ],
            ),
            failure: format!("Failed to build commit for ref {}: ", RUNTIME_REF),
        }
    );
}

#[test]
fn parent_of_a_new_repo_is_absolute() {
    let mut pipeline = commit_pipeline(
        &signing_config(),
        "/home/hub",
        &commit_job(),
        &vec![build_ref(1, RUNTIME_REF, "C2")],
    );
    let done = run(&mut pipeline, &all_goes_well);
    assert_eq!(
        done[7],
        Step::WriteFile {
            path: "build-repo/42/config".to_string(),
            contents: "\n[core]\nrepo_version=1\nmode=archive-z2\ncollection-id=org.example.Hub.Build42\nparent=/home/hub/repo".to_string(),
        }
    );
    // the uploaded repository has no parent and belongs to no collection
    assert_eq!(
        done[15],
        Step::WriteFile {
            path: "build-repo/42/upload/config".to_string(),
            contents: "\n[core]\nrepo_version=1\nmode=archive-z2\n".to_string(),
        }
    );
}

#[test]
fn commit_of_an_app_ref_without_branch_is_rejected() {
    let refs = vec![build_ref(1, RUNTIME_REF, "C2"), build_ref(2, "app/org.foo.Bar", "C1")];
    let mut pipeline = commit_pipeline(&config(), "/home/hub", &commit_job(), &refs);
    assert!(pipeline.next_step().is_none());
    let done = run(&mut pipeline, &all_goes_well);
    assert!(done.is_empty());
    let error = pipeline.result().unwrap().unwrap_err();
    assert_eq!(error.to_string(), "Invalid ref name app/org.foo.Bar");
}

#[test]
fn first_invalid_ref_is_named() {
    let refs = vec![
        build_ref(1, "app/a/b/c", "C1"),
        build_ref(2, "app/one/two", "C2"),
        build_ref(3, "app/", "C3"),
    ];
    let pipeline = commit_pipeline(&config(), "/home/hub", &commit_job(), &refs);
    assert_eq!(pipeline.result().unwrap().unwrap_err().to_string(), "Invalid ref name app/one/two");
}

#[test]
fn ref_with_more_parts_uses_second_and_fourth() {
    let refs = vec![build_ref(1, "app/org.foo.Bar/x86_64/beta/extra", "C1")];
    let mut pipeline = commit_pipeline(&config(), "/home/hub", &commit_job(), &refs);
    let done = run(&mut pipeline, &all_goes_well);
    match &done[18] {
        Step::WriteFile { path, contents } => {
            assert_eq!(path, "/srv/build-repo/42/org.foo.Bar.flatpakref");
            assert!(contents.contains("\nBranch=beta\n"));
        }
        other => panic!("unexpected step {:?}", other),
    }
}

#[test]
fn refs_that_are_no_apps_need_no_parts() {
    let refs = vec![build_ref(1, "runtime", "C1"), build_ref(2, "application/x", "C2")];
    let mut pipeline = commit_pipeline(&config(), "/home/hub", &commit_job(), &refs);
    let done = run(&mut pipeline, &all_goes_well);
    assert_eq!(done.len(), 16 + 2 + 2 + 2);
    assert!(pipeline.result().unwrap().is_ok());
}

#[test]
fn commit_without_refs_only_lays_out_and_cleans_up() {
    let mut pipeline = commit_pipeline(&config(), "/home/hub", &commit_job(), &Vec::new());
    let done = run(&mut pipeline, &all_goes_well);
    assert_eq!(done.len(), 18);
    assert_eq!(pipeline.result().unwrap().unwrap(), JobResults::Refs(Vec::new()));
}

#[test]
fn later_commit_of_the_same_ref_stands() {
    let refs = vec![build_ref(1, RUNTIME_REF, "C1"), build_ref(2, RUNTIME_REF, "C2")];
    let mut pipeline = commit_pipeline(&config(), "/home/hub", &commit_job(), &refs);
    run(&mut pipeline, &|n, step: &Step| match step {
        Step::Resolve { .. } => Outcome::of_exit(Some(0), &format!("at-{}", n).into_bytes(), &Vec::new()),
        other => all_goes_well(0, other),
    });
    let results = pipeline.result().unwrap().unwrap();
    assert_eq!(results.commit_of(RUNTIME_REF), Some("at-19".to_string()));
}

#[test]
fn pipeline_is_running_until_its_last_step() {
    let mut pipeline = commit_pipeline(&config(), "/home/hub", &commit_job(), &two_refs());
    pipeline.advance(&Outcome::of_io(Ok(())));
    assert!(pipeline.next_step().is_some());
    assert!(pipeline.result().is_none());
}

#[test]
fn file_system_error_ends_the_pipeline() {
    let mut pipeline = commit_pipeline(&config(), "/home/hub", &commit_job(), &two_refs());
    let done = run(&mut pipeline, &|n, step: &Step| {
        if n == 2 {
            Outcome::of_io(Err("Permission denied (os error 13)".to_string()))
        } else {
            all_goes_well(n, step)
        }
    });
    assert_eq!(done.len(), 3);
    assert_eq!(
        pipeline.result().unwrap().unwrap_err().to_string(),
        "Permission denied (os error 13)"
    );
}

#[test]
fn failed_pipeline_ignores_later_outcomes() {
    let mut pipeline = commit_pipeline(&config(), "/home/hub", &commit_job(), &two_refs());
    pipeline.advance(&Outcome::of_io(Err("first".to_string())));
    pipeline.advance(&Outcome::of_io(Ok(())));
    pipeline.advance(&Outcome::of_io(Err("second".to_string())));
    assert!(pipeline.next_step().is_none());
    assert_eq!(pipeline.result().unwrap().unwrap_err().to_string(), "first");
}

#[test]
fn command_that_cannot_start_ends_the_pipeline() {
    let mut pipeline = commit_pipeline(&config(), "/home/hub", &commit_job(), &two_refs());
    run(&mut pipeline, &|_, step: &Step| match step {
        Step::Run { .. } => Outcome::of_run(Err(repo_jobs::command::spawn_error("not found"))),
        other => all_goes_well(0, other),
    });
    assert_eq!(
        pipeline.result().unwrap().unwrap_err().to_string(),
        "Can't start command: not found"
    );
}

#[test]
fn commit_that_cannot_be_found_ends_the_pipeline() {
    let mut pipeline = commit_pipeline(&config(), "/home/hub", &commit_job(), &two_refs());
    let done = run(&mut pipeline, &|_, step: &Step| match step {
        Step::Resolve { .. } => {
            Outcome::of_exit(Some(1), &b"ignored".to_vec(), &b"error: Refspec not found\n".to_vec())
        }
        other => all_goes_well(0, other),
    });
    assert_eq!(done.len(), 18);
    assert_eq!(
        pipeline.result().unwrap().unwrap_err().to_string(),
        format!("Can't find commit for ref {} build refs: error: Refspec not found", APP_REF)
    );
}

#[test]
fn lookup_that_cannot_start_ends_the_pipeline() {
    let mut pipeline = commit_pipeline(&config(), "/home/hub", &commit_job(), &two_refs());
    run(&mut pipeline, &|_, step: &Step| match step {
        Step::Resolve { .. } => Outcome::of_io(Err(" no ostree ".to_string())),
        other => all_goes_well(0, other),
    });
    assert_eq!(
        pipeline.result().unwrap().unwrap_err().to_string(),
        format!("Can't find commit for ref {} build refs:  no ostree ", APP_REF)
    );
}

#[test]
fn failed_summary_keeps_the_upload() {
    let mut pipeline = commit_pipeline(&config(), "/home/hub", &commit_job(), &two_refs());
    let done = run(&mut pipeline, &|_, step: &Step| match step {
        Step::Run { command, .. } if command.args[0] == "build-update-repo" => {
            Outcome::of_run(Ok((false, String::new(), "\nno space left\n".to_string())))
        }
        other => all_goes_well(0, other),
    });
    assert_eq!(done.len(), 22);
    assert!(!done.iter().any(|s| matches!(s, Step::RemoveDirAll { .. })));
    assert_eq!(
        pipeline.result().unwrap().unwrap_err().to_string(),
        "Failed to updaterepo: no space left"
    );
}

#[test]
fn commit_is_trimmed() {
    let mut pipeline =
        commit_pipeline(&config(), "/home/hub", &commit_job(), &vec![build_ref(1, RUNTIME_REF, "C")]);
    run(&mut pipeline, &|_, step: &Step| match step {
        Step::Resolve { .. } => Outcome::of_exit(Some(0), &b"  0123abcd\n\n".to_vec(), &Vec::new()),
        other => all_goes_well(0, other),
    });
    assert_eq!(
        pipeline.result().unwrap().unwrap(),
        JobResults::Refs(vec![RefCommit {
            ref_name: RUNTIME_REF.to_string(),
            commit: "0123abcd".to_string()
        }])
    );
}

#[test]
fn outcome_of_a_command_goes_by_its_exit_code() {
    let out = b"out".to_vec();
    let err = b"err".to_vec();
    assert_eq!(Outcome::of_exit(Some(0), &out, &err), Outcome::Succeeded { output: "out".to_string() });
    assert_eq!(
        Outcome::of_exit(Some(1), &out, &err),
        Outcome::ExitedWithFailure { stderr: "err".to_string() }
    );
    assert_eq!(
        Outcome::of_exit(None, &out, &err),
        Outcome::ExitedWithFailure { stderr: "err".to_string() }
    );
    assert_eq!(
        Outcome::of_exit(Some(0), &vec![0xff], &err),
        Outcome::Succeeded { output: "\u{fffd}".to_string() }
    );
}

#[test]
fn outcome_of_a_run_and_of_the_file_system() {
    assert_eq!(
        Outcome::of_run(Ok((true, "log".to_string(), "err".to_string()))),
        Outcome::Succeeded { output: "log".to_string() }
    );
    assert_eq!(
        Outcome::of_run(Ok((false, "log".to_string(), "err".to_string()))),
        Outcome::ExitedWithFailure { stderr: "err".to_string() }
    );
    assert_eq!(
        Outcome::of_run(Err(JobError::new("Can't wait for command: gone"))),
        Outcome::NotPerformed { error: "Can't wait for command: gone".to_string() }
    );
    assert_eq!(Outcome::of_io(Ok(())), Outcome::Succeeded { output: String::new() });
    assert_eq!(
        Outcome::of_io(Err("denied".to_string())),
        Outcome::NotPerformed { error: "denied".to_string() }
    );
}

#[test]
fn publish_plan() {
    let mut pipeline = publish_pipeline(&config(), &PublishJob { build: 42 });
    let done = run(&mut pipeline, &all_goes_well);
    assert_eq!(
        done,
        vec![
            Step::Run {
                command: command(
                    "flatpak",
                    &[
                        "build-commit-from",
                        "--no-update-summary",
                        "--src-repo=/srv/build-repo/42",
                        "/srv/repo",
                    ],
                ),
                failure: "Failed to publish repo: ".to_string(),
            },
            Step::Run {
                command: command(
                    "flatpak",
                    &["build-update-repo", "--generate-static-deltas", "/srv/repo"],
                ),
                failure: "Failed to update repo: ".to_string(),
            },
        ]
    );
    assert_eq!(pipeline.result().unwrap().unwrap(), JobResults::Empty);
}

#[test]
fn publish_plan_with_signing() {
    let executor = JobExecutor::new(signing_config());
    let request = JobRequest::Publish(PublishJob { build: 7 });
    let mut pipeline = executor.plan(&request, &two_refs(), "/home/hub");
    let done = run(&mut pipeline, &all_goes_well);
    assert_eq!(
        done[0],
        Step::Run {
            command: command(
                "flatpak",
                &[
                    "build-commit-from",
                    "--no-update-summary",
                    "--gpg-homedir==/etc/gpg",
                    "--gpg-sign==DEADBEEF",
                    "--src-repo=build-repo/7",
                    "repo",
                ],
            ),
            failure: "Failed to publish repo: ".to_string(),
        }
    );
    assert_eq!(done.len(), 2);
}

#[test]
fn publish_fails_at_either_step() {
    let mut pipeline = publish_pipeline(&config(), &PublishJob { build: 42 });
    let done = run(&mut pipeline, &|_, _: &Step| {
        Outcome::of_run(Ok((false, String::new(), " denied \n".to_string())))
    });
    assert_eq!(done.len(), 1);
    assert_eq!(pipeline.result().unwrap().unwrap_err().to_string(), "Failed to publish repo: denied");

    let mut pipeline = publish_pipeline(&config(), &PublishJob { build: 42 });
    let done = run(&mut pipeline, &|n, step: &Step| {
        if n == 1 {
            Outcome::of_run(Ok((false, String::new(), "no deltas".to_string())))
        } else {
            all_goes_well(n, step)
        }
    });
    assert_eq!(done.len(), 2);
    assert_eq!(
        pipeline.result().unwrap().unwrap_err().to_string(),
        "Failed to update repo: no deltas"
    );
}

#[test]
fn pipeline_of_given_steps() {
    let mut pipeline = Pipeline::new(vec![create_dir("/a"), create_dir("/b")], false);
    assert_eq!(pipeline.next_step(), Some(&create_dir("/a")));
    pipeline.advance(&Outcome::of_io(Ok(())));
    assert_eq!(pipeline.next_step(), Some(&create_dir("/b")));
    pipeline.advance(&Outcome::ExitedWithFailure { stderr: " odd \n".to_string() });
    assert_eq!(pipeline.next_step(), None);
    assert_eq!(pipeline.result().unwrap().unwrap_err().to_string(), "odd");
}

#[test]
fn rejected_pipeline_has_failed() {
    let pipeline = Pipeline::rejected(JobError::new("no"));
    assert!(pipeline.next_step().is_none());
    assert_eq!(pipeline.result().unwrap().unwrap_err().to_string(), "no");
}

#[test]
fn empty_pipeline_has_ended() {
    let pipeline = Pipeline::new(Vec::new(), true);
    assert!(pipeline.next_step().is_none());
    assert_eq!(pipeline.result().unwrap().unwrap(), JobResults::Refs(Vec::new()));
    let pipeline = Pipeline::new(Vec::new(), false);
    assert_eq!(pipeline.result().unwrap().unwrap(), JobResults::Empty);
}
