use sparrow::cfg::{CodeMappingConfig, ConfigSourceConfig, LocalCodeSourceConfig, LocalHostConfig, PayloadMappingConfig, QuickRunConfig, RemoteCodeSourceConfig, RemoteHostConfig};
use sparrow::payload::build_payload_mapping;
use sparrow::host::{build_host, tmpname, Host, HostError, LocalHost, RunOutputSyncOptions, OutputSyncError};
use sparrow::payload::{AuxiliaryMapping, CodeMapping, CodeSource};
use sparrow::quick_run::{
    build_quick_run_towel_job_script, quick_run_towel_job_submission_options, QuickRunController, QuickRunPrepOptions,
    QuickRunPreparationOptions, QuickRunState, ReadinessStep, OUTPUT_CHUNK_COUNT_MAX,
};
use sparrow::run_id::RunID;
use sparrow::runner::{escape_single_quotes, review_command, tmux_wrap, DefaultRunner, Snakemake};
use sparrow::staging::{plan_run_directory, MaterializationStep, PrepareError};

fn s(x: &str) -> String {
    x.to_string()
}

fn quick_run_config() -> QuickRunConfig {
    QuickRunConfig {
        account: s("proj"),
        service_quality: None,
        constraint: Some(s("a100")),
        partitions: None,
        time: s("02:00:00"),
        cpu_count: 8,
        gpu_count: 1,
        fast_access_container_requests: vec![s("/data/img.sif")],
        node_local_storage_path: s("/local"),
    }
}

fn remotes() -> Vec<(String, RemoteHostConfig)> {
    vec![(
        s("cluster"),
        RemoteHostConfig {
            hostname: s("login.example.org"),
            script_run_command_template: None,
            run_output_base_dir: s("/scratch/out"),
            temporary_dir: s("/scratch/tmp"),
            quick_run: quick_run_config(),
        },
    )]
}

fn local_config() -> LocalHostConfig {
    LocalHostConfig { run_output_base_dir: s("/home/u/out"), script_run_command_template: Some(s("sh {}")) }
}

fn cluster(quick: bool) -> Host {
    build_host("cluster", &local_config(), &remotes(), quick).unwrap()
}

fn preparation() -> QuickRunPreparationOptions {
    QuickRunPreparationOptions { slurm_account: s("proj"), slurm_service_quality: Some(s("normal")), node_local_storage_path: s("/local") }
}

#[test]
fn hosts_are_built_by_id() {
    let local = build_host("local", &local_config(), &remotes(), false).unwrap();
    assert!(local.is_local());
    assert_eq!(local.id(), "local");
    assert_eq!(local.hostname(), "localhost");
    assert_eq!(local.script_run_command("./run.sh"), "sh ./run.sh");
    assert!(matches!(build_host("local", &local_config(), &remotes(), true), Err(HostError::QuickRunOnLocalHost)));
    match build_host("missing", &local_config(), &remotes(), false) {
        Err(HostError::UnknownHost(id)) => assert_eq!(id, "missing"),
        _ => panic!("expected an unknown host"),
    }
    let c = cluster(false);
    assert!(!c.is_local());
    assert_eq!(c.hostname(), "login.example.org");
    assert!(!c.is_configured_for_quick_run());
    assert_eq!(c.script_run_command("./run.sh"), "bash ./run.sh");
    let q = cluster(true);
    assert_eq!(q.hostname(), "login.example.org-quick");
    assert!(q.is_configured_for_quick_run());
    let info = q.info();
    assert_eq!(info.id, "cluster");
    assert_eq!(info.run_output_base_dir_path, "/scratch/out");
    assert!(info.is_configured_for_quick_run);
}

#[test]
fn reproduction_paths_live_under_the_run() {
    let host = Host::Local(LocalHost::new("/out", s("bash {}")));
    let id = RunID::new("r", "g");
    assert_eq!(host.config_dir_destination_path(&id), "/out/g/r/reproduce_info/config");
    assert_eq!(host.code_versions_file_destination_path(&id), "/out/g/r/reproduce_info/code_versions.txt");
}

#[test]
fn towel_job_script_stages_fast_access_files() {
    let script = build_quick_run_towel_job_script(&vec![s("/data/img.sif")], "/local");
    assert_eq!(
        script,
        "#!/bin/bash\nfor container_file in /data/img.sif; do\nrsync --progress $container_file /local/\ndone\nprintf \"Going to sleep...\"\nsleep 1d"
    );
    assert!(script.contains("/data/img.sif"));
    assert!(script.ends_with("printf \"Going to sleep...\"\nsleep 1d"));
    let plain = build_quick_run_towel_job_script(&vec![], "/local");
    assert_eq!(plain, "#!/bin/bash\n\nprintf \"Going to sleep...\"\nsleep 1d");
}

#[test]
fn towel_job_submission_options() {
    let options = quick_run_towel_job_submission_options("proj", Some("high"), Some("a100"), &Some(vec![s("gpu"), s("gpu2")]), "1:00:00", 16, 2);
    assert_eq!(
        options,
        vec![
            "--account=proj", "--qos=high", "--partition=gpu,gpu2", "--constraint=a100", "--job-name=quick-run-towel",
            "--nodes=1-1", "--time=1:00:00", "--cpus-per-task=16", "--gpus=2"
        ]
    );
    let options = quick_run_towel_job_submission_options("proj", None, None, &None, "5", 0, 0);
    assert_eq!(options, vec!["--account=proj", "--job-name=quick-run-towel", "--nodes=1-1", "--time=5", "--cpus-per-task=0", "--gpus=0"]);
}

#[test]
fn prep_options_fall_back_to_configuration() {
    let QuickRunPrepOptions::SlurmCluster { constraint, partitions, time, cpu_count, gpu_count, fast_access_container_paths } =
        QuickRunPrepOptions::build(Some("00:30:00"), None, Some(4), None, &quick_run_config());
    assert_eq!(constraint, Some(s("a100")));
    assert_eq!(partitions, None);
    assert_eq!(time, "00:30:00");
    assert_eq!(cpu_count, 8);
    assert_eq!(gpu_count, 4);
    assert_eq!(fast_access_container_paths, vec![s("/data/img.sif")]);
}

/// A scheduler that tracks whether the placeholder job runs.
struct SchedulerStub {
    running: bool,
}

impl SchedulerStub {
    fn listing(&self) -> String {
        if self.running { s("R\n") } else { s("") }
    }
}

#[test]
fn allocation_round_trip_against_a_tracking_scheduler() {
    let mut stub = SchedulerStub { running: false };
    let mut controller = QuickRunController::new(preparation());
    assert!(!controller.is_allocated(&stub.listing()));
    let options = QuickRunPrepOptions::build(None, None, None, None, &quick_run_config());
    let submission = controller.allocate(&options);
    assert_eq!(submission.command.program, "salloc");
    assert_eq!(&submission.command.args[..2], &[s("--account=proj"), s("--qos=normal")]);
    assert_eq!(&submission.command.args[submission.command.args.len() - 4..], &[s("--"), s("bash"), s("-c"), s("bash -")]);
    assert!(submission.script.contains("/data/img.sif"));
    controller.submitted();
    stub.running = true;
    assert_eq!(controller.observe_output("salloc: Granted job allocation 1"), ReadinessStep::Continue);
    assert_eq!(controller.observe_output("Going to sleep..."), ReadinessStep::Ready);
    assert_eq!(controller.state, QuickRunState::Allocated);
    assert!(controller.is_allocated(&stub.listing()));
    assert!(controller.is_allocated(&stub.listing()));
    let cancel = controller.deallocate();
    assert_eq!(cancel.display(), "\"scancel\" \"--name\" \"quick-run-towel\"");
    stub.running = false;
    assert_eq!(controller.cancel_finished(true), Ok(()));
    assert!(!controller.is_allocated(&stub.listing()));
    assert!(!controller.is_allocated(&stub.listing()));
}

#[test]
fn allocation_query_is_idempotent() {
    let mut controller = QuickRunController::new(preparation());
    let first = controller.is_allocated("  R  \n");
    let second = controller.is_allocated("  R  \n");
    assert!(first);
    assert_eq!(first, second);
    assert!(!controller.is_allocated("PD\n"));
    assert!(!controller.is_allocated("R\nR\n"));
    let query = QuickRunController::allocation_query_command();
    assert_eq!(query.args[1], "squeue --noheader --format %t --user $USER --name quick-run-towel");
}

#[test]
fn readiness_poll_is_bounded() {
    let mut controller = QuickRunController::new(preparation());
    let _ = controller.allocate(&QuickRunPrepOptions::build(None, None, None, None, &quick_run_config()));
    controller.submitted();
    for _ in 0..OUTPUT_CHUNK_COUNT_MAX - 1 {
        assert_eq!(controller.observe_output(""), ReadinessStep::Continue);
    }
    assert_eq!(controller.observe_output(""), ReadinessStep::Exhausted);
    assert_eq!(controller.state, QuickRunState::Unallocated);
}

#[test]
fn failed_cancel_is_an_error() {
    let mut controller = QuickRunController::new(preparation());
    let _ = controller.deallocate();
    assert!(controller.cancel_finished(false).is_err());
    assert_eq!(controller.state, QuickRunState::Deallocating);
}

#[test]
fn local_host_needs_no_quick_run_preparation() {
    let mut host = Host::Local(LocalHost::new("/out", s("bash {}")));
    let options = QuickRunPrepOptions::build(None, None, None, None, &quick_run_config());
    assert!(host.prepare_quick_run(&options).is_none());
    assert!(host.quick_run_is_prepared_command().is_none());
    assert!(host.clear_preparation().is_none());
    let mut c = cluster(false);
    assert!(c.prepare_quick_run(&options).is_some());
}

#[test]
fn anti_clobber_marker_gates_output_sync() {
    let Host::SlurmCluster(h) = cluster(false) else { panic!("expected a cluster") };
    let id = RunID::new("r", "g");
    let plain = RunOutputSyncOptions { excludes: vec![s("*.ckpt")], ignore_from_remote_marker: false };
    match h.plan_sync(&id, "/home/u/out", &plain, true, false) {
        Err(OutputSyncError::MarkerMissing(d)) => assert_eq!(d, "/home/u/out/g/r"),
        _ => panic!("expected a refusal"),
    }
    let plan = h.plan_sync(&id, "/home/u/out", &plain, true, true).ok().unwrap();
    assert!(!plan.create_destination);
    assert_eq!(plan.marker_path, "/home/u/out/g/r/.from_remote");
    assert_eq!(plan.source, "/scratch/out/g/r");
    let forced = RunOutputSyncOptions { excludes: vec![], ignore_from_remote_marker: true };
    assert!(h.plan_sync(&id, "/home/u/out", &forced, true, false).is_ok());
    let fresh = h.plan_sync(&id, "/home/u/out", &plain, false, false).ok().unwrap();
    assert!(fresh.create_destination);
    assert_eq!(fresh.excludes, vec![s("*.ckpt")]);
}

#[test]
fn cluster_commands() {
    let Host::SlurmCluster(h) = cluster(false) else { panic!("expected a cluster") };
    let id = RunID::new("r", "g");
    assert_eq!(h.runs_command().display(), "\"find\" \"/scratch/out\" \"-mindepth\" \"2\" \"-maxdepth\" \"2\" \"-type\" \"d\"");
    assert_eq!(h.attach_command(&id), "ssh -tt login.example.org 'exec tmux attach-session -t g/r'");
    assert_eq!(h.tail_log_command(&id, "logs/a.log", true), "ssh -tt login.example.org 'exec tail -Fq /scratch/out/g/r/logs/a.log'");
    assert_eq!(h.tail_log_command(&id, "logs/a.log", false), "ssh -tt login.example.org 'exec cat /scratch/out/g/r/logs/a.log'");
    assert_eq!(
        h.log_file_paths(&id, "/scratch/out/g/r/logs/a.log\n/scratch/out/g/r/logs/b/c.log\n/elsewhere/x.log\n"),
        vec!["logs/a.log", "logs/b/c.log"]
    );
    assert_eq!(h.run_directory_path("run.ab12"), "/scratch/tmp/run.ab12");
}

#[test]
fn tmpname_has_random_alphanumeric_middle() {
    let name = tmpname("run.", ".d", 4);
    assert_eq!(name.len(), 10);
    assert!(name.starts_with("run."));
    assert!(name.ends_with(".d"));
    assert!(name[4..8].chars().all(|c| c.is_ascii_alphanumeric()));
}

fn local_code(target: &str) -> CodeMapping {
    CodeMapping { id: s("model"), source: CodeSource::Local { path: s("/work"), copy_excludes: vec![] }, target_path: s(target) }
}

#[test]
fn staging_plan_for_one_local_component() {
    let steps = plan_run_directory("/tmp/stage", &vec![local_code("code")], &vec![], "/tmp/script").ok().unwrap();
    assert_eq!(steps.len(), 2);
    match &steps[0] {
        MaterializationStep::CopyDirectory { source, destination, excludes } => {
            assert_eq!(source, "/work");
            assert_eq!(destination, "/tmp/stage/code");
            assert!(excludes.is_empty());
        }
        _ => panic!("expected a copy"),
    }
    match &steps[1] {
        MaterializationStep::CopyFile { source, destination } => {
            assert_eq!(source, "/tmp/script");
            assert_eq!(destination, "/tmp/stage/run.sh");
        }
        _ => panic!("expected the run script"),
    }
}

#[test]
fn staging_plan_rejects_escaping_targets() {
    for target in ["..", "../x", "a/../../b", "/abs", "a/.."] {
        match plan_run_directory("/tmp/stage", &vec![local_code(target)], &vec![], "/tmp/script") {
            Err(PrepareError::UnsafeTarget(t)) => assert_eq!(t, target),
            Ok(_) => panic!("{target} should be refused"),
        }
    }
    let aux = AuxiliaryMapping { source_path: s("/images"), target_path: s("../images"), copy_excludes: vec![] };
    assert!(plan_run_directory("/tmp/stage", &vec![], &vec![aux], "/tmp/script").is_err());
    let remote = CodeMapping {
        id: s("data"),
        source: CodeSource::Remote { url: s("ssh://git@example.org/d.git"), git_revision: s("abc123") },
        target_path: s("deps/..data"),
    };
    let steps = plan_run_directory("/tmp/stage", &vec![remote], &vec![], "/tmp/script").ok().unwrap();
    match &steps[0] {
        MaterializationStep::UnpackRevision { url, git_revision, destination } => {
            assert_eq!(url, "ssh://git@example.org/d.git");
            assert_eq!(git_revision, "abc123");
            assert_eq!(destination, "/tmp/stage/deps/..data");
        }
        _ => panic!("expected a checkout"),
    }
}

#[test]
fn quoting_for_nested_shells() {
    assert_eq!(escape_single_quotes("echo 'hi'"), "echo '\"'\"'hi'\"'\"'");
    assert_eq!(tmux_wrap("cd /x && bash ./run.sh", "g/r"), "exec tmux new-session -s g/r 'cd /x && bash ./run.sh; bash'");
}

#[test]
fn run_commands_local_and_remote() {
    let runner = DefaultRunner::new(&vec![s("--fast")], &vec![s("TOKEN")], &vec![(s("k"), s("v"))]);
    assert_eq!(runner.info().cmdline, "--fast");
    let local = Host::Local(LocalHost::new("/out", s("bash {}")));
    assert_eq!(runner.local_run_command(&local, "/tmp/stage"), "cd /tmp/stage && bash ./run.sh");
    let remote = cluster(false);
    let id = RunID::new("r", "g");
    let cmd = runner.remote_run_command(&remote, "/scratch/tmp/run.x", &id, &vec![(s("TOKEN"), s("abc"))]);
    assert_eq!(
        cmd,
        "ssh -qtt login.example.org 'cd /scratch/tmp/run.x && TOKEN='\"'\"'abc'\"'\"' exec tmux new-session -s g/r '\"'\"'cd /scratch/tmp/run.x && bash ./run.sh; bash'\"'\"''"
    );
    let bare = runner.remote_run_command(&remote, "/d", &id, &vec![]);
    assert!(bare.starts_with("ssh -qtt login.example.org 'cd /d &&  exec tmux"));
    assert_eq!(Snakemake::new(&vec![s("-j4")]).cmdline, vec![s("-j4")]);
}

#[test]
fn review_opens_the_entrypoint() {
    let c = review_command("xterm", "vim", "/tmp/review", "/tmp/review/main.yaml");
    assert_eq!(c.program, "xterm");
    assert_eq!(c.args, vec!["-e", "bash", "-c", "cd /tmp/review && vim /tmp/review/main.yaml"]);
}

#[test]
fn scenario_one_local_component_run_preparation() {
    let config = PayloadMappingConfig {
        code: vec![CodeMappingConfig {
            id: s("main"),
            local: LocalCodeSourceConfig {
                path: s("/work"),
                no_config_exclude: true,
                gitignore_exclude_additions: None,
                gitignore_exclude_subtractions: None,
            },
            remote: RemoteCodeSourceConfig { url: s("ssh://git@example.org/main.git"), revision: s("v1") },
            target: s("code"),
        }],
        config: ConfigSourceConfig { dir: s("conf"), entrypoint: s("conf/main.yaml") },
        auxiliary: None,
    };
    let mapping = build_payload_mapping(&config, None, &vec![s("main")], "/work", "").unwrap();
    assert_eq!(mapping.config_source.dir_path, "/work/conf");
    let host = build_host("local", &local_config(), &remotes(), false).unwrap();
    let steps = plan_run_directory("/tmp/stage", &mapping.code_mappings, &mapping.auxiliary_mappings, "/tmp/run-script").ok().unwrap();
    assert_eq!(steps.len(), 2);
    match &steps[0] {
        MaterializationStep::CopyDirectory { source, destination, excludes } => {
            assert_eq!(source, "/work");
            assert_eq!(destination, "/tmp/stage/code");
            assert_eq!(excludes, &vec![s("/.git/")]);
        }
        _ => panic!("expected a copy of the working tree"),
    }
    match &steps[1] {
        MaterializationStep::CopyFile { destination, .. } => assert_eq!(destination, "/tmp/stage/run.sh"),
        _ => panic!("expected the run script"),
    }
    let id = RunID::new("first", "tests");
    let plan = host.plan_config_directory(&mapping.config_source, &id, &mapping.code_mappings, "/tmp/review");
    assert_eq!(plan.destination, "/home/u/out/tests/first/reproduce_info/config");
    assert_eq!(plan.versions_destination, "/home/u/out/tests/first/reproduce_info/code_versions.txt");
    assert_eq!(plan.versions_manifest, "");
    assert_eq!(plan.review_entrypoint, "/tmp/review/main.yaml");
    assert_eq!(plan.source, "/work/conf");
    assert!(plan.copy_options.copy_contents && plan.copy_options.resolve_symlinks && !plan.copy_options.delete);
    assert!(plan.upload_options.copy_contents && plan.upload_options.delete && !plan.upload_options.resolve_symlinks);
    assert!(!plan.versions_upload_options.copy_contents && !plan.versions_upload_options.delete);
}

#[test]
fn held_node_needs_no_new_submission() {
    let mut c = cluster(false);
    if let Host::SlurmCluster(h) = &mut c {
        assert!(h.quick_run.is_allocated("R\u{b}"));
    }
    let options = QuickRunPrepOptions::build(None, None, None, None, &quick_run_config());
    assert!(c.prepare_quick_run(&options).is_none());
    if let Host::SlurmCluster(h) = &mut c {
        assert!(!h.quick_run.is_allocated(""));
    }
    assert!(c.prepare_quick_run(&options).is_some());
}
