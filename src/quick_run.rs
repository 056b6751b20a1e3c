//! The quick-run protocol: a node of the batch scheduler is held by a
//! placeholder ("towel") job that stages files, prints a fixed line and then
//! sleeps; the protocol submits it, waits for that line, looks the job up by
//! its fixed name and cancels it by that name.
use crate::cfg::QuickRunConfig;
use crate::command::CommandLine;
use crate::text;
use vstd::prelude::*;

verus! {

/// The name under which the placeholder job is submitted, looked up and
/// cancelled.
pub const QUICK_RUN_TOWEL_JOB_NAME: &'static str = "quick-run-towel";

/// The line the placeholder job prints once it runs on its node.
pub const READY_SIGNAL: &'static str = "Going to sleep...";

/// How many chunks of the submission's output are read, at most, while
/// waiting for the ready signal.
pub const OUTPUT_CHUNK_COUNT_MAX: u16 = 10000;

/// How many bytes one chunk of the submission's output holds, at most.
pub const OUTPUT_CHUNK_SIZE: usize = 1000;

/// The settings of a cluster's quick runs that do not change between
/// allocations.
pub struct QuickRunPreparationOptions {
    pub slurm_account: String,
    pub slurm_service_quality: Option<String>,
    pub node_local_storage_path: String,
}

/// What one allocation asks the scheduler for.
pub enum QuickRunPrepOptions {
    SlurmCluster {
        constraint: Option<String>,
        partitions: Option<Vec<String>>,
        time: String,
        cpu_count: u16,
        gpu_count: u16,
        fast_access_container_paths: Vec<String>,
    },
}

pub open spec fn opt_seq(o: Option<String>) -> Option<Seq<char>> {
    match o {
        Some(s) => Some(s@),
        None => None,
    }
}

pub open spec fn opt_str_seq(o: Option<&str>) -> Option<Seq<char>> {
    match o {
        Some(s) => Some(s@),
        None => None,
    }
}

pub open spec fn opt_strings(o: Option<Vec<String>>) -> Option<Seq<Seq<char>>> {
    match o {
        Some(v) => Some(v.deep_view()),
        None => None,
    }
}

fn copy_opt_string(o: &Option<String>) -> (r: Option<String>)
    ensures
        opt_seq(r) == opt_seq(*o),
{
    match o {
        Some(s) => Some(s.clone()),
        None => None,
    }
}

fn copy_opt_strings(o: &Option<Vec<String>>) -> (r: Option<Vec<String>>)
    ensures
        opt_strings(r) == opt_strings(*o),
{
    match o {
        Some(v) => Some(text::copy_strings(v)),
        None => None,
    }
}

impl QuickRunPrepOptions {
    /// The request for one allocation: each value given here, else the
    /// configured default.
    pub fn build(
        time: Option<&str>,
        cpu_count: Option<u16>,
        gpu_count: Option<u16>,
        constraint: Option<String>,
        quick_run_config: &QuickRunConfig,
    ) -> (r: QuickRunPrepOptions)
        ensures
            match r {
                QuickRunPrepOptions::SlurmCluster {
                    constraint: c,
                    partitions,
                    time: t,
                    cpu_count: cpu,
                    gpu_count: gpu,
                    fast_access_container_paths,
                } => {
                    &&& opt_seq(c) == (if constraint is Some {
                        opt_seq(constraint)
                    } else {
                        opt_seq(quick_run_config.constraint)
                    })
                    &&& opt_strings(partitions) == opt_strings(quick_run_config.partitions)
                    &&& t@ == (match time {
                        Some(x) => x@,
                        None => quick_run_config.time@,
                    })
                    &&& cpu == (match cpu_count {
                        Some(x) => x,
                        None => quick_run_config.cpu_count,
                    })
                    &&& gpu == (match gpu_count {
                        Some(x) => x,
                        None => quick_run_config.gpu_count,
                    })
                    &&& fast_access_container_paths.deep_view()
                        == quick_run_config.fast_access_container_requests.deep_view()
                },
            },
    {
        let c = match constraint {
            Some(x) => Some(x),
            None => copy_opt_string(&quick_run_config.constraint),
        };
        let t = match time {
            Some(x) => x.to_owned(),
            None => quick_run_config.time.clone(),
        };
        let cpu = match cpu_count {
            Some(x) => x,
            None => quick_run_config.cpu_count,
        };
        let gpu = match gpu_count {
            Some(x) => x,
            None => quick_run_config.gpu_count,
        };
        QuickRunPrepOptions::SlurmCluster {
            constraint: c,
            partitions: copy_opt_strings(&quick_run_config.partitions),
            time: t,
            cpu_count: cpu,
            gpu_count: gpu,
            fast_access_container_paths: text::copy_strings(
                &quick_run_config.fast_access_container_requests,
            ),
        }
    }
}

/// The loop that stages each fast-access file onto the node's local storage;
/// nothing where there is no such file.
pub open spec fn container_copy_loop_spec(paths: Seq<Seq<char>>, storage: Seq<char>) -> Seq<char> {
    if paths.len() == 0 {
        Seq::empty()
    } else {
        "for container_file in "@ + text::join_spec(paths, " "@)
            + "; do\nrsync --progress $container_file "@ + storage + "/\ndone"@
    }
}

/// The script of the placeholder job: the staging loop, the ready signal,
/// then a day of sleep.
pub open spec fn towel_job_script_spec(paths: Seq<Seq<char>>, storage: Seq<char>) -> Seq<char> {
    "#!/bin/bash\n"@ + container_copy_loop_spec(paths, storage) + "\n"@
        + "printf \"Going to sleep...\"\n"@ + "sleep 1d"@
}

/// The script that the placeholder job runs.
pub fn build_quick_run_towel_job_script(
    fast_access_container_paths: &Vec<String>,
    node_local_storage_path: &str,
) -> (r: String)
    ensures
        r@ == towel_job_script_spec(fast_access_container_paths.deep_view(), node_local_storage_path@),
{
    let mut script = "#!/bin/bash\n".to_owned();
    if fast_access_container_paths.len() > 0 {
        let joined = text::join(fast_access_container_paths, " ");
        script.append("for container_file in ");
        script.append(joined.as_str());
        script.append("; do\nrsync --progress $container_file ");
        script.append(node_local_storage_path);
        script.append("/\ndone");
    }
    script.append("\n");
    script.append("printf \"Going to sleep...\"\n");
    script.append("sleep 1d");
    assert(script@ =~= towel_job_script_spec(
        fast_access_container_paths.deep_view(),
        node_local_storage_path@,
    ));
    script
}

pub open spec fn option_argument(o: Option<Seq<char>>, flag: Seq<char>) -> Seq<Seq<char>> {
    match o {
        Some(v) => seq![flag + v],
        None => Seq::empty(),
    }
}

/// The scheduler options of the placeholder job: account, quality of service,
/// partitions and constraint where given, then the fixed name, one node, and
/// the time, cpus and gpus asked for.
pub open spec fn submission_options_spec(
    account: Seq<char>,
    quality_of_service: Option<Seq<char>>,
    constraint: Option<Seq<char>>,
    partitions: Option<Seq<Seq<char>>>,
    time: Seq<char>,
    cpu_count: u16,
    gpu_count: u16,
) -> Seq<Seq<char>> {
    seq!["--account="@ + account] + option_argument(quality_of_service, "--qos="@) + (
    match partitions {
        Some(p) => seq!["--partition="@ + text::join_spec(p, ","@)],
        None => Seq::empty(),
    }) + option_argument(constraint, "--constraint="@) + seq![
        "--job-name="@ + QUICK_RUN_TOWEL_JOB_NAME@,
        "--nodes=1-1"@,
        "--time="@ + time,
        "--cpus-per-task="@ + text::decimal_spec(cpu_count as nat),
        "--gpus="@ + text::decimal_spec(gpu_count as nat),
    ]
}

/// The scheduler options of the placeholder job.
pub fn quick_run_towel_job_submission_options(
    account: &str,
    quality_of_service: Option<&str>,
    constraint: Option<&str>,
    partitions: &Option<Vec<String>>,
    time: &str,
    cpu_count: u16,
    gpu_count: u16,
) -> (r: Vec<String>)
    ensures
        r.deep_view() == submission_options_spec(
            account@,
            opt_str_seq(quality_of_service),
            opt_str_seq(constraint),
            opt_strings(*partitions),
            time@,
            cpu_count,
            gpu_count,
        ),
{
    let mut options: Vec<String> = Vec::new();
    text::push_string(&mut options, text::concat("--account=", account));
    let ghost a = options.deep_view();
    match quality_of_service {
        Some(q) => text::push_string(&mut options, text::concat("--qos=", q)),
        None => {},
    }
    let ghost b = options.deep_view();
    assert(b =~= a + option_argument(opt_str_seq(quality_of_service), "--qos="@));
    match partitions {
        Some(p) => {
            let joined = text::join(p, ",");
            text::push_string(&mut options, text::concat("--partition=", joined.as_str()));
        },
        None => {},
    }
    let ghost c = options.deep_view();
    match constraint {
        Some(x) => text::push_string(&mut options, text::concat("--constraint=", x)),
        None => {},
    }
    let ghost d = options.deep_view();
    assert(d =~= c + option_argument(opt_str_seq(constraint), "--constraint="@));
    text::push_string(&mut options, text::concat("--job-name=", QUICK_RUN_TOWEL_JOB_NAME));
    text::push_string(&mut options, "--nodes=1-1".to_owned());
    text::push_string(&mut options, text::concat("--time=", time));
    let cpus = text::decimal(cpu_count as u64);
    text::push_string(&mut options, text::concat("--cpus-per-task=", cpus.as_str()));
    let gpus = text::decimal(gpu_count as u64);
    text::push_string(&mut options, text::concat("--gpus=", gpus.as_str()));
    assert(options.deep_view() =~= submission_options_spec(
        account@,
        opt_str_seq(quality_of_service),
        opt_str_seq(constraint),
        opt_strings(*partitions),
        time@,
        cpu_count,
        gpu_count,
    ));
    options
}


/// Where the allocation protocol stands, as far as this process knows.
#[derive(Clone, Copy, Debug, PartialEq, Eq, Structural)]
pub enum QuickRunState {
    Unallocated,
    /// The placeholder job is being handed to the scheduler.
    Submitting,
    /// The job is submitted; `chunks_read` chunks of its output have come
    /// without the ready signal.
    AwaitingReadySignal { chunks_read: u16 },
    Allocated,
    /// The job is being cancelled; after a failed cancellation the state
    /// stays here, since whether the node is still held is then unknown.
    Deallocating,
}

/// What one chunk of the submission's output means.
#[derive(Clone, Copy, Debug, PartialEq, Eq, Structural)]
pub enum ReadinessStep {
    /// The ready signal came: the node is held.
    Ready,
    /// Keep reading.
    Continue,
    /// The bound on chunks is used up without the signal: the handshake
    /// failed.
    Exhausted,
}

/// Why a step of the protocol failed.
#[derive(Clone, Copy, Debug, PartialEq, Eq, Structural)]
pub enum QuickRunError {
    /// The output ended, could not be read, or the bound on chunks was used up
    /// before the ready signal.
    ReadySignalMissing,
    /// The scheduler refused to cancel the job.
    CancelFailed,
    /// The job listing could not be obtained.
    ListingFailed,
}

/// The state after a chunk of output: the signal completes the allocation; any
/// other chunk counts, and the last allowed one ends the attempt.
pub open spec fn state_after_output(chunks_read: u16, chunk: Seq<char>) -> QuickRunState {
    if chunk == READY_SIGNAL@ {
        QuickRunState::Allocated
    } else if chunks_read + 1 >= OUTPUT_CHUNK_COUNT_MAX {
        QuickRunState::Unallocated
    } else {
        QuickRunState::AwaitingReadySignal { chunks_read: (chunks_read + 1) as u16 }
    }
}

pub open spec fn step_after_output(chunks_read: u16, chunk: Seq<char>) -> ReadinessStep {
    if chunk == READY_SIGNAL@ {
        ReadinessStep::Ready
    } else if chunks_read + 1 >= OUTPUT_CHUNK_COUNT_MAX {
        ReadinessStep::Exhausted
    } else {
        ReadinessStep::Continue
    }
}

/// The scheduler's listing of the placeholder job (its state code, one line
/// per job of that name and user) shows it running: it is exactly `R` once
/// the surrounding whitespace is gone.
pub open spec fn listing_shows_allocated(listing: Seq<char>) -> bool {
    text::trim_spec(listing) == "R"@
}

/// What the listing holds where a scheduler tracks the job: the running state
/// code on one line while the job runs, nothing once it is gone.
pub open spec fn towel_job_listing(running: bool) -> Seq<char> {
    if running {
        "R\n"@
    } else {
        Seq::empty()
    }
}

/// The state after a look at the listing: it alone decides.
pub open spec fn state_after_listing(listing: Seq<char>) -> QuickRunState {
    if listing_shows_allocated(listing) {
        QuickRunState::Allocated
    } else {
        QuickRunState::Unallocated
    }
}

/// A state in which no exchange with the scheduler is under way.
pub open spec fn is_settled(s: QuickRunState) -> bool {
    s is Unallocated || s is Allocated || s is Deallocating
}

/// What to hand the scheduler to allocate a node: the submission command,
/// which reads the job's script from its standard input.
pub struct TowelJobSubmission {
    pub command: CommandLine,
    pub script: String,
}

/// `sub` submits the placeholder job for `options` with the cluster's
/// settings `prep`: the scheduler's options, then a shell that reads the
/// script from its standard input.
pub open spec fn is_towel_submission(
    prep: QuickRunPreparationOptions,
    options: QuickRunPrepOptions,
    sub: TowelJobSubmission,
) -> bool {
    &&& sub.command.program@ == "salloc"@
    &&& match options {
        QuickRunPrepOptions::SlurmCluster {
            constraint,
            partitions,
            time,
            cpu_count,
            gpu_count,
            fast_access_container_paths,
        } => {
            &&& sub.command.args.deep_view() == submission_options_spec(
                prep.slurm_account@,
                opt_seq(prep.slurm_service_quality),
                opt_seq(constraint),
                opt_strings(partitions),
                time@,
                cpu_count,
                gpu_count,
            ) + seq!["--"@, "bash"@, "-c"@, "bash -"@]
            &&& sub.script@ == towel_job_script_spec(
                fast_access_container_paths.deep_view(),
                prep.node_local_storage_path@,
            )
        },
    }
}

/// The quick-run protocol of one cluster.
pub struct QuickRunController {
    pub preparation: QuickRunPreparationOptions,
    pub state: QuickRunState,
}

impl QuickRunController {
    pub open spec fn wf(&self) -> bool {
        self.state matches QuickRunState::AwaitingReadySignal { chunks_read } ==> chunks_read
            < OUTPUT_CHUNK_COUNT_MAX
    }

    pub fn new(preparation: QuickRunPreparationOptions) -> (r: QuickRunController)
        ensures
            r.wf(),
            r.state == QuickRunState::Unallocated,
            r.preparation == preparation,
    {
        QuickRunController { preparation, state: QuickRunState::Unallocated }
    }

    /// Begins an allocation: the submission of the placeholder job, with the
    /// script for `options`, under the fixed job name.
    pub fn allocate(&mut self, options: &QuickRunPrepOptions) -> (r: TowelJobSubmission)
        requires
            old(self).state is Unallocated,
        ensures
            final(self).wf(),
            final(self).state == QuickRunState::Submitting,
            final(self).preparation == old(self).preparation,
            is_towel_submission(old(self).preparation, *options, r),
    {
        match options {
            QuickRunPrepOptions::SlurmCluster {
                constraint,
                partitions,
                time,
                cpu_count,
                gpu_count,
                fast_access_container_paths,
            } => {
                let script = build_quick_run_towel_job_script(
                    fast_access_container_paths,
                    self.preparation.node_local_storage_path.as_str(),
                );
                let qos: Option<&str> = match &self.preparation.slurm_service_quality {
                    Some(q) => Some(q.as_str()),
                    None => None,
                };
                let c: Option<&str> = match constraint {
                    Some(x) => Some(x.as_str()),
                    None => None,
                };
                let submission_options = quick_run_towel_job_submission_options(
                    self.preparation.slurm_account.as_str(),
                    qos,
                    c,
                    partitions,
                    time.as_str(),
                    *cpu_count,
                    *gpu_count,
                );
                let mut command = CommandLine::new("salloc");
                command.args(&submission_options);
                command.arg("--");
                command.arg("bash");
                command.arg("-c");
                command.arg("bash -");
                assert(command.args.deep_view() =~= submission_options.deep_view() + seq![
                    "--"@,
                    "bash"@,
                    "-c"@,
                    "bash -"@,
                ]);
                self.state = QuickRunState::Submitting;
                TowelJobSubmission { command, script }
            },
        }
    }

    /// The submission is running; its output is awaited.
    pub fn submitted(&mut self)
        requires
            old(self).state is Submitting,
        ensures
            final(self).wf(),
            final(self).state == (QuickRunState::AwaitingReadySignal { chunks_read: 0 }),
            final(self).preparation == old(self).preparation,
    {
        self.state = QuickRunState::AwaitingReadySignal { chunks_read: 0 };
    }

    /// Takes one chunk of the submission's output.
    pub fn observe_output(&mut self, chunk: &str) -> (r: ReadinessStep)
        requires
            old(self).wf(),
            old(self).state is AwaitingReadySignal,
        ensures
            final(self).wf(),
            final(self).preparation == old(self).preparation,
            match old(self).state {
                QuickRunState::AwaitingReadySignal { chunks_read } => {
                    &&& final(self).state == state_after_output(chunks_read, chunk@)
                    &&& r == step_after_output(chunks_read, chunk@)
                },
                _ => false,
            },
    {
        let n = match self.state {
            QuickRunState::AwaitingReadySignal { chunks_read } => chunks_read,
            _ => 0,
        };
        if text::str_eq(chunk, READY_SIGNAL) {
            self.state = QuickRunState::Allocated;
            ReadinessStep::Ready
        } else if n + 1 >= OUTPUT_CHUNK_COUNT_MAX {
            self.state = QuickRunState::Unallocated;
            ReadinessStep::Exhausted
        } else {
            self.state = QuickRunState::AwaitingReadySignal { chunks_read: n + 1 };
            ReadinessStep::Continue
        }
    }

    /// The submission or its output failed before the ready signal: the
    /// attempt is over.
    pub fn submission_failed(&mut self) -> (r: QuickRunError)
        requires
            old(self).state is Submitting || old(self).state is AwaitingReadySignal,
        ensures
            final(self).wf(),
            final(self).state == QuickRunState::Unallocated,
            final(self).preparation == old(self).preparation,
            r == QuickRunError::ReadySignalMissing,
    {
        self.state = QuickRunState::Unallocated;
        QuickRunError::ReadySignalMissing
    }

    /// The command that lists the placeholder job of the current user by its
    /// state code, without a header.
    pub fn allocation_query_command() -> (r: CommandLine)
        ensures
            r.program@ == "bash"@,
            r.args.deep_view() == seq![
                "-c"@,
                "squeue --noheader --format %t --user $USER --name "@ + QUICK_RUN_TOWEL_JOB_NAME@,
            ],
    {
        let mut command = CommandLine::new("bash");
        command.arg("-c");
        let inner = text::concat("squeue --noheader --format %t --user $USER --name ", QUICK_RUN_TOWEL_JOB_NAME);
        command.arg(inner.as_str());
        assert(command.args.deep_view() =~= seq![
            "-c"@,
            "squeue --noheader --format %t --user $USER --name "@ + QUICK_RUN_TOWEL_JOB_NAME@,
        ]);
        command
    }

    /// Whether a node is allocated, read from the scheduler's `listing` of the
    /// placeholder job; the listing alone decides.
    pub fn is_allocated(&mut self, listing: &str) -> (r: bool)
        requires
            is_settled(old(self).state),
        ensures
            final(self).wf(),
            r == listing_shows_allocated(listing@),
            final(self).state == state_after_listing(listing@),
            final(self).preparation == old(self).preparation,
    {
        let trimmed = text::trim(listing);
        proof {
            reveal_strlit("R");
        }
        let r = text::str_eq(trimmed.as_str(), "R");
        self.state = if r {
            QuickRunState::Allocated
        } else {
            QuickRunState::Unallocated
        };
        r
    }

    /// Begins a deallocation: the command that cancels the placeholder job by
    /// its name.
    pub fn deallocate(&mut self) -> (r: CommandLine)
        requires
            is_settled(old(self).state),
        ensures
            final(self).wf(),
            final(self).state == QuickRunState::Deallocating,
            final(self).preparation == old(self).preparation,
            r.program@ == "scancel"@,
            r.args.deep_view() == seq!["--name"@, QUICK_RUN_TOWEL_JOB_NAME@],
    {
        let mut command = CommandLine::new("scancel");
        command.arg("--name");
        command.arg(QUICK_RUN_TOWEL_JOB_NAME);
        assert(command.args.deep_view() =~= seq!["--name"@, QUICK_RUN_TOWEL_JOB_NAME@]);
        self.state = QuickRunState::Deallocating;
        command
    }

    /// The cancellation ended, with `success` as its exit status said. A
    /// failure is an error, and the state stays unknown.
    pub fn cancel_finished(&mut self, success: bool) -> (r: Result<(), QuickRunError>)
        requires
            old(self).state is Deallocating,
        ensures
            final(self).wf(),
            final(self).preparation == old(self).preparation,
            success ==> r is Ok && final(self).state == QuickRunState::Unallocated,
            !success ==> r == Err::<(), QuickRunError>(QuickRunError::CancelFailed)
                && final(self).state == QuickRunState::Deallocating,
    {
        if success {
            self.state = QuickRunState::Unallocated;
            Ok(())
        } else {
            Err(QuickRunError::CancelFailed)
        }
    }
}


/// Idempotence of the allocation query: the answer and the state it leaves
/// depend on the listing alone, and that state allows the query again, so two
/// queries with no allocation or cancellation between them agree.
pub proof fn law_allocation_query_idempotent(listing: Seq<char>)
    ensures
        is_settled(state_after_listing(listing)),
        state_after_listing(listing) == QuickRunState::Allocated <==> listing_shows_allocated(
            listing,
        ),
{
}

/// Allocation round trip: once the ready signal has come the node counts as
/// held, and a scheduler that tracks the job lists it running, which the query
/// reads as allocated; once the cancellation has succeeded the node counts as
/// free, and the scheduler lists nothing, which the query reads as not
/// allocated.
pub proof fn law_allocation_round_trip(chunks_read: u16)
    ensures
        state_after_output(chunks_read, READY_SIGNAL@) == QuickRunState::Allocated,
        step_after_output(chunks_read, READY_SIGNAL@) == ReadinessStep::Ready,
        listing_shows_allocated(towel_job_listing(true)),
        state_after_listing(towel_job_listing(true)) == QuickRunState::Allocated,
        !listing_shows_allocated(towel_job_listing(false)),
        state_after_listing(towel_job_listing(false)) == QuickRunState::Unallocated,
{
    reveal_strlit("R\n");
    reveal_strlit("R");
    let l = towel_job_listing(true);
    assert(text::trim_start_spec(l) == l);
    assert(l.drop_last() =~= "R"@);
    assert(text::trim_end_spec("R"@) == "R"@);
    assert(text::trim_spec(l) == "R"@);
    assert(text::trim_spec(Seq::<char>::empty()) =~= Seq::<char>::empty());
}

} // verus!
