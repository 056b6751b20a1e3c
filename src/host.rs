//! The hosts a run can go to: the local machine and a Slurm cluster reached
//! over a secure shell. A host is described here by plain values; what it
//! takes to act on it (the session, the processes) is handed these values.
use crate::cfg::{LocalHostConfig, RemoteHostConfig};
use crate::payload::{code_versions, code_versions_spec, code_views, versions_manifest, versions_manifest_spec, CodeMapping, ConfigSource};
use crate::command::CommandLine;
use crate::path;
use crate::quick_run::{QuickRunController, QuickRunPrepOptions, QuickRunPreparationOptions, TowelJobSubmission, QuickRunState, is_settled, is_towel_submission};
use crate::sync::{options_are, SyncOptions};
use crate::run_id::{run_display_spec, run_path_spec, RunID};
use crate::text;
use vstd::prelude::*;

verus! {

/// The suffix of the host name under which the held quick-run node is
/// reached; the operator's secure-shell configuration routes it there.
pub const QUICK_RUN_HOSTNAME_SUFFIX: &'static str = "-quick";

/// The template that runs a script where none is configured; `{}` stands for
/// the script's path.
pub const DEFAULT_SCRIPT_RUN_COMMAND_TEMPLATE: &'static str = "bash {}";

pub struct LocalHost {
    pub output_base_dir_path: String,
    pub script_run_command_template: String,
}

impl LocalHost {
    pub fn new(output_base_dir_path: &str, script_run_command_template: String) -> (r: LocalHost)
        ensures
            r.output_base_dir_path@ == output_base_dir_path@,
            r.script_run_command_template == script_run_command_template,
    {
        LocalHost {
            output_base_dir_path: output_base_dir_path.to_owned(),
            script_run_command_template,
        }
    }
}

pub struct SlurmClusterHost {
    pub id: String,
    pub script_run_command_template: String,
    pub output_base_dir_path: String,
    /// Where run directories are put on the cluster.
    pub temporary_dir_path: String,
    /// The name the session goes to: the login node, or the held quick-run
    /// node.
    pub hostname: String,
    pub quick_run: QuickRunController,
}

impl SlurmClusterHost {
    /// A cluster host; with `allow_quick_runs`, its sessions go to the held
    /// quick-run node, named by the host name with the quick-run suffix.
    pub fn new(
        id: &str,
        hostname: &str,
        script_run_command_template: String,
        output_base_dir_path: &str,
        temporary_dir_path: &str,
        quick_run_preparation: QuickRunPreparationOptions,
        allow_quick_runs: bool,
    ) -> (r: SlurmClusterHost)
        ensures
            r.id@ == id@,
            r.hostname@ == (if allow_quick_runs {
                hostname@ + QUICK_RUN_HOSTNAME_SUFFIX@
            } else {
                hostname@
            }),
            r.script_run_command_template == script_run_command_template,
            r.output_base_dir_path@ == output_base_dir_path@,
            r.temporary_dir_path@ == temporary_dir_path@,
            r.quick_run.wf(),
            r.quick_run.state is Unallocated,
            r.quick_run.preparation == quick_run_preparation,
    {
        let name = if allow_quick_runs {
            text::concat(hostname, QUICK_RUN_HOSTNAME_SUFFIX)
        } else {
            hostname.to_owned()
        };
        SlurmClusterHost {
            id: id.to_owned(),
            script_run_command_template,
            output_base_dir_path: output_base_dir_path.to_owned(),
            temporary_dir_path: temporary_dir_path.to_owned(),
            hostname: name,
            quick_run: QuickRunController::new(quick_run_preparation),
        }
    }
}

/// A host: one of a fixed set of kinds.
pub enum Host {
    Local(LocalHost),
    SlurmCluster(SlurmClusterHost),
}

/// What a run script's template is told of the host.
pub struct HostInfo {
    pub id: String,
    pub hostname: String,
    pub run_output_base_dir_path: String,
    pub is_local: bool,
    pub is_configured_for_quick_run: bool,
}

/// Why no host could be built.
#[derive(Debug)]
pub enum HostError {
    /// Quick runs were asked of the local host.
    QuickRunOnLocalHost,
    /// No remote host has this id.
    UnknownHost(String),
}

pub open spec fn ends_with_spec(s: Seq<char>, suffix: Seq<char>) -> bool {
    suffix.len() <= s.len() && s.subrange(s.len() - suffix.len(), s.len() as int) == suffix
}

impl Host {
    pub open spec fn id_spec(&self) -> Seq<char> {
        match self {
            Host::Local(_) => "local"@,
            Host::SlurmCluster(h) => h.id@,
        }
    }

    pub open spec fn hostname_spec(&self) -> Seq<char> {
        match self {
            Host::Local(_) => "localhost"@,
            Host::SlurmCluster(h) => h.hostname@,
        }
    }

    pub open spec fn output_base_spec(&self) -> Seq<char> {
        match self {
            Host::Local(h) => h.output_base_dir_path@,
            Host::SlurmCluster(h) => h.output_base_dir_path@,
        }
    }

    pub open spec fn template_spec(&self) -> Seq<char> {
        match self {
            Host::Local(h) => h.script_run_command_template@,
            Host::SlurmCluster(h) => h.script_run_command_template@,
        }
    }

    /// The local host counts as ready for quick runs; a cluster host does when
    /// its sessions go to the quick-run node.
    pub open spec fn quick_run_spec(&self) -> bool {
        match self {
            Host::Local(_) => true,
            Host::SlurmCluster(h) => ends_with_spec(h.hostname@, QUICK_RUN_HOSTNAME_SUFFIX@),
        }
    }

    pub fn id(&self) -> (r: &str)
        ensures
            r@ == self.id_spec(),
    {
        match self {
            Host::Local(_) => "local",
            Host::SlurmCluster(h) => h.id.as_str(),
        }
    }

    pub fn hostname(&self) -> (r: &str)
        ensures
            r@ == self.hostname_spec(),
    {
        match self {
            Host::Local(_) => "localhost",
            Host::SlurmCluster(h) => h.hostname.as_str(),
        }
    }

    pub fn output_base_dir_path(&self) -> (r: &str)
        ensures
            r@ == self.output_base_spec(),
    {
        match self {
            Host::Local(h) => h.output_base_dir_path.as_str(),
            Host::SlurmCluster(h) => h.output_base_dir_path.as_str(),
        }
    }

    pub fn is_local(&self) -> (r: bool)
        ensures
            r == self is Local,
    {
        match self {
            Host::Local(_) => true,
            Host::SlurmCluster(_) => false,
        }
    }

    pub fn is_configured_for_quick_run(&self) -> (r: bool)
        ensures
            r == self.quick_run_spec(),
    {
        match self {
            Host::Local(_) => true,
            Host::SlurmCluster(h) => {
                let n = h.hostname.as_str().unicode_len();
                let m = QUICK_RUN_HOSTNAME_SUFFIX.unicode_len();
                if m > n {
                    false
                } else {
                    text::str_eq(h.hostname.as_str().substring_char(n - m, n), QUICK_RUN_HOSTNAME_SUFFIX)
                }
            },
        }
    }

    /// The command that runs the script at `script_path` on this host: the
    /// configured template with each `{}` replaced by the path.
    pub fn script_run_command(&self, script_path: &str) -> (r: String)
        ensures
            r@ == text::replace_spec(self.template_spec(), "{}"@, script_path@),
    {
        proof {
            reveal_strlit("{}");
        }
        let template = match self {
            Host::Local(h) => h.script_run_command_template.as_str(),
            Host::SlurmCluster(h) => h.script_run_command_template.as_str(),
        };
        text::replace_all(template, "{}", script_path)
    }

    /// What a run script's template is told of this host.
    pub fn info(&self) -> (r: HostInfo)
        ensures
            r.id@ == self.id_spec(),
            r.hostname@ == self.hostname_spec(),
            r.run_output_base_dir_path@ == self.output_base_spec(),
            r.is_local == self is Local,
            r.is_configured_for_quick_run == self.quick_run_spec(),
    {
        HostInfo {
            id: self.id().to_owned(),
            hostname: self.hostname().to_owned(),
            run_output_base_dir_path: self.output_base_dir_path().to_owned(),
            is_local: self.is_local(),
            is_configured_for_quick_run: self.is_configured_for_quick_run(),
        }
    }

    /// Where the reviewed configuration of run `run_id` is kept.
    pub fn config_dir_destination_path(&self, run_id: &RunID) -> (r: String)
        ensures
            r@ == path::join_spec(
                run_path_spec(run_id@, self.output_base_spec()),
                "reproduce_info/config"@,
            ),
    {
        let run_path = run_id.path(self.output_base_dir_path());
        path::join(run_path.as_str(), "reproduce_info/config")
    }

    /// Where the table of code revisions of run `run_id` is kept.
    pub fn code_versions_file_destination_path(&self, run_id: &RunID) -> (r: String)
        ensures
            r@ == path::join_spec(
                run_path_spec(run_id@, self.output_base_spec()),
                "reproduce_info/code_versions.txt"@,
            ),
    {
        let run_path = run_id.path(self.output_base_dir_path());
        path::join(run_path.as_str(), "reproduce_info/code_versions.txt")
    }
}

impl Host {
    /// Begins preparing quick runs: on a cluster whose node is not held, the
    /// submission of the placeholder job. Nothing where a node is already
    /// held (the preparation is satisfied), nor on the local host, which needs
    /// none.
    pub fn prepare_quick_run(&mut self, options: &QuickRunPrepOptions) -> (r: Option<
        TowelJobSubmission,
    >)
        requires
            *old(self) matches Host::SlurmCluster(h) ==> (h.quick_run.state is Unallocated
                || h.quick_run.state is Allocated),
        ensures
            match *old(self) {
                Host::Local(_) => r is None && *final(self) == *old(self),
                Host::SlurmCluster(h) => if h.quick_run.state is Allocated {
                    r is None && *final(self) == *old(self)
                } else {
                    (r matches Some(sub) && is_towel_submission(h.quick_run.preparation, *options, sub))
                        && (*final(self) matches Host::SlurmCluster(g) && g.quick_run.state is Submitting
                        && g.hostname == h.hostname && g.id == h.id)
                },
            },
    {
        match self {
            Host::Local(_) => None,
            Host::SlurmCluster(h) => {
                if h.quick_run.state == QuickRunState::Allocated {
                    None
                } else {
                    Some(h.quick_run.allocate(options))
                }
            },
        }
    }

    /// The command whose output tells whether quick runs are prepared; none on
    /// the local host, which always is.
    pub fn quick_run_is_prepared_command(&self) -> (r: Option<CommandLine>)
        ensures
            self is Local <==> r is None,
            r matches Some(c) ==> c.program@ == "bash"@ && c.args.deep_view() == seq![
                "-c"@,
                "squeue --noheader --format %t --user $USER --name "@ + crate::quick_run::QUICK_RUN_TOWEL_JOB_NAME@,
            ],
    {
        match self {
            Host::Local(_) => None,
            Host::SlurmCluster(_) => Some(QuickRunController::allocation_query_command()),
        }
    }

    /// Begins clearing the quick-run preparation: on a cluster, the command
    /// that cancels the placeholder job; nothing on the local host.
    pub fn clear_preparation(&mut self) -> (r: Option<CommandLine>)
        requires
            *old(self) matches Host::SlurmCluster(h) ==> is_settled(h.quick_run.state),
        ensures
            *old(self) is Local ==> r is None && *final(self) == *old(self),
            *old(self) is SlurmCluster ==> (r is Some && (*final(self) matches Host::SlurmCluster(g)
                && g.quick_run.state is Deallocating)),
            r matches Some(c) ==> c.program@ == "scancel"@ && c.args.deep_view() == seq![
                "--name"@,
                crate::quick_run::QUICK_RUN_TOWEL_JOB_NAME@,
            ],
    {
        match self {
            Host::Local(_) => None,
            Host::SlurmCluster(h) => Some(h.quick_run.deallocate()),
        }
    }
}

/// How the configuration of a run is frozen: what `source` holds is copied
/// into a private directory with `copy_options` (perhaps reviewed there), then
/// put in place of what `destination` holds with `upload_options`, and
/// `versions_manifest` is put at `versions_destination` with
/// `versions_upload_options`.
pub struct ConfigDirectoryPlan {
    pub source: String,
    pub copy_options: SyncOptions,
    /// The entry point inside the private copy, opened for review.
    pub review_entrypoint: String,
    pub destination: String,
    pub upload_options: SyncOptions,
    pub versions_destination: String,
    pub versions_manifest: String,
    pub versions_upload_options: SyncOptions,
}

impl Host {
    /// How the configuration of run `run_id` is frozen on this host, for a
    /// private copy at `review_dir` and the code of `code_mappings`.
    pub fn plan_config_directory(
        &self,
        config_source: &ConfigSource,
        run_id: &RunID,
        code_mappings: &Vec<CodeMapping>,
        review_dir: &str,
    ) -> (r: ConfigDirectoryPlan)
        ensures
            r.source@ == config_source.dir_path@,
            options_are(r.copy_options, true, false, true),
            options_are(r.upload_options, true, true, false),
            options_are(r.versions_upload_options, false, false, false),
            r.review_entrypoint@ == path::join_spec(review_dir@, config_source.entrypoint_path@),
            r.destination@ == path::join_spec(
                run_path_spec(run_id@, self.output_base_spec()),
                "reproduce_info/config"@,
            ),
            r.versions_destination@ == path::join_spec(
                run_path_spec(run_id@, self.output_base_spec()),
                "reproduce_info/code_versions.txt"@,
            ),
            r.versions_manifest@ == versions_manifest_spec(
                code_versions_spec(code_views(code_mappings@)),
            ),
    {
        let versions = code_versions(code_mappings);
        ConfigDirectoryPlan {
            source: config_source.dir_path.clone(),
            copy_options: SyncOptions::default().copy_contents().resolve_symlinks(),
            review_entrypoint: path::join(review_dir, config_source.entrypoint_path.as_str()),
            destination: self.config_dir_destination_path(run_id),
            upload_options: SyncOptions::default().copy_contents().delete(),
            versions_destination: self.code_versions_file_destination_path(run_id),
            versions_manifest: versions_manifest(&versions),
            versions_upload_options: SyncOptions::default(),
        }
    }
}

/// The index of the first remote host with id `id`.
pub open spec fn remote_index_from(remotes: Seq<(String, RemoteHostConfig)>, id: Seq<char>, i: int) -> Option<int>
    decreases remotes.len() - i,
{
    if i < 0 || i >= remotes.len() {
        None
    } else if remotes[i].0@ == id {
        Some(i)
    } else {
        remote_index_from(remotes, id, i + 1)
    }
}

pub open spec fn remote_ids(remotes: Seq<(String, RemoteHostConfig)>) -> Seq<Seq<char>> {
    remotes.map_values(|p: (String, RemoteHostConfig)| p.0@)
}

pub proof fn lemma_remote_index_matches(remotes: Seq<(String, RemoteHostConfig)>, id: Seq<char>, i: int)
    ensures
        remote_index_from(remotes, id, i) matches Some(k) ==> i <= k < remotes.len() && remotes[k].0@
            == id,
    decreases remotes.len() - i,
{
    if 0 <= i < remotes.len() && remotes[i].0@ != id {
        lemma_remote_index_matches(remotes, id, i + 1);
    }
}

pub open spec fn template_or_default(t: Option<String>) -> Seq<char> {
    match t {
        Some(s) => s@,
        None => DEFAULT_SCRIPT_RUN_COMMAND_TEMPLATE@,
    }
}

fn template_of(t: &Option<String>) -> (r: String)
    ensures
        r@ == template_or_default(*t),
{
    match t {
        Some(s) => s.clone(),
        None => DEFAULT_SCRIPT_RUN_COMMAND_TEMPLATE.to_owned(),
    }
}

fn find_remote(remotes: &Vec<(String, RemoteHostConfig)>, id: &str) -> (r: Option<usize>)
    ensures
        match r {
            Some(i) => i < remotes.len() && remote_index_from(remotes@, id@, 0) == Some(i as int),
            None => remote_index_from(remotes@, id@, 0) is None,
        },
{
    let mut i: usize = 0;
    while i < remotes.len()
        invariant
            i <= remotes.len(),
            remote_index_from(remotes@, id@, 0) == remote_index_from(remotes@, id@, i as int),
        decreases remotes.len() - i,
    {
        if text::str_eq(remotes[i].0.as_str(), id) {
            return Some(i);
        }
        i = i + 1;
    }
    None
}

fn copy_opt_string(o: &Option<String>) -> (r: Option<String>)
    ensures
        r == *o,
{
    match o {
        Some(s) => Some(s.clone()),
        None => None,
    }
}

/// The host with id `host_id`: `local` for the local machine, else the remote
/// host of that id. Quick runs cannot be asked of the local host.
pub fn build_host(
    host_id: &str,
    local_config: &LocalHostConfig,
    remote_configs: &Vec<(String, RemoteHostConfig)>,
    configure_for_quick_run: bool,
) -> (r: Result<Host, HostError>)
    ensures
        host_id@ == "local"@ && configure_for_quick_run ==> r matches Err(
            HostError::QuickRunOnLocalHost,
        ),
        host_id@ == "local"@ && !configure_for_quick_run ==> (r matches Ok(Host::Local(h))
            && h.output_base_dir_path@ == local_config.run_output_base_dir@
            && h.script_run_command_template@ == template_or_default(
            local_config.script_run_command_template,
        )),
        host_id@ != "local"@ ==> match remote_index_from(remote_configs@, host_id@, 0) {
            None => (r matches Err(HostError::UnknownHost(id)) && id@ == host_id@),
            Some(i) => (r matches Ok(Host::SlurmCluster(h)) && {
                let c = remote_configs@[i].1;
                &&& (text::unique_ids(remote_ids(remote_configs@)) ==> forall|j: int|
                    0 <= j < remote_configs@.len() && remote_configs@[j].0@ == host_id@ ==> j == i)
                &&& h.id@ == host_id@
                &&& h.hostname@ == (if configure_for_quick_run {
                    c.hostname@ + QUICK_RUN_HOSTNAME_SUFFIX@
                } else {
                    c.hostname@
                })
                &&& h.script_run_command_template@ == template_or_default(
                    c.script_run_command_template,
                )
                &&& h.output_base_dir_path@ == c.run_output_base_dir@
                &&& h.temporary_dir_path@ == c.temporary_dir@
                &&& h.quick_run.state is Unallocated
                &&& h.quick_run.wf()
                &&& h.quick_run.preparation.slurm_account@ == c.quick_run.account@
                &&& h.quick_run.preparation.slurm_service_quality == c.quick_run.service_quality
                &&& h.quick_run.preparation.node_local_storage_path@
                    == c.quick_run.node_local_storage_path@
            }),
        },
{
    proof {
        reveal_strlit("local");
    }
    let is_local = text::str_eq(host_id, "local");
    if is_local && configure_for_quick_run {
        return Err(HostError::QuickRunOnLocalHost);
    }
    if is_local {
        return Ok(
            Host::Local(
                LocalHost::new(
                    local_config.run_output_base_dir.as_str(),
                    template_of(&local_config.script_run_command_template),
                ),
            ),
        );
    }
    match find_remote(remote_configs, host_id) {
        Some(i) => {
            proof {
                lemma_remote_index_matches(remote_configs@, host_id@, 0);
                assert(remote_ids(remote_configs@)[i as int] == host_id@);
                assert forall|j: int|
                    0 <= j < remote_configs@.len() && remote_configs@[j].0@ == host_id@ && text::unique_ids(
                        remote_ids(remote_configs@),
                    ) implies j == i by {
                    assert(remote_ids(remote_configs@)[j] == host_id@);
                }
            }
            let c = &remote_configs[i].1;
            let preparation = QuickRunPreparationOptions {
                slurm_account: c.quick_run.account.clone(),
                slurm_service_quality: copy_opt_string(&c.quick_run.service_quality),
                node_local_storage_path: c.quick_run.node_local_storage_path.clone(),
            };
            Ok(
                Host::SlurmCluster(
                    SlurmClusterHost::new(
                        host_id,
                        c.hostname.as_str(),
                        template_of(&c.script_run_command_template),
                        c.run_output_base_dir.as_str(),
                        c.temporary_dir.as_str(),
                        preparation,
                        configure_for_quick_run,
                    ),
                ),
            )
        },
        None => Err(HostError::UnknownHost(host_id.to_owned())),
    }
}


/// The marker file at the root of a local copy of a run's output that says
/// the copy came from a remote host.
pub const FROM_REMOTE_MARKER: &'static str = ".from_remote";

/// How a run's output is brought over from a remote host.
pub struct RunOutputSyncOptions {
    pub excludes: Vec<String>,
    /// Sync into an existing local directory even without the marker.
    pub ignore_from_remote_marker: bool,
}

/// What bringing a run's output over does: create the local directory where
/// it is missing, copy what the remote run directory holds into it, then
/// write the marker.
pub struct OutputSyncPlan {
    pub create_destination: bool,
    pub source: String,
    pub destination: String,
    pub excludes: Vec<String>,
    pub marker_path: String,
}

/// Why a run's output was not brought over.
#[derive(Debug)]
pub enum OutputSyncError {
    /// The local directory exists, holds no marker, and the sync was not
    /// forced: its contents may be local work that a sync would overwrite.
    MarkerMissing(String),
}

/// A sync is refused where the local directory exists without the marker and
/// the sync is not forced.
pub open spec fn output_sync_refused(present: bool, has_marker: bool, force: bool) -> bool {
    present && !has_marker && !force
}

/// The local directory after a sync attempt, as (exists, has marker): left as
/// it was where the sync is refused; present and marked otherwise.
pub open spec fn local_output_after_sync(present: bool, has_marker: bool, force: bool) -> (bool, bool) {
    if output_sync_refused(present, has_marker, force) {
        (present, has_marker)
    } else {
        (true, true)
    }
}

/// The effect of carrying out a plan on the local directory, as (exists, has
/// marker).
pub open spec fn plan_effect(present: bool, has_marker: bool, p: OutputSyncPlan) -> (bool, bool) {
    (present || p.create_destination, true)
}

/// Anti-clobber: a sync into an existing local directory without the marker
/// and without force is refused and changes nothing; with force, or with the
/// marker there, it goes ahead and the marker is there afterwards.
pub proof fn law_anti_clobber(present: bool, has_marker: bool, force: bool)
    ensures
        output_sync_refused(present, has_marker, force) <==> present && !has_marker && !force,
        output_sync_refused(present, has_marker, force) ==> local_output_after_sync(
            present,
            has_marker,
            force,
        ) == (present, has_marker),
        force || has_marker ==> !output_sync_refused(present, has_marker, force)
            && local_output_after_sync(present, has_marker, force).1,
{
}

/// The quoted form of a remote command: `ssh -tt host 'command'`.
pub open spec fn ssh_command_spec(hostname: Seq<char>, command: Seq<char>) -> Seq<char> {
    "ssh -tt "@ + hostname + " '"@ + command + "'"@
}

fn ssh_command(hostname: &str, command: &str) -> (r: String)
    ensures
        r@ == ssh_command_spec(hostname@, command@),
{
    let mut out = "ssh -tt ".to_owned();
    out.append(hostname);
    out.append(" '");
    out.append(command);
    out.append("'");
    out
}

/// The relative paths of the log files in a listing of full paths below
/// `run_path`: each line that starts with `run_path/`, without that prefix.
pub open spec fn log_paths_spec(lines: Seq<Seq<char>>, run_path: Seq<char>) -> Seq<Seq<char>>
    decreases lines.len(),
{
    if lines.len() == 0 {
        Seq::empty()
    } else {
        let before = log_paths_spec(lines.drop_last(), run_path);
        let prefix = run_path.push('/');
        let l = lines.last();
        if prefix.len() <= l.len() && l.subrange(0, prefix.len() as int) == prefix {
            before.push(l.subrange(prefix.len() as int, l.len() as int))
        } else {
            before
        }
    }
}

impl SlurmClusterHost {
    /// The command that lists the run directories, two levels below the
    /// output base.
    pub fn runs_command(&self) -> (r: CommandLine)
        ensures
            r.program@ == "find"@,
            r.args.deep_view() == seq![
                self.output_base_dir_path@,
                "-mindepth"@,
                "2"@,
                "-maxdepth"@,
                "2"@,
                "-type"@,
                "d"@,
            ],
    {
        let mut c = CommandLine::new("find");
        c.arg(self.output_base_dir_path.as_str());
        c.arg("-mindepth");
        c.arg("2");
        c.arg("-maxdepth");
        c.arg("2");
        c.arg("-type");
        c.arg("d");
        assert(c.args.deep_view() =~= seq![
            self.output_base_dir_path@,
            "-mindepth"@,
            "2"@,
            "-maxdepth"@,
            "2"@,
            "-type"@,
            "d"@,
        ]);
        c
    }

    /// The command that lists the terminal multiplexer's sessions, one per
    /// running run.
    pub fn running_runs_command() -> (r: CommandLine)
        ensures
            r.program@ == "tmux"@,
            r.args.deep_view() == seq!["list-sessions"@],
    {
        let mut c = CommandLine::new("tmux");
        c.arg("list-sessions");
        assert(c.args.deep_view() =~= seq!["list-sessions"@]);
        c
    }

    /// The command that lists the log files of run `run_id`.
    pub fn log_files_command(&self, run_id: &RunID) -> (r: CommandLine)
        ensures
            r.program@ == "find"@,
            r.args.deep_view() == seq![
                run_path_spec(run_id@, self.output_base_dir_path@),
                "-type"@,
                "f"@,
                "-name"@,
                "*.log"@,
            ],
    {
        let run_path = run_id.path(self.output_base_dir_path.as_str());
        let mut c = CommandLine::new("find");
        c.arg(run_path.as_str());
        c.arg("-type");
        c.arg("f");
        c.arg("-name");
        c.arg("*.log");
        assert(c.args.deep_view() =~= seq![
            run_path@,
            "-type"@,
            "f"@,
            "-name"@,
            "*.log"@,
        ]);
        c
    }

    /// The log files of run `run_id`, relative to its directory, read from
    /// the output of the log file listing.
    pub fn log_file_paths(&self, run_id: &RunID, listing: &str) -> (r: Vec<String>)
        ensures
            r.deep_view() == log_paths_spec(
                text::lines_spec(listing@),
                run_path_spec(run_id@, self.output_base_dir_path@),
            ),
    {
        let run_path = run_id.path(self.output_base_dir_path.as_str());
        proof {
            reveal_strlit("/");
        }
        let prefix = text::concat(run_path.as_str(), "/");
        assert(prefix@ =~= run_path@.push('/'));
        let ls = text::lines(listing);
        let mut out: Vec<String> = Vec::new();
        let mut i: usize = 0;
        while i < ls.len()
            invariant
                i <= ls.len(),
                prefix@ == run_path@.push('/'),
                out.deep_view() == log_paths_spec(ls.deep_view().subrange(0, i as int), run_path@),
            decreases ls.len() - i,
        {
            assert(ls.deep_view().subrange(0, i + 1).drop_last() =~= ls.deep_view().subrange(
                0,
                i as int,
            ));
            assert(ls.deep_view()[i as int] == ls[i as int]@);
            let l = ls[i].as_str();
            if text::starts_with(l, prefix.as_str()) {
                let rest = l.substring_char(prefix.as_str().unicode_len(), l.unicode_len()).to_owned();
                let ghost before = out.deep_view();
                out.push(rest);
                assert(out.deep_view() =~= before.push(rest@));
            }
            i = i + 1;
        }
        assert(ls.deep_view().subrange(0, ls.len() as int) =~= ls.deep_view());
        out
    }

    /// The shell command that attaches the terminal to the session of run
    /// `run_id` on this host.
    pub fn attach_command(&self, run_id: &RunID) -> (r: String)
        ensures
            r@ == ssh_command_spec(
                self.hostname@,
                "exec tmux attach-session -t "@ + run_display_spec(run_id@),
            ),
    {
        let name = run_id.display();
        let inner = text::concat("exec tmux attach-session -t ", name.as_str());
        ssh_command(self.hostname.as_str(), inner.as_str())
    }

    /// The shell command that shows the log file `log_file_path` of run
    /// `run_id`: followed as it grows, or printed once.
    pub fn tail_log_command(&self, run_id: &RunID, log_file_path: &str, follow: bool) -> (r: String)
        ensures
            r@ == ssh_command_spec(
                self.hostname@,
                "exec "@ + (if follow {
                    "tail -Fq"@
                } else {
                    "cat"@
                }) + " "@ + path::join_spec(
                    run_path_spec(run_id@, self.output_base_dir_path@),
                    log_file_path@,
                ),
            ),
    {
        let run_path = run_id.path(self.output_base_dir_path.as_str());
        let full = path::join(run_path.as_str(), log_file_path);
        let cmd = if follow {
            "tail -Fq"
        } else {
            "cat"
        };
        let mut inner = "exec ".to_owned();
        inner.append(cmd);
        inner.append(" ");
        inner.append(full.as_str());
        ssh_command(self.hostname.as_str(), inner.as_str())
    }

    /// The command that creates the directory `path` on this host; with
    /// `parents`, missing parents too.
    pub fn create_dir_command(path: &str, parents: bool) -> (r: CommandLine)
        ensures
            r.program@ == "mkdir"@,
            r.args.deep_view() == (if parents {
                seq!["-p"@, path@]
            } else {
                seq![path@]
            }),
    {
        let mut c = CommandLine::new("mkdir");
        if parents {
            c.arg("-p");
        }
        c.arg(path);
        assert(c.args.deep_view() =~= (if parents {
            seq!["-p"@, path@]
        } else {
            seq![path@]
        }));
        c
    }

    /// Where a run directory named `name` goes on this host.
    pub fn run_directory_path(&self, name: &str) -> (r: String)
        ensures
            r@ == path::join_spec(self.temporary_dir_path@, name@),
    {
        path::join(self.temporary_dir_path.as_str(), name)
    }

    /// Plans bringing the output of run `run_id` over into its directory below
    /// `local_base_path`, given whether that directory and its marker exist.
    pub fn plan_sync(
        &self,
        run_id: &RunID,
        local_base_path: &str,
        options: &RunOutputSyncOptions,
        destination_exists: bool,
        marker_exists: bool,
    ) -> (r: Result<OutputSyncPlan, OutputSyncError>)
        ensures
            r is Err <==> output_sync_refused(
                destination_exists,
                marker_exists,
                options.ignore_from_remote_marker,
            ),
            r matches Err(OutputSyncError::MarkerMissing(d)) ==> d@ == run_path_spec(
                run_id@,
                local_base_path@,
            ),
            r matches Ok(p) ==> {
                &&& p.create_destination == !destination_exists
                &&& p.source@ == run_path_spec(run_id@, self.output_base_dir_path@)
                &&& p.destination@ == run_path_spec(run_id@, local_base_path@)
                &&& p.excludes.deep_view() == options.excludes.deep_view()
                &&& p.marker_path@ == path::join_spec(
                    run_path_spec(run_id@, local_base_path@),
                    FROM_REMOTE_MARKER@,
                )
                &&& plan_effect(destination_exists, marker_exists, p) == local_output_after_sync(
                    destination_exists,
                    marker_exists,
                    options.ignore_from_remote_marker,
                )
            },
    {
        let destination = run_id.path(local_base_path);
        if destination_exists && !marker_exists && !options.ignore_from_remote_marker {
            return Err(OutputSyncError::MarkerMissing(destination));
        }
        let marker_path = path::join(destination.as_str(), FROM_REMOTE_MARKER);
        let p = OutputSyncPlan {
            create_destination: !destination_exists,
            source: run_id.path(self.output_base_dir_path.as_str()),
            destination,
            excludes: text::copy_strings(&options.excludes),
            marker_path,
        };
        assert(plan_effect(destination_exists, marker_exists, p) == (true, true));
        Ok(p)
    }
}

pub open spec fn is_ascii_alphanumeric(c: char) -> bool {
    ('a' <= c && c <= 'z') || ('A' <= c && c <= 'Z') || ('0' <= c && c <= '9')
}

/// Relies on fastrand::alphanumeric: a random character out of `A`-`Z`,
/// `a`-`z` and `0`-`9`.
#[verifier::external_body]
fn random_alphanumeric() -> (r: char)
    ensures
        is_ascii_alphanumeric(r),
{
    fastrand::alphanumeric()
}

/// Relies on String::push: the character is added at the end.
#[verifier::external_body]
fn push_char(s: &mut String, c: char)
    ensures
        final(s)@ == old(s)@.push(c),
{
    s.push(c)
}

/// A fresh name: `prefix`, `rand_len` random letters and digits, `suffix`.
pub fn tmpname(prefix: &str, suffix: &str, rand_len: u8) -> (r: String)
    ensures
        r@.len() == prefix@.len() + rand_len + suffix@.len(),
        r@.subrange(0, prefix@.len() as int) == prefix@,
        r@.subrange(prefix@.len() + rand_len, r@.len() as int) == suffix@,
        forall|i: int|
            prefix@.len() <= i < prefix@.len() + rand_len ==> is_ascii_alphanumeric(#[trigger] r@[i]),
{
    let mut name = prefix.to_owned();
    let mut k: u8 = 0;
    while k < rand_len
        invariant
            k <= rand_len,
            name@.len() == prefix@.len() + k,
            name@.subrange(0, prefix@.len() as int) == prefix@,
            forall|i: int|
                prefix@.len() <= i < prefix@.len() + k ==> is_ascii_alphanumeric(#[trigger] name@[i]),
        decreases rand_len - k,
    {
        let c = random_alphanumeric();
        let ghost before = name@;
        push_char(&mut name, c);
        assert(name@.subrange(0, prefix@.len() as int) =~= before.subrange(0, prefix@.len() as int));
        k = k + 1;
    }
    let ghost before = name@;
    name.append(suffix);
    assert(name@.subrange(0, prefix@.len() as int) =~= before.subrange(0, prefix@.len() as int));
    assert(name@.subrange(prefix@.len() + rand_len, name@.len() as int) =~= suffix@);
    name
}

} // verus!
