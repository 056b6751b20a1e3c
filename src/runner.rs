//! Dispatching a prepared run: the shell command that runs the script in its
//! run directory, directly on the local machine or, on a remote host, inside a
//! terminal multiplexer session reached over a secure shell.
use crate::command::CommandLine;
use crate::host::{Host, HostInfo};
use crate::payload::{PayloadInfo, PayloadMapping};
use crate::run_id::{run_display_spec, run_path_spec, RunID};
use crate::text;
use vstd::prelude::*;

verus! {

/// `cmd` made safe to stand inside single quotes: each `'` becomes `'"'"'`.
pub open spec fn escape_single_quotes_spec(cmd: Seq<char>) -> Seq<char> {
    text::replace_spec(cmd, "'"@, "'\"'\"'"@)
}

/// `cmd` made safe to stand inside single quotes.
pub fn escape_single_quotes(cmd: &str) -> (r: String)
    ensures
        r@ == escape_single_quotes_spec(cmd@),
{
    proof {
        reveal_strlit("'");
    }
    text::replace_all(cmd, "'", "'\"'\"'")
}

pub open spec fn tmux_wrap_spec(cmd: Seq<char>, session_name: Seq<char>) -> Seq<char> {
    "exec tmux new-session -s "@ + session_name + " '"@ + escape_single_quotes_spec(cmd)
        + "; bash'"@
}

/// `cmd` run in a new terminal multiplexer session named `session_name`,
/// which keeps a shell open after it ends.
pub fn tmux_wrap(cmd: &str, session_name: &str) -> (r: String)
    ensures
        r@ == tmux_wrap_spec(cmd@, session_name@),
{
    let escaped = escape_single_quotes(cmd);
    let mut out = "exec tmux new-session -s ".to_owned();
    out.append(session_name);
    out.append(" '");
    out.append(escaped.as_str());
    out.append("; bash'");
    out
}

/// What a run script's template is told of the runner.
pub struct RunnerInfo {
    pub cmdline: String,
    pub config: Vec<(String, String)>,
}

pub open spec fn pair_views(v: Seq<(String, String)>) -> Seq<(Seq<char>, Seq<char>)> {
    v.map_values(|p: (String, String)| (p.0@, p.1@))
}

fn copy_pairs(v: &Vec<(String, String)>) -> (r: Vec<(String, String)>)
    ensures
        pair_views(r@) == pair_views(v@),
{
    let mut out: Vec<(String, String)> = Vec::new();
    let mut i: usize = 0;
    while i < v.len()
        invariant
            i <= v.len(),
            pair_views(out@) == pair_views(v@).subrange(0, i as int),
        decreases v.len() - i,
    {
        let ghost before = out@;
        out.push((v[i].0.clone(), v[i].1.clone()));
        assert(pair_views(out@) =~= pair_views(before).push((v[i as int].0@, v[i as int].1@)));
        assert(pair_views(v@).subrange(0, i + 1) =~= pair_views(v@).subrange(0, i as int).push(
            (v[i as int].0@, v[i as int].1@),
        ));
        i = i + 1;
    }
    assert(pair_views(v@).subrange(0, v.len() as int) =~= pair_views(v@));
    out
}

/// The shell command that runs the script of run directory `run_dir`: change
/// into it, then run `./run.sh` as the host says.
pub open spec fn run_cmd_spec(host: Host, run_dir: Seq<char>) -> Seq<char> {
    "cd "@ + run_dir + " && "@ + text::replace_spec(host.template_spec(), "{}"@, "./run.sh"@)
}

/// One variable assignment for the remote shell, made safe for the quotes
/// around the remote command.
pub open spec fn assignment_spec(p: (Seq<char>, Seq<char>)) -> Seq<char> {
    escape_single_quotes_spec(p.0 + "='"@ + p.1 + "'"@)
}

/// The command handed to the secure shell for a remote run: in the run
/// directory, the carried-over variables, then the multiplexer session named
/// after the run.
pub open spec fn remote_run_command_spec(
    host: Host,
    run_dir: Seq<char>,
    run_id: crate::run_id::RunIdModel,
    variables: Seq<(Seq<char>, Seq<char>)>,
) -> Seq<char> {
    "ssh -qtt "@ + host.hostname_spec() + " 'cd "@ + run_dir + " && "@ + text::join_spec(
        variables.map_values(|p: (Seq<char>, Seq<char>)| assignment_spec(p)),
        " "@,
    ) + " "@ + escape_single_quotes_spec(
        tmux_wrap_spec(run_cmd_spec(host, run_dir), run_display_spec(run_id)),
    ) + "'"@
}

/// The runner that renders the project's run script template and runs it.
pub struct DefaultRunner {
    pub cmdline: Vec<String>,
    pub environment_variable_transfer_requests: Vec<String>,
    pub config: Vec<(String, String)>,
}

impl DefaultRunner {
    pub fn new(
        cmdline: &Vec<String>,
        environment_variable_transfer_requests: &Vec<String>,
        config: &Vec<(String, String)>,
    ) -> (r: DefaultRunner)
        ensures
            r.cmdline.deep_view() == cmdline.deep_view(),
            r.environment_variable_transfer_requests.deep_view()
                == environment_variable_transfer_requests.deep_view(),
            pair_views(r.config@) == pair_views(config@),
            text::unique_ids(crate::cfg::string_pair_keys(config@)) ==> text::unique_ids(
                crate::cfg::string_pair_keys(r.config@),
            ),
    {
        proof {
            assert forall|x: Seq<(String, String)>, y: Seq<(String, String)>|
                pair_views(x) == pair_views(y) implies crate::cfg::string_pair_keys(x)
                == crate::cfg::string_pair_keys(y) by {
                assert(x.len() == pair_views(x).len());
                assert(y.len() == pair_views(y).len());
                assert forall|k: int| 0 <= k < x.len() implies crate::cfg::string_pair_keys(x)[k]
                    == crate::cfg::string_pair_keys(y)[k] by {
                    assert(pair_views(x)[k] == pair_views(y)[k]);
                }
                assert(crate::cfg::string_pair_keys(x) =~= crate::cfg::string_pair_keys(y));
            }
        }
        DefaultRunner {
            cmdline: text::copy_strings(cmdline),
            environment_variable_transfer_requests: text::copy_strings(
                environment_variable_transfer_requests,
            ),
            config: copy_pairs(config),
        }
    }

    pub fn cmdline(&self) -> (r: &Vec<String>)
        ensures
            r == &self.cmdline,
    {
        &self.cmdline
    }

    pub fn config(&self) -> (r: &Vec<(String, String)>)
        ensures
            r == &self.config,
    {
        &self.config
    }

    /// What a run script's template is told of this runner: the extra
    /// arguments joined by spaces, and the configured pairs.
    pub fn info(&self) -> (r: RunnerInfo)
        ensures
            r.cmdline@ == text::join_spec(self.cmdline.deep_view(), " "@),
            pair_views(r.config@) == pair_views(self.config@),
    {
        RunnerInfo { cmdline: text::join(&self.cmdline, " "), config: copy_pairs(&self.config) }
    }

    /// The shell command that runs the script of `run_dir_path` on a local
    /// host.
    pub fn local_run_command(&self, host: &Host, run_dir_path: &str) -> (r: String)
        ensures
            r@ == run_cmd_spec(*host, run_dir_path@),
    {
        let script = host.script_run_command("./run.sh");
        let mut out = "cd ".to_owned();
        out.append(run_dir_path);
        out.append(" && ");
        out.append(script.as_str());
        out
    }

    /// The shell command that runs the script of `run_dir_path` on a remote
    /// host in a multiplexer session named after `run_id`, with `variables`
    /// (name and value pairs, read from the local environment) exported
    /// there.
    pub fn remote_run_command(
        &self,
        host: &Host,
        run_dir_path: &str,
        run_id: &RunID,
        variables: &Vec<(String, String)>,
    ) -> (r: String)
        ensures
            r@ == remote_run_command_spec(*host, run_dir_path@, run_id@, pair_views(variables@)),
    {
        let run_cmd = self.local_run_command(host, run_dir_path);
        let session = run_id.display();
        let wrapped = tmux_wrap(run_cmd.as_str(), session.as_str());
        let wrapped = escape_single_quotes(wrapped.as_str());
        let ghost vs = pair_views(variables@);
        let mut assignments: Vec<String> = Vec::new();
        let mut i: usize = 0;
        while i < variables.len()
            invariant
                i <= variables.len(),
                vs == pair_views(variables@),
                assignments.deep_view() == vs.subrange(0, i as int).map_values(
                    |p: (Seq<char>, Seq<char>)| assignment_spec(p),
                ),
            decreases variables.len() - i,
        {
            let mut a = variables[i].0.clone();
            a.append("='");
            a.append(variables[i].1.as_str());
            a.append("'");
            let e = escape_single_quotes(a.as_str());
            let ghost before = assignments.deep_view();
            assignments.push(e);
            assert(assignments.deep_view() =~= before.push(e@));
            assert(vs.subrange(0, i + 1).map_values(|p: (Seq<char>, Seq<char>)| assignment_spec(p))
                =~= vs.subrange(0, i as int).map_values(
                |p: (Seq<char>, Seq<char>)| assignment_spec(p),
            ).push(assignment_spec(vs[i as int])));
            i = i + 1;
        }
        assert(vs.subrange(0, variables.len() as int) =~= vs);
        let joined = text::join(&assignments, " ");
        let mut out = "ssh -qtt ".to_owned();
        out.append(host.hostname());
        out.append(" 'cd ");
        out.append(run_dir_path);
        out.append(" && ");
        out.append(joined.as_str());
        out.append(" ");
        out.append(wrapped.as_str());
        out.append("'");
        out
    }
}

/// A runner that hands the extra arguments to a workflow manager.
pub struct Snakemake {
    pub cmdline: Vec<String>,
}

impl Snakemake {
    pub fn new(cmdline: &Vec<String>) -> (r: Snakemake)
        ensures
            r.cmdline.deep_view() == cmdline.deep_view(),
    {
        Snakemake { cmdline: text::copy_strings(cmdline) }
    }
}

/// Everything a run script's template is told of a run.
pub struct RunInfo {
    pub id: RunID,
    pub host: HostInfo,
    pub runner: RunnerInfo,
    pub payload: PayloadInfo,
    pub output_path: String,
}

impl RunInfo {
    pub fn new(host: &Host, runner: &DefaultRunner, payload_mapping: &PayloadMapping, run_id: &RunID) -> (r:
        RunInfo)
        ensures
            r.id@ == run_id@,
            r.host.id@ == host.id_spec(),
            r.host.hostname@ == host.hostname_spec(),
            r.host.run_output_base_dir_path@ == host.output_base_spec(),
            r.host.is_local == host is Local,
            r.host.is_configured_for_quick_run == host.quick_run_spec(),
            r.runner.cmdline@ == text::join_spec(runner.cmdline.deep_view(), " "@),
            pair_views(r.runner.config@) == pair_views(runner.config@),
            crate::payload::pair_views(r.payload.code_revisions@)
                == crate::payload::code_versions_spec(
                crate::payload::code_views(payload_mapping.code_mappings@),
            ),
            r.payload.config_dir@ == crate::path::join_spec(
                run_path_spec(run_id@, host.output_base_spec()),
                "reproduce_info/config"@,
            ),
            r.output_path@ == run_path_spec(run_id@, host.output_base_spec()),
    {
        let config_dir = host.config_dir_destination_path(run_id);
        RunInfo {
            id: RunID::new(run_id.name.as_str(), run_id.group.as_str()),
            host: host.info(),
            runner: runner.info(),
            payload: PayloadInfo::new(payload_mapping, config_dir.as_str()),
            output_path: run_id.path(host.output_base_dir_path()),
        }
    }
}

/// The command that opens the configuration for review: the terminal runs a
/// shell that changes into `dir_path` and opens `entrypoint_path` in the
/// editor.
pub fn review_command(terminal: &str, editor: &str, dir_path: &str, entrypoint_path: &str) -> (r:
    CommandLine)
    ensures
        r.program@ == terminal@,
        r.args.deep_view() == seq![
            "-e"@,
            "bash"@,
            "-c"@,
            "cd "@ + dir_path@ + " && "@ + editor@ + " "@ + entrypoint_path@,
        ],
{
    let mut c = CommandLine::new(terminal);
    c.arg("-e");
    c.arg("bash");
    c.arg("-c");
    let mut inner = "cd ".to_owned();
    inner.append(dir_path);
    inner.append(" && ");
    inner.append(editor);
    inner.append(" ");
    inner.append(entrypoint_path);
    c.arg(inner.as_str());
    assert(c.args.deep_view() =~= seq!["-e"@, "bash"@, "-c"@, inner@]);
    c
}

} // verus!
