//! The configuration as the library reads it, after it has been loaded.
use crate::payload::code_ids;
use crate::text;
use vstd::prelude::*;

verus! {

pub struct LocalCodeSourceConfig {
    pub path: String,
    /// Keep the configuration directory in the copied working tree.
    pub no_config_exclude: bool,
    pub gitignore_exclude_additions: Option<Vec<String>>,
    pub gitignore_exclude_subtractions: Option<Vec<String>>,
}

pub struct RemoteCodeSourceConfig {
    pub url: String,
    pub revision: String,
}

pub struct CodeMappingConfig {
    pub id: String,
    pub local: LocalCodeSourceConfig,
    pub remote: RemoteCodeSourceConfig,
    pub target: String,
}

pub struct ConfigSourceConfig {
    pub dir: String,
    pub entrypoint: String,
}

#[derive(Clone)]
pub struct AuxiliaryMappingConfig {
    pub path: String,
    pub target: String,
    pub excludes: Option<Vec<String>>,
}

pub struct PayloadMappingConfig {
    pub code: Vec<CodeMappingConfig>,
    pub config: ConfigSourceConfig,
    pub auxiliary: Option<Vec<AuxiliaryMappingConfig>>,
}

pub struct QuickRunConfig {
    pub account: String,
    pub service_quality: Option<String>,
    pub constraint: Option<String>,
    pub partitions: Option<Vec<String>>,
    pub time: String,
    pub cpu_count: u16,
    pub gpu_count: u16,
    pub fast_access_container_requests: Vec<String>,
    pub node_local_storage_path: String,
}

pub struct RemoteHostConfig {
    pub hostname: String,
    pub script_run_command_template: Option<String>,
    pub run_output_base_dir: String,
    pub temporary_dir: String,
    pub quick_run: QuickRunConfig,
}

pub struct LocalHostConfig {
    pub run_output_base_dir: String,
    pub script_run_command_template: Option<String>,
}

pub struct RunnerConfig {
    /// Key and value pairs handed to the run script's template.
    pub config: Option<Vec<(String, String)>>,
    /// Names of environment variables to carry over to a remote run.
    pub environment_variable_transfer_requests: Option<Vec<String>>,
}

pub struct RunOutputSyncOptions {
    pub result_excludes: Vec<String>,
    pub reproduce_excludes: Vec<String>,
}

pub struct RunOutputConfig {
    pub sync_options: RunOutputSyncOptions,
    pub results: Vec<String>,
}

/// Which part of a run's output to bring over.
#[derive(Clone, Copy, Debug, PartialEq, Eq, Structural)]
pub enum RunOutputSyncContent {
    Results,
    NecessaryForReproduction,
}

pub struct GlobalConfig {
    pub run_group: String,
    pub payload: PayloadMappingConfig,
    /// Remote hosts by id; each id once.
    pub remote_hosts: Vec<(String, RemoteHostConfig)>,
    pub local_host: LocalHostConfig,
    pub runner: Option<RunnerConfig>,
    pub run_output: RunOutputConfig,
}

pub open spec fn string_pair_keys(v: Seq<(String, String)>) -> Seq<Seq<char>> {
    v.map_values(|p: (String, String)| p.0@)
}

impl RunnerConfig {
    /// Each key of the template pairs once.
    pub open spec fn wf(&self) -> bool {
        self.config matches Some(c) ==> text::unique_ids(string_pair_keys(c@))
    }
}

impl GlobalConfig {
    /// The keyed tables hold each key once: remote host ids, code component
    /// ids and the runner's template keys.
    pub open spec fn wf(&self) -> bool {
        &&& text::unique_ids(self.remote_hosts@.map_values(|p: (String, RemoteHostConfig)| p.0@))
        &&& text::unique_ids(code_ids(self.payload.code@))
        &&& (self.runner matches Some(r) ==> r.wf())
    }
}

} // verus!
