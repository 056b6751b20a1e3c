//! Submission and management of compute runs on the local machine or on a
//! Slurm cluster: run identities and their storage layout, the argument lists
//! for directional file synchronisation, payload resolution, the quick-run
//! node allocation protocol and the commands that dispatch a run.

pub mod cfg;
pub mod command;
pub mod host;
pub mod path;
pub mod payload;
pub mod quick_run;
pub mod run_id;
pub mod runner;
pub mod staging;
pub mod sync;
pub mod text;
