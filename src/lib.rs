//! Supervision of one long-running server child process: readiness detection on
//! its output, the status state machine, and the construction of its command line.
//!
//! The operating-system side (spawning, pipes, signals, threads, the host window)
//! is driven from outside this crate; every decision it needs is taken here.
pub mod text;
pub mod status;
pub mod model;
pub mod manager;
pub mod json;
pub mod readiness;
pub mod escape;
pub mod command;
pub mod config;
pub mod entry;
pub mod navigation;
pub mod termination;

pub use command::{
    CliEntry, DirectCommand, LaunchError, Runner, ShellCommand, ShellCommandType,
    build_shell_args, build_shell_command_string, plan_command, shell_args_for_name,
    supports_user_shell,
};
pub use config::{
    config_path_from_setting, default_shell, first_existing, resolve_config_path,
    shell_from_setting, listening_mode_from, normalize_path, resolve_listening_host,
    resolve_listening_mode,
};
pub use entry::{dev_entry_candidates, dist_candidates, expand_home, path_join, tsx_candidates};
pub use escape::shell_escape;
pub use manager::{CliProcessManager, connection_url};
pub use navigation::should_allow_internal;
pub use readiness::{extract_ready_signal, ready_signal_from, scan_line};
pub use status::{CliState, CliStatus};
pub use termination::{stop_poll_step, StopAction, WaitStatus};
