//! Translation of typed requests into invocations of the `winstyles` command-line
//! tool, and normalisation of what the tool reports back.
pub mod bridge;
pub mod command;
pub mod environment;
pub mod laws;
pub mod outcome;
pub mod text;

pub use bridge::{diff, export_config, import_config, inspect, plan_invocation, scan, Invocation};
pub use command::{
    build_args, diff_args, export_args, import_args, inspect_args, is_blank, scan_args, Request,
};
pub use environment::{resolve_environment, resolve_executable, EXECUTABLE_VARIABLE};
pub use outcome::{completed, normalize, open_output_folder, ExecutionOutcome};
pub use text::{is_white_space, split_list, trim_text};
