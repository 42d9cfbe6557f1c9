//! Run configuration as the library sees it, once loaded.
use vstd::prelude::*;
use vstd::string::*;
use std::collections::HashMap;

verus! {

/// How results are written out.
pub struct OutputProps {
    pub save_to_file: bool,
    pub filename: Option<String>,
    pub pretty_format: bool,
    pub show_progress: bool,
    pub keep_incremental_data: Option<bool>,
}

/// Settings of one run.
pub struct Config {
    /// Pipelines that may run at once.
    pub threads: usize,
    /// Pipelines that may authenticate through the agent at once.
    pub agent_parallelism: isize,
    pub output: OutputProps,
    pub command: String,
    /// Session timeout, in seconds.
    pub timeout: u32,
    pub modules_path: Option<String>,
}

/// Named commands, by module name.
pub struct ModulesParams {
    pub modules: Option<HashMap<String, String>>,
}

impl Default for OutputProps {
    /// Console output, compact, without progress, keeping no incremental data.
    fn default() -> (r: OutputProps)
        ensures
            !r.save_to_file,
            r.filename is None,
            !r.pretty_format,
            !r.show_progress,
            r.keep_incremental_data == Some(false),
    {
        OutputProps {
            save_to_file: false,
            filename: None,
            pretty_format: false,
            show_progress: false,
            keep_incremental_data: Some(false),
        }
    }
}

impl Default for Config {
    /// Ten sessions, one agent authentication at a time, an empty command,
    /// default output, a sixty-second timeout and modules under `modules`.
    fn default() -> (r: Config)
        ensures
            r.threads == 10,
            r.agent_parallelism == 1,
            r.command@ == Seq::<char>::empty(),
            !r.output.save_to_file,
            r.output.filename is None,
            !r.output.pretty_format,
            !r.output.show_progress,
            r.output.keep_incremental_data == Some(false),
            r.timeout == 60,
            r.modules_path matches Some(p) && p@ == "modules"@,
    {
        Config {
            threads: 10,
            agent_parallelism: 1,
            command: String::new(),
            output: OutputProps::default(),
            timeout: 60,
            modules_path: Some(String::from_str("modules")),
        }
    }
}

} // verus!
