//! The commands of the tool, as they stand once the command line is parsed.

use vstd::prelude::*;

verus! {

/// How many pull requests `run` fetches unless told otherwise.
pub const DEFAULT_RUN_LIMIT: u32 = 100;

/// How many workflow runs `status` lists unless told otherwise.
pub const DEFAULT_STATUS_LIMIT: u8 = 10;

/// What the tool was asked to do.
pub struct Args {
    pub command: Command,
}

/// A command of the tool.
#[allow(inconsistent_fields)]
#[derive(Debug, Clone, Copy, PartialEq, Eq)]
pub enum Command {
    /// Fetch open pull requests, filter them, and trigger reviews.
    Run {
        /// Total number of pull requests to fetch.
        limit: u32,
        /// Show the matching pull requests without triggering reviews.
        dry_run: bool,
        /// Review again what was processed before.
        force: bool,
    },
    /// Show recent workflow runs.
    Status {
        /// Number of runs to display.
        limit: u8,
    },
    /// Show the logs of the latest workflow run.
    Logs,
    /// Open the workflow's page in a browser.
    Web,
    /// Show the runs for one pull request.
    Check { pr_number: u64 },
    /// Clear the list of processed pull requests.
    Reset,
}

} // verus!
