//! The command-line surface: global flags and the top-level subcommands.
use vstd::prelude::*;

use crate::commands::auth::{LoginArgs, WhoamiArgs};
use crate::commands::config::ConfigArgs;
use crate::commands::handoff::HandoffArgs;
use crate::commands::notify::NotifyArgs;
use crate::commands::overview::OverviewArgs;
use crate::commands::pat::PatArgs;
use crate::commands::run::RunArgs;
use crate::commands::sla::SlaArgs;
use crate::commands::step::StepArgs;
use crate::commands::system::{CompletionArgs, HealthArgs};
use crate::commands::workflow::WorkflowArgs;

verus! {

/// The parsed command line.
#[derive(Debug)]
pub struct Cli {
    pub global: GlobalArgs,
    pub command: Command,
}

/// Global flags shared by every subcommand.
#[derive(Debug, Clone)]
pub struct GlobalArgs {
    /// Base URL of the doneyet API, e.g. http://localhost:3001
    /// (overrides the value stored in the config file).
    pub api_url: Option<String>,
    /// Admin bearer token for write-side calls.
    pub admin_token: Option<String>,
    /// Per-run bearer token (for heartbeat / step / finish calls).
    pub run_token: Option<String>,
    /// Username:password for Basic-auth read endpoints.
    pub read_basic: Option<String>,
    /// Output format. `table` is human-friendly, `json` is pipeable.
    pub output: OutputFormat,
    /// Skip TLS verification (development clusters with self-signed certs).
    pub insecure: bool,
}

/// How command results are printed.
#[derive(Debug, Clone, Copy, PartialEq, Eq, Structural)]
pub enum OutputFormat {
    Table,
    Json,
}

/// The top-level subcommands.
#[derive(Debug)]
pub enum Command {
    /// Show or update the stored CLI configuration (api-url, default token).
    Config(ConfigArgs),
    /// Save an admin token to the config file (prompts if not provided).
    Login(LoginArgs),
    /// Forget the stored admin token.
    Logout,
    /// Print the resolved config and ping the server.
    Whoami(WhoamiArgs),
    /// Ping the /health endpoint.
    Health(HealthArgs),
    /// Manage workflows.
    Workflow(WorkflowArgs),
    /// Start / observe / control runs.
    Run(RunArgs),
    /// Create / update steps inside a run.
    Step(StepArgs),
    /// Inspect or offer cross-cluster handoffs.
    Handoff(HandoffArgs),
    /// Dashboard counts + recent runs.
    Overview(OverviewArgs),
    /// Notifications and notification channels.
    Notify(NotifyArgs),
    /// SLA-at-risk queries.
    Sla(SlaArgs),
    /// Manage personal access tokens (create / list / revoke).
    Pat(PatArgs),
    /// Print shell completions to stdout.
    Completion(CompletionArgs),
}

} // verus!
