//! The review workflow's command lines, and how their outcomes are read.
//!
//! Nothing here starts a process. Each command is described by the
//! arguments that the `gh` tool is to be started with; what came of it is
//! handed back as an [`Exit`].

use crate::config::{texts, Config};
use crate::text::{chars_of, contains_chars, decimal, has_infix, push_decimal, trim, trim_bounds};
use vstd::prelude::*;
use vstd::string::*;

verus! {

/// How a command ended.
#[derive(Debug, PartialEq, Eq)]
pub enum Exit {
    /// It could not be started; the cause.
    NotStarted(String),
    /// It ran and reported failure.
    Failed,
    /// It ran and reported success.
    Succeeded,
}

/// Why a review could not be requested.
#[derive(Debug, PartialEq, Eq)]
pub enum TriggerError {
    /// The tool could not be started; the cause.
    NotStarted(String),
    /// The tool reported failure for this pull request.
    Failed(u64),
}

/// An action on the workflow's run history.
#[derive(Debug, Clone, Copy, PartialEq, Eq)]
pub enum Step {
    /// List recent runs.
    Status,
    /// Find the latest run.
    LatestRun,
    /// Show the logs of a run.
    ViewLogs,
    /// Open the runs in a browser.
    OpenWeb,
    /// List the runs for this pull request.
    CheckPr(u64),
}

/// Why an action on the run history failed.
#[derive(Debug, PartialEq, Eq)]
pub enum CollaboratorError {
    /// The command of this step could not be started; the cause.
    NotStarted(Step, String),
    /// The command of this step reported failure.
    Failed(Step),
    /// There is no run whose logs could be shown.
    NoRuns,
    /// The list of runs could not be understood; the cause.
    Malformed(String),
}

/// A run of the workflow, as the run history lists it.
#[derive(Debug, PartialEq, Eq)]
pub struct WorkflowRun {
    pub display_title: String,
    pub status: String,
    pub conclusion: Option<String>,
    pub created_at: String,
}

/// The page that shows the workflow's runs.
pub open spec fn actions_url_of(repo: Seq<char>) -> Seq<char> {
    "https://github.com/"@ + repo + "/actions"@
}

/// The token by which a run's title names a pull request.
pub open spec fn pr_token(pr_number: u64) -> Seq<char> {
    "#"@ + decimal(pr_number as nat)
}

/// What is shown of a run: when it was created, its status, and its
/// conclusion, or "running" while it has none.
pub open spec fn run_line_of(run: WorkflowRun) -> Seq<char> {
    run.created_at@ + " - "@ + run.status@ + " - "@ + match run.conclusion {
        Some(conclusion) => conclusion@,
        None => "running"@,
    }
}

/// Whether a run's title names the pull request.
pub open spec fn names_pr(pr_number: u64) -> spec_fn(WorkflowRun) -> bool {
    |run: WorkflowRun| has_infix(run.display_title@, pr_token(pr_number))
}

/// What a step makes of the way its command ended. A command that could not
/// be started fails its step. One that reported failure fails it too, except
/// where the step only looks for the latest run or opens the browser.
pub open spec fn step_result(step: Step, exit: Exit) -> Result<(), CollaboratorError> {
    match exit {
        Exit::NotStarted(cause) => Err(CollaboratorError::NotStarted(step, cause)),
        Exit::Failed => match step {
            Step::LatestRun | Step::OpenWeb => Ok(()),
            _ => Err(CollaboratorError::Failed(step)),
        },
        Exit::Succeeded => Ok(()),
    }
}

/// What a step was about to do when its command could not be started.
pub open spec fn step_context(step: Step, repo: Seq<char>) -> Seq<char> {
    match step {
        Step::Status => "Failed to run `gh run list`"@,
        Step::LatestRun => "Failed to get latest run ID"@,
        Step::ViewLogs => "Failed to view run logs"@,
        Step::OpenWeb => "Failed to open "@ + actions_url_of(repo),
        Step::CheckPr(_) => "Failed to check PR runs"@,
    }
}

/// What is said of a step whose command reported failure.
pub open spec fn step_failure(step: Step) -> Seq<char> {
    match step {
        Step::Status | Step::LatestRun => "gh run list failed"@,
        Step::ViewLogs => "gh run view failed"@,
        Step::OpenWeb => "opening the browser failed"@,
        Step::CheckPr(pr_number) => "gh run list failed for PR "@ + pr_token(pr_number),
    }
}

/// The page that shows the workflow's runs.
pub fn actions_url(config: &Config) -> (url: String)
    ensures
        url@ == actions_url_of(config@.repo),
{
    "https://github.com/".to_owned().concat(config.review.repo.as_str()).concat("/actions")
}

/// The arguments that request a review of `pr_number`.
pub fn trigger_review_args(config: &Config, pr_number: u64) -> (args: Vec<String>)
    ensures
        texts(args@) == seq![
            "workflow"@,
            "run"@,
            config@.workflow,
            "--repo"@,
            config@.repo,
            "--field"@,
            "pr="@ + decimal(pr_number as nat),
        ],
{
    let mut field = "pr=".to_owned();
    push_decimal(&mut field, pr_number);
    let mut args: Vec<String> = Vec::new();
    args.push("workflow".to_owned());
    args.push("run".to_owned());
    args.push(config.review.workflow.clone());
    args.push("--repo".to_owned());
    args.push(config.review.repo.clone());
    args.push("--field".to_owned());
    args.push(field);
    assert(texts(args@) =~= seq![
        "workflow"@,
        "run"@,
        config@.workflow,
        "--repo"@,
        config@.repo,
        "--field"@,
        "pr="@ + decimal(pr_number as nat),
    ]);
    args
}

/// What became of the request for a review of `pr_number`.
pub fn trigger_review_result(pr_number: u64, exit: Exit) -> (r: Result<(), TriggerError>)
    ensures
        r == match exit {
            Exit::NotStarted(cause) => Err::<(), TriggerError>(TriggerError::NotStarted(cause)),
            Exit::Failed => Err(TriggerError::Failed(pr_number)),
            Exit::Succeeded => Ok(()),
        },
{
    match exit {
        Exit::NotStarted(cause) => Err(TriggerError::NotStarted(cause)),
        Exit::Failed => Err(TriggerError::Failed(pr_number)),
        Exit::Succeeded => Ok(()),
    }
}

/// The arguments that list the `limit` most recent runs.
pub fn show_status_args(config: &Config, limit: u8) -> (args: Vec<String>)
    ensures
        texts(args@) == seq![
            "run"@,
            "list"@,
            "--repo"@,
            config@.repo,
            "--limit"@,
            decimal(limit as nat),
        ],
{
    let mut count = String::new();
    push_decimal(&mut count, limit as u64);
    let mut args: Vec<String> = Vec::new();
    args.push("run".to_owned());
    args.push("list".to_owned());
    args.push("--repo".to_owned());
    args.push(config.review.repo.clone());
    args.push("--limit".to_owned());
    args.push(count);
    assert(texts(args@) =~= seq![
        "run"@,
        "list"@,
        "--repo"@,
        config@.repo,
        "--limit"@,
        decimal(limit as nat),
    ]);
    args
}

/// The arguments that print the identifier of the latest run.
pub fn latest_run_args(config: &Config) -> (args: Vec<String>)
    ensures
        texts(args@) == seq![
            "run"@,
            "list"@,
            "--repo"@,
            config@.repo,
            "--limit"@,
            "1"@,
            "--json"@,
            "databaseId"@,
            "--jq"@,
            ".[0].databaseId"@,
        ],
{
    let mut args: Vec<String> = Vec::new();
    args.push("run".to_owned());
    args.push("list".to_owned());
    args.push("--repo".to_owned());
    args.push(config.review.repo.clone());
    args.push("--limit".to_owned());
    args.push("1".to_owned());
    args.push("--json".to_owned());
    args.push("databaseId".to_owned());
    args.push("--jq".to_owned());
    args.push(".[0].databaseId".to_owned());
    assert(texts(args@) =~= seq![
        "run"@,
        "list"@,
        "--repo"@,
        config@.repo,
        "--limit"@,
        "1"@,
        "--json"@,
        "databaseId"@,
        "--jq"@,
        ".[0].databaseId"@,
    ]);
    args
}

/// The identifier of the latest run, read from what the tool printed: the
/// output trimmed, or an error where nothing is left of it.
pub fn latest_run_id(output: &str) -> (r: Result<&str, CollaboratorError>)
    ensures
        match r {
            Ok(id) => id@ == trim(output@) && id@.len() > 0,
            Err(error) => error == CollaboratorError::NoRuns && trim(output@).len() == 0,
        },
{
    let v = chars_of(output);
    let (from, to) = trim_bounds(&v, 0, v.len());
    assert(v@.subrange(0, v.len() as int) == output@);
    if from == to {
        Err(CollaboratorError::NoRuns)
    } else {
        Ok(output.substring_char(from, to))
    }
}

/// The arguments that show the logs of the run `run_id`.
pub fn show_logs_args(config: &Config, run_id: &str) -> (args: Vec<String>)
    ensures
        texts(args@) == seq!["run"@, "view"@, run_id@, "--repo"@, config@.repo, "--log"@],
{
    let mut args: Vec<String> = Vec::new();
    args.push("run".to_owned());
    args.push("view".to_owned());
    args.push(run_id.to_owned());
    args.push("--repo".to_owned());
    args.push(config.review.repo.clone());
    args.push("--log".to_owned());
    args
}

/// The arguments that list the runs with what is shown of them.
pub fn check_pr_args(config: &Config) -> (args: Vec<String>)
    ensures
        texts(args@) == seq![
            "run"@,
            "list"@,
            "--repo"@,
            config@.repo,
            "--json"@,
            "displayTitle,status,conclusion,createdAt"@,
        ],
{
    let mut args: Vec<String> = Vec::new();
    args.push("run".to_owned());
    args.push("list".to_owned());
    args.push("--repo".to_owned());
    args.push(config.review.repo.clone());
    args.push("--json".to_owned());
    args.push("displayTitle,status,conclusion,createdAt".to_owned());
    assert(texts(args@) =~= seq![
        "run"@,
        "list"@,
        "--repo"@,
        config@.repo,
        "--json"@,
        "displayTitle,status,conclusion,createdAt"@,
    ]);
    args
}

/// Decides [`step_result`].
pub fn check_step(step: Step, exit: Exit) -> (r: Result<(), CollaboratorError>)
    ensures
        r == step_result(step, exit),
{
    match exit {
        Exit::NotStarted(cause) => Err(CollaboratorError::NotStarted(step, cause)),
        Exit::Failed => match step {
            Step::LatestRun => Ok(()),
            Step::OpenWeb => Ok(()),
            _ => Err(CollaboratorError::Failed(step)),
        },
        Exit::Succeeded => Ok(()),
    }
}

/// What is shown of `run`.
pub fn run_line(run: &WorkflowRun) -> (line: String)
    ensures
        line@ == run_line_of(*run),
{
    let conclusion = match &run.conclusion {
        Some(conclusion) => conclusion.as_str(),
        None => "running",
    };
    let line = run.created_at.clone().concat(" - ").concat(run.status.as_str()).concat(
        " - ",
    ).concat(conclusion);
    line
}

/// What is shown of the runs whose title names the pull request, in the
/// order of the list.
pub fn check_pr(runs: &Vec<WorkflowRun>, pr_number: u64) -> (lines: Vec<String>)
    ensures
        texts(lines@) == runs@.filter(names_pr(pr_number)).map_values(
            |run: WorkflowRun| run_line_of(run),
        ),
{
    let mut token = "#".to_owned();
    push_decimal(&mut token, pr_number);
    let needle = chars_of(token.as_str());
    let ghost shown = |run: WorkflowRun| run_line_of(run);
    let mut lines: Vec<String> = Vec::new();
    assert(runs@.take(0).filter(names_pr(pr_number)) == Seq::<WorkflowRun>::empty()) by {
        reveal(Seq::filter);
    }
    let mut i: usize = 0;
    while i < runs.len()
        invariant
            i <= runs.len(),
            needle@ == pr_token(pr_number),
            shown == |run: WorkflowRun| run_line_of(run),
            texts(lines@) == runs@.take(i as int).filter(names_pr(pr_number)).map_values(shown),
        decreases runs.len() - i,
    {
        let run = &runs[i];
        proof {
            reveal(Seq::filter);
            assert(runs@.take(i + 1).drop_last() == runs@.take(i as int));
        }
        if contains_chars(&chars_of(run.display_title.as_str()), &needle) {
            let ghost before = runs@.take(i as int).filter(names_pr(pr_number));
            lines.push(run_line(run));
            assert(before.push(*run).map_values(shown) =~= before.map_values(shown).push(
                shown(*run),
            ));
        }
        i += 1;
    }
    assert(runs@.take(runs.len() as int) == runs@);
    lines
}

impl CollaboratorError {
    /// The failing step and its cause, for the user.
    pub fn message(&self, config: &Config) -> (r: String)
        ensures
            r@ == match *self {
                CollaboratorError::NotStarted(step, cause) => step_context(step, config@.repo)
                    + ": "@ + cause@,
                CollaboratorError::Failed(step) => step_failure(step),
                CollaboratorError::NoRuns => "No workflow runs found"@,
                CollaboratorError::Malformed(cause) => "Failed to parse workflow runs: "@ + cause@,
            },
    {
        match self {
            CollaboratorError::NotStarted(step, cause) => {
                let context = match step {
                    Step::Status => "Failed to run `gh run list`".to_owned(),
                    Step::LatestRun => "Failed to get latest run ID".to_owned(),
                    Step::ViewLogs => "Failed to view run logs".to_owned(),
                    Step::OpenWeb => "Failed to open ".to_owned().concat(
                        actions_url(config).as_str(),
                    ),
                    Step::CheckPr(_) => "Failed to check PR runs".to_owned(),
                };
                let r = context.concat(": ").concat(cause.as_str());
                r
            },
            CollaboratorError::Failed(step) => match step {
                Step::Status => "gh run list failed".to_owned(),
                Step::LatestRun => "gh run list failed".to_owned(),
                Step::ViewLogs => "gh run view failed".to_owned(),
                Step::OpenWeb => "opening the browser failed".to_owned(),
                Step::CheckPr(pr_number) => {
                    let mut r = "gh run list failed for PR ".to_owned();
                    r.append("#");
                    push_decimal(&mut r, *pr_number);
                    r
                },
            },
            CollaboratorError::NoRuns => "No workflow runs found".to_owned(),
            CollaboratorError::Malformed(cause) => "Failed to parse workflow runs: ".to_owned().concat(
                cause.as_str(),
            ),
        }
    }
}

impl TriggerError {
    /// The failing step and its cause, for the user.
    pub fn message(&self) -> (r: String)
        ensures
            r@ == match *self {
                TriggerError::NotStarted(cause) => "Failed to run `gh` CLI. Is it installed?: "@
                    + cause@,
                TriggerError::Failed(pr_number) => "gh workflow run failed for PR "@ + pr_token(
                    pr_number,
                ),
            },
    {
        match self {
            TriggerError::NotStarted(cause) => "Failed to run `gh` CLI. Is it installed?: ".to_owned().concat(
            cause.as_str()),
            TriggerError::Failed(pr_number) => {
                let mut r = "gh workflow run failed for PR ".to_owned();
                r.append("#");
                push_decimal(&mut r, *pr_number);
                r
            },
        }
    }
}

} // verus!
