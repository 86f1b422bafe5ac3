use nixpr::config::Config;
use nixpr::runner::{
    actions_url, check_pr, check_pr_args, check_step, latest_run_args, latest_run_id, run_line,
    show_logs_args, show_status_args, trigger_review_args, trigger_review_result,
    CollaboratorError, Exit, Step, TriggerError, WorkflowRun,
};

fn workflow_run(title: &str, status: &str, conclusion: Option<&str>, at: &str) -> WorkflowRun {
    WorkflowRun {
        display_title: title.to_string(),
        status: status.to_string(),
        conclusion: conclusion.map(|c| c.to_string()),
        created_at: at.to_string(),
    }
}

fn custom_config() -> Config {
    let mut config = Config::default();
    config.review.repo = "me/reviews".to_string();
    config.review.workflow = "check.yml".to_string();
    config
}

#[test]
fn trigger_arguments() {
    assert_eq!(
        trigger_review_args(&Config::default(), 412345),
        vec![
            "workflow",
            "run",
            "review.yml",
            "--repo",
            "liberodark/nixpkgs-review-gha",
            "--field",
            "pr=412345",
        ]
    );
    assert_eq!(
        trigger_review_args(&custom_config(), 0),
        vec!["workflow", "run", "check.yml", "--repo", "me/reviews", "--field", "pr=0"]
    );
}

#[test]
fn trigger_results() {
    assert_eq!(trigger_review_result(7, Exit::Succeeded), Ok(()));
    assert_eq!(trigger_review_result(7, Exit::Failed), Err(TriggerError::Failed(7)));
    assert_eq!(
        trigger_review_result(7, Exit::NotStarted("not found".to_string())),
        Err(TriggerError::NotStarted("not found".to_string()))
    );
    assert_eq!(TriggerError::Failed(7).message(), "gh workflow run failed for PR #7");
    assert_eq!(
        TriggerError::NotStarted("not found".to_string()).message(),
        "Failed to run `gh` CLI. Is it installed?: not found"
    );
}

#[test]
fn status_arguments() {
    assert_eq!(
        show_status_args(&custom_config(), 10),
        vec!["run", "list", "--repo", "me/reviews", "--limit", "10"]
    );
    assert_eq!(show_status_args(&custom_config(), 255)[5], "255");
    assert_eq!(show_status_args(&custom_config(), 0)[5], "0");
}

#[test]
fn logs_arguments() {
    assert_eq!(
        latest_run_args(&custom_config()),
        vec![
            "run",
            "list",
            "--repo",
            "me/reviews",
            "--limit",
            "1",
            "--json",
            "databaseId",
            "--jq",
            ".[0].databaseId",
        ]
    );
    assert_eq!(
        show_logs_args(&custom_config(), "123456"),
        vec!["run", "view", "123456", "--repo", "me/reviews", "--log"]
    );
}

#[test]
fn latest_run_id_is_the_trimmed_output() {
    assert_eq!(latest_run_id("123456\n"), Ok("123456"));
    assert_eq!(latest_run_id("  9 \r\n"), Ok("9"));
    assert_eq!(latest_run_id(""), Err(CollaboratorError::NoRuns));
    assert_eq!(latest_run_id(" \n\t"), Err(CollaboratorError::NoRuns));
}

#[test]
fn latest_run_id_trims_as_std_does() {
    let samples = [
        "", " ", "a", " a", "a ", "  a b  ", "\t\n x \r\n", "\u{a0}x\u{2003}", "   ",
        "\u{85}id\u{1680}", "\u{200b}id", "\u{180e}id\u{feff}", "\u{3000}\u{2028}\u{2029}",
    ];
    for s in samples {
        let expected = s.trim();
        match latest_run_id(s) {
            Ok(id) => assert_eq!(id, expected, "{:?}", s),
            Err(error) => {
                assert_eq!(error, CollaboratorError::NoRuns);
                assert_eq!(expected, "", "{:?}", s);
            }
        }
    }
}

#[test]
fn actions_page() {
    assert_eq!(
        actions_url(&Config::default()),
        "https://github.com/liberodark/nixpkgs-review-gha/actions"
    );
    assert_eq!(actions_url(&custom_config()), "https://github.com/me/reviews/actions");
}

#[test]
fn check_arguments() {
    assert_eq!(
        check_pr_args(&custom_config()),
        vec![
            "run",
            "list",
            "--repo",
            "me/reviews",
            "--json",
            "displayTitle,status,conclusion,createdAt",
        ]
    );
}

#[test]
fn steps_fail_as_their_commands_do() {
    for step in [Step::Status, Step::LatestRun, Step::ViewLogs, Step::OpenWeb, Step::CheckPr(3)] {
        assert_eq!(check_step(step, Exit::Succeeded), Ok(()));
        assert_eq!(
            check_step(step, Exit::NotStarted("gone".to_string())),
            Err(CollaboratorError::NotStarted(step, "gone".to_string()))
        );
    }
    assert_eq!(check_step(Step::Status, Exit::Failed), Err(CollaboratorError::Failed(Step::Status)));
    assert_eq!(
        check_step(Step::ViewLogs, Exit::Failed),
        Err(CollaboratorError::Failed(Step::ViewLogs))
    );
    assert_eq!(
        check_step(Step::CheckPr(3), Exit::Failed),
        Err(CollaboratorError::Failed(Step::CheckPr(3)))
    );
    assert_eq!(check_step(Step::LatestRun, Exit::Failed), Ok(()));
    assert_eq!(check_step(Step::OpenWeb, Exit::Failed), Ok(()));
}

#[test]
fn collaborator_messages() {
    let config = custom_config();
    let not_started = |step: Step| CollaboratorError::NotStarted(step, "gone".to_string());
    assert_eq!(not_started(Step::Status).message(&config), "Failed to run `gh run list`: gone");
    assert_eq!(not_started(Step::LatestRun).message(&config), "Failed to get latest run ID: gone");
    assert_eq!(not_started(Step::ViewLogs).message(&config), "Failed to view run logs: gone");
    assert_eq!(
        not_started(Step::OpenWeb).message(&config),
        "Failed to open https://github.com/me/reviews/actions: gone"
    );
    assert_eq!(not_started(Step::CheckPr(1)).message(&config), "Failed to check PR runs: gone");
    assert_eq!(CollaboratorError::Failed(Step::Status).message(&config), "gh run list failed");
    assert_eq!(CollaboratorError::Failed(Step::ViewLogs).message(&config), "gh run view failed");
    assert_eq!(
        CollaboratorError::Failed(Step::CheckPr(88)).message(&config),
        "gh run list failed for PR #88"
    );
    assert_eq!(CollaboratorError::NoRuns.message(&config), "No workflow runs found");
    assert_eq!(
        CollaboratorError::Malformed("eof".to_string()).message(&config),
        "Failed to parse workflow runs: eof"
    );
}

#[test]
fn run_lines() {
    assert_eq!(
        run_line(&workflow_run("Review #1", "completed", Some("success"), "2025-01-02T03:04:05Z")),
        "2025-01-02T03:04:05Z - completed - success"
    );
    assert_eq!(
        run_line(&workflow_run("Review #1", "in_progress", None, "2025-01-02")),
        "2025-01-02 - in_progress - running"
    );
}

#[test]
fn check_pr_lists_the_runs_that_name_the_pull_request() {
    let runs = vec![
        workflow_run("Review PR #12", "completed", Some("success"), "t1"),
        workflow_run("Review PR #123", "completed", Some("failure"), "t2"),
        workflow_run("Review PR 12", "queued", None, "t3"),
        workflow_run("#12", "in_progress", None, "t4"),
        workflow_run("Review PR #1", "completed", Some("success"), "t5"),
    ];
    assert_eq!(
        check_pr(&runs, 12),
        vec!["t1 - completed - success", "t2 - completed - failure", "t4 - in_progress - running"]
    );
    assert_eq!(check_pr(&runs, 123), vec!["t2 - completed - failure"]);
    assert!(check_pr(&runs, 2).is_empty());
    assert!(check_pr(&Vec::new(), 12).is_empty());
}
