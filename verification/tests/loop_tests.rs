use sashiko::ingest::{IngestAction, IngestCycle, IngestPhase, INGEST_POLL_SECONDS};
use sashiko::json::Json;
use sashiko::review::{
    report_status, review_tool_arguments, tool_run_status, ReviewAction, ReviewEvent, ReviewPhase, ReviewStatus,
    ReviewTask, PENDING_BATCH_SIZE, REVIEW_POLL_SECONDS,
};
use sashiko::Event;

fn report(statuses: Vec<Json>) -> Json {
    let patches = statuses
        .into_iter()
        .map(|s| Json::Object(vec![("status".to_string(), s)]))
        .collect();
    Json::Object(vec![("patches".to_string(), Json::Array(patches))])
}

#[test]
fn review_arguments_name_the_patchset() {
    assert_eq!(
        review_tool_arguments(42, "/tmp/wt"),
        vec!["run", "--bin", "review", "--", "--patchset", "42", "--baseline", "next/master", "--worktree-dir", "/tmp/wt"]
    );
    assert_eq!(review_tool_arguments(-3, "d")[5], "-3");
    assert_eq!(PENDING_BATCH_SIZE, 10);
    assert_eq!(REVIEW_POLL_SECONDS, 10);
}

#[test]
fn report_applied_only_when_every_patch_applied() {
    let all = report(vec![Json::String("applied".to_string()), Json::String("applied".to_string())]);
    assert_eq!(report_status(&all), ReviewStatus::Applied);
    let some = report(vec![Json::String("applied".to_string()), Json::String("failed".to_string())]);
    assert_eq!(report_status(&some), ReviewStatus::Failed);
    let missing = report(vec![Json::Null]);
    assert_eq!(report_status(&missing), ReviewStatus::Failed);
    let empty = report(vec![]);
    assert_eq!(report_status(&empty), ReviewStatus::Applied);
    assert_eq!(ReviewStatus::Applied.label(), "Applied");
    assert_eq!(ReviewStatus::Failed.label(), "Failed");
    assert_eq!(ReviewStatus::Reviewing.label(), "Reviewing");
}

#[test]
fn review_task_marks_reviewing_before_running_the_tool() {
    let (mut task, first) = ReviewTask::start(7, "/wt".to_string());
    assert!(matches!(first, ReviewAction::SetStatus(ReviewStatus::Reviewing)));
    assert!(task.awaits(ReviewEvent::StatusSaved(true)));
    assert!(!task.awaits(ReviewEvent::ToolFinished(None)));
    match task.step(ReviewEvent::StatusSaved(true)) {
        ReviewAction::RunTool { program, args } => {
            assert_eq!(program, "cargo");
            assert_eq!(args[5], "7");
        }
        other => panic!("unexpected {:?}", other),
    }
    assert!(matches!(task.step(ReviewEvent::ToolFinished(Some(ReviewStatus::Applied))), ReviewAction::SetStatus(ReviewStatus::Applied)));
    assert!(matches!(task.step(ReviewEvent::StatusSaved(false)), ReviewAction::Finish));
    assert_eq!(task.phase(), ReviewPhase::Done);
}

#[test]
fn review_task_stops_when_reviewing_cannot_be_stored() {
    let (mut task, _) = ReviewTask::start(1, "/wt".to_string());
    assert!(matches!(task.step(ReviewEvent::StatusSaved(false)), ReviewAction::Finish));
    assert_eq!(task.phase(), ReviewPhase::Done);
}

#[test]
fn review_task_records_failure_of_the_tool() {
    let (mut task, _) = ReviewTask::start(1, "/wt".to_string());
    task.step(ReviewEvent::StatusSaved(true));
    assert!(matches!(task.step(ReviewEvent::ToolFinished(None)), ReviewAction::SetStatus(ReviewStatus::Failed)));
}

#[test]
fn ingest_cycle_selects_each_group_then_sleeps() {
    let mut cycle = IngestCycle::new("news.example".to_string(), 119, vec!["a.b".to_string(), "c.d".to_string()]);
    assert!(matches!(cycle.step(true), IngestAction::Connect { server, port } if server == "news.example" && port == 119));
    assert!(matches!(cycle.step(true), IngestAction::SelectGroup(g) if g == "a.b"));
    assert!(matches!(cycle.step(true), IngestAction::SelectGroup(g) if g == "c.d"));
    assert!(matches!(cycle.step(true), IngestAction::Quit));
    assert!(matches!(cycle.step(true), IngestAction::Sleep(s) if s == INGEST_POLL_SECONDS));
    assert_eq!(INGEST_POLL_SECONDS, 60);
    assert!(matches!(cycle.step(true), IngestAction::Connect { .. }));
}

#[test]
fn ingest_cycle_failure_pauses_and_retries() {
    let mut cycle = IngestCycle::new("s".to_string(), 1, vec!["g".to_string()]);
    cycle.step(true);
    assert!(matches!(cycle.step(false), IngestAction::Sleep(60)));
    assert_eq!(cycle.phase(), IngestPhase::Sleeping);
    assert!(matches!(cycle.step(false), IngestAction::Connect { .. }));
    let mut empty = IngestCycle::new("s".to_string(), 1, vec![]);
    empty.step(true);
    assert!(matches!(empty.step(true), IngestAction::Quit));
}

#[test]
fn event_carries_an_article() {
    let e = Event::ArticleFetched { group: "g".to_string(), article_id: "1".to_string(), content: vec!["line".to_string()] };
    assert!(format!("{:?}", e).contains("ArticleFetched"));
}

#[test]
fn unsuccessful_tool_run_is_failed() {
    assert_eq!(tool_run_status(false, None), ReviewStatus::Failed);
    let all = report(vec![Json::String("applied".to_string())]);
    assert_eq!(tool_run_status(false, Some(&all)), ReviewStatus::Failed);
    assert_eq!(tool_run_status(true, Some(&all)), ReviewStatus::Applied);
}

#[test]
fn review_task_ignores_unexpected_events() {
    let (mut task, _) = ReviewTask::start(2, "/wt".to_string());
    assert!(matches!(task.step(ReviewEvent::ToolFinished(None)), ReviewAction::Finish));
    assert_eq!(task.phase(), ReviewPhase::Done);
}
