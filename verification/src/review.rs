use vstd::prelude::*;

use crate::json::{items_view, lemma_items_view, Json, JsonView};
use crate::text::{same_text, signed_decimal, signed_decimal_string, string_views};

verus! {

/// How many pending patchsets one polling round takes up for review.
pub const PENDING_BATCH_SIZE: usize = 10;

/// Seconds between two polling rounds for pending patchsets.
pub const REVIEW_POLL_SECONDS: u64 = 10;

/// The review states that are recorded for a patchset.
#[derive(Debug, Clone, Copy, PartialEq, Eq, Structural)]
pub enum ReviewStatus {
    /// Taken by a review task, so that no other round takes it again.
    Reviewing,
    /// Every patch of the set applied.
    Applied,
    /// Some patch did not apply, or the review could not be made.
    Failed,
}

impl ReviewStatus {
    /// The word stored for this status.
    pub open spec fn spec_label(self) -> Seq<char> {
        match self {
            ReviewStatus::Reviewing => "Reviewing"@,
            ReviewStatus::Applied => "Applied"@,
            ReviewStatus::Failed => "Failed"@,
        }
    }

    /// The word stored for this status.
    pub fn label(&self) -> (word: &'static str)
        ensures
            word@ == self.spec_label(),
    {
        match self {
            ReviewStatus::Reviewing => "Reviewing",
            ReviewStatus::Applied => "Applied",
            ReviewStatus::Failed => "Failed",
        }
    }
}

/// The program that runs the review tool.
pub open spec fn spec_review_program() -> Seq<char> {
    "cargo"@
}

/// The arguments that run the review tool on a patchset, applying it on top of next/master
/// in a worktree under `worktree_dir`.
pub open spec fn review_arguments(patchset_id: i64, worktree_dir: Seq<char>) -> Seq<Seq<char>> {
    seq![
        "run"@,
        "--bin"@,
        "review"@,
        "--"@,
        "--patchset"@,
        signed_decimal(patchset_id as int),
        "--baseline"@,
        "next/master"@,
        "--worktree-dir"@,
        worktree_dir,
    ]
}

/// The arguments that run the review tool on a patchset.
pub fn review_tool_arguments(patchset_id: i64, worktree_dir: &str) -> (args: Vec<String>)
    ensures
        string_views(args@) == review_arguments(patchset_id, worktree_dir@),
{
    let mut args: Vec<String> = Vec::new();
    args.push(String::from_str("run"));
    args.push(String::from_str("--bin"));
    args.push(String::from_str("review"));
    args.push(String::from_str("--"));
    args.push(String::from_str("--patchset"));
    args.push(signed_decimal_string(patchset_id));
    args.push(String::from_str("--baseline"));
    args.push(String::from_str("next/master"));
    args.push(String::from_str("--worktree-dir"));
    args.push(String::from_str(worktree_dir));
    assert(string_views(args@) =~= review_arguments(patchset_id, worktree_dir@));
    args
}

/// Whether an entry of the report says that its patch applied.
pub open spec fn patch_applied(patch: JsonView) -> bool {
    patch.get("status"@) == JsonView::Str("applied"@)
}

/// Whether a report of the review tool lists its patches as an array.
pub open spec fn lists_patches(report: JsonView) -> bool {
    report.get("patches"@).as_array() is Some
}

/// The status that a report of the review tool gives: `Applied` where every patch it lists
/// applied, `Failed` otherwise.
pub open spec fn status_of_report(report: JsonView) -> ReviewStatus {
    let patches = report.get("patches"@).as_array()->0;
    if forall|i: int| 0 <= i < patches.len() ==> #[trigger] patch_applied(patches[i]) {
        ReviewStatus::Applied
    } else {
        ReviewStatus::Failed
    }
}

fn applied(patch: &Json) -> (yes: bool)
    ensures
        yes == patch_applied(patch@),
{
    match patch.get("status") {
        Some(s) => match s {
            Json::String(text) => same_text(text.as_str(), "applied"),
            _ => false,
        },
        None => false,
    }
}

/// The status that a run of the review tool gives: `Failed` when the tool did not succeed,
/// whatever it wrote, and otherwise the status its report gives.
pub fn tool_run_status(succeeded: bool, report: Option<&Json>) -> (status: ReviewStatus)
    requires
        succeeded ==> (report matches Some(r) && lists_patches(r@)),
    ensures
        status == (if succeeded {
            status_of_report(report->0@)
        } else {
            ReviewStatus::Failed
        }),
{
    if !succeeded {
        return ReviewStatus::Failed;
    }
    match report {
        Some(r) => report_status(r),
        None => ReviewStatus::Failed,
    }
}

/// The status that a report of the review tool gives: `Applied` where every patch in its
/// `patches` array has the status "applied", `Failed` otherwise.
pub fn report_status(report: &Json) -> (status: ReviewStatus)
    requires
        lists_patches(report@),
    ensures
        status == status_of_report(report@),
{
    let patches = match report.get("patches") {
        Some(p) => p.as_array(),
        None => None,
    };
    let patches = match patches {
        Some(p) => p,
        None => {
            return ReviewStatus::Failed;
        },
    };
    let ghost views = items_view(patches@);
    proof {
        lemma_items_view(patches@);
    }
    let mut i: usize = 0;
    while i < patches.len()
        invariant
            i <= patches@.len(),
            views == items_view(patches@),
            views == report@.get("patches"@).as_array()->0,
            views.len() == patches@.len(),
            forall|j: int| 0 <= j < patches@.len() ==> #[trigger] views[j] == patches@[j]@,
            forall|j: int| 0 <= j < i ==> #[trigger] patch_applied(views[j]),
        decreases patches.len() - i,
    {
        if !applied(&patches[i]) {
            assert(!patch_applied(views[i as int]));
            return ReviewStatus::Failed;
        }
        i = i + 1;
    }
    ReviewStatus::Applied
}

/// Where a review task stands.
#[derive(Debug, Clone, Copy, PartialEq, Eq, Structural)]
pub enum ReviewPhase {
    /// Recording that the patchset is being reviewed.
    MarkingReviewing,
    /// Running the review tool.
    RunningTool,
    /// Recording the outcome of the review.
    RecordingResult,
    /// Finished.
    Done,
}

/// What happened to the last action of a review task.
#[derive(Debug, Clone, Copy, PartialEq, Eq, Structural)]
pub enum ReviewEvent {
    /// The status was stored, or storing it failed.
    StatusSaved(bool),
    /// The review tool gave this status, or `None` where its report could not be read.
    ToolFinished(Option<ReviewStatus>),
}

/// What a review task does next.
#[derive(Debug)]
pub enum ReviewAction {
    /// Store this status for the patchset.
    SetStatus(ReviewStatus),
    /// Run this program with these arguments.
    RunTool { program: String, args: Vec<String> },
    /// Stop.
    Finish,
}

/// The mathematical form of a `ReviewAction`.
pub enum ReviewActionView {
    SetStatus(ReviewStatus),
    RunTool { program: Seq<char>, args: Seq<Seq<char>> },
    Finish,
}

impl View for ReviewAction {
    type V = ReviewActionView;

    open spec fn view(&self) -> ReviewActionView {
        match self {
            ReviewAction::SetStatus(s) => ReviewActionView::SetStatus(*s),
            ReviewAction::RunTool { program, args } => ReviewActionView::RunTool {
                program: program@,
                args: string_views(args@),
            },
            ReviewAction::Finish => ReviewActionView::Finish,
        }
    }
}

/// Whether a review task in this phase waits for this event.
pub open spec fn review_awaits(phase: ReviewPhase, event: ReviewEvent) -> bool {
    match (phase, event) {
        (ReviewPhase::MarkingReviewing, ReviewEvent::StatusSaved(_)) => true,
        (ReviewPhase::RunningTool, ReviewEvent::ToolFinished(_)) => true,
        (ReviewPhase::RecordingResult, ReviewEvent::StatusSaved(_)) => true,
        _ => false,
    }
}

/// The next phase of a review task of a patchset, and its next action: the tool runs once
/// "Reviewing" is stored, and its status, or "Failed", is stored after it; a task whose
/// first status could not be stored stops.
pub open spec fn review_next(
    patchset_id: i64,
    worktree_dir: Seq<char>,
    phase: ReviewPhase,
    event: ReviewEvent,
) -> (ReviewPhase, ReviewActionView) {
    match (phase, event) {
        (ReviewPhase::MarkingReviewing, ReviewEvent::StatusSaved(true)) => (
            ReviewPhase::RunningTool,
            ReviewActionView::RunTool {
                program: spec_review_program(),
                args: review_arguments(patchset_id, worktree_dir),
            },
        ),
        (ReviewPhase::RunningTool, ReviewEvent::ToolFinished(Some(status))) => (
            ReviewPhase::RecordingResult,
            ReviewActionView::SetStatus(status),
        ),
        (ReviewPhase::RunningTool, ReviewEvent::ToolFinished(None)) => (
            ReviewPhase::RecordingResult,
            ReviewActionView::SetStatus(ReviewStatus::Failed),
        ),
        _ => (ReviewPhase::Done, ReviewActionView::Finish),
    }
}

/// The review of one patchset, as a task that stores statuses and runs the review tool.
pub struct ReviewTask {
    patchset_id: i64,
    worktree_dir: String,
    phase: ReviewPhase,
}

impl ReviewTask {
    /// The patchset under review.
    pub closed spec fn spec_patchset_id(&self) -> i64 {
        self.patchset_id
    }

    /// The directory under which the tool makes its worktrees.
    pub closed spec fn spec_worktree_dir(&self) -> Seq<char> {
        self.worktree_dir@
    }

    /// Where the task stands.
    pub closed spec fn spec_phase(&self) -> ReviewPhase {
        self.phase
    }

    /// A review task for a patchset, and its first action: storing "Reviewing", so that the
    /// next round does not take the patchset again.
    pub fn start(patchset_id: i64, worktree_dir: String) -> (started: (ReviewTask, ReviewAction))
        ensures
            started.0.spec_patchset_id() == patchset_id,
            started.0.spec_worktree_dir() == worktree_dir@,
            started.0.spec_phase() == ReviewPhase::MarkingReviewing,
            started.1@ == ReviewActionView::SetStatus(ReviewStatus::Reviewing),
    {
        (
            ReviewTask { patchset_id, worktree_dir, phase: ReviewPhase::MarkingReviewing },
            ReviewAction::SetStatus(ReviewStatus::Reviewing),
        )
    }

    /// Where the task stands.
    pub fn phase(&self) -> (phase: ReviewPhase)
        ensures
            phase == self.spec_phase(),
    {
        self.phase
    }

    /// Whether the task waits for this event.
    pub fn awaits(&self, event: ReviewEvent) -> (yes: bool)
        ensures
            yes == review_awaits(self.spec_phase(), event),
    {
        match (self.phase, event) {
            (ReviewPhase::MarkingReviewing, ReviewEvent::StatusSaved(_)) => true,
            (ReviewPhase::RunningTool, ReviewEvent::ToolFinished(_)) => true,
            (ReviewPhase::RecordingResult, ReviewEvent::StatusSaved(_)) => true,
            _ => false,
        }
    }

    /// Takes the outcome of the last action and gives the next one; an event the task does not
    /// wait for ends it.
    pub fn step(&mut self, event: ReviewEvent) -> (action: ReviewAction)
        ensures
            final(self).spec_patchset_id() == old(self).spec_patchset_id(),
            final(self).spec_worktree_dir() == old(self).spec_worktree_dir(),
            (final(self).spec_phase(), action@) == review_next(
                old(self).spec_patchset_id(),
                old(self).spec_worktree_dir(),
                old(self).spec_phase(),
                event,
            ),
    {
        match (self.phase, event) {
            (ReviewPhase::MarkingReviewing, ReviewEvent::StatusSaved(true)) => {
                self.phase = ReviewPhase::RunningTool;
                proof {
                    reveal_strlit("cargo");
                }
                ReviewAction::RunTool {
                    program: String::from_str("cargo"),
                    args: review_tool_arguments(self.patchset_id, self.worktree_dir.as_str()),
                }
            },
            (ReviewPhase::RunningTool, ReviewEvent::ToolFinished(Some(status))) => {
                self.phase = ReviewPhase::RecordingResult;
                ReviewAction::SetStatus(status)
            },
            (ReviewPhase::RunningTool, ReviewEvent::ToolFinished(None)) => {
                self.phase = ReviewPhase::RecordingResult;
                ReviewAction::SetStatus(ReviewStatus::Failed)
            },
            _ => {
                self.phase = ReviewPhase::Done;
                ReviewAction::Finish
            },
        }
    }
}

} // verus!

verus! {

/// How many more events a review task in this phase can take.
pub open spec fn review_phase_rank(phase: ReviewPhase) -> nat {
    match phase {
        ReviewPhase::MarkingReviewing => 3,
        ReviewPhase::RunningTool => 2,
        ReviewPhase::RecordingResult => 1,
        ReviewPhase::Done => 0,
    }
}

/// The review tool runs only once "Reviewing" has been stored for the patchset, so that a
/// later round cannot take the same patchset while it is under review.
pub proof fn tool_runs_only_after_reviewing_is_stored(
    patchset_id: i64,
    worktree_dir: Seq<char>,
    phase: ReviewPhase,
    event: ReviewEvent,
)
    requires
        review_awaits(phase, event),
        review_next(patchset_id, worktree_dir, phase, event).1 is RunTool,
    ensures
        phase == ReviewPhase::MarkingReviewing,
        event == ReviewEvent::StatusSaved(true),
{
}

/// Once the tool has run, the status stored is the one it reported, or "Failed" where its
/// report could not be read; a task whose "Reviewing" could not be stored stops without
/// running the tool.
pub proof fn outcome_of_the_tool_is_stored(patchset_id: i64, worktree_dir: Seq<char>)
    ensures
        forall|status: ReviewStatus|
            #[trigger] review_next(
                patchset_id,
                worktree_dir,
                ReviewPhase::RunningTool,
                ReviewEvent::ToolFinished(Some(status)),
            ).1 == ReviewActionView::SetStatus(status),
        review_next(
            patchset_id,
            worktree_dir,
            ReviewPhase::RunningTool,
            ReviewEvent::ToolFinished(None),
        ).1 == ReviewActionView::SetStatus(ReviewStatus::Failed),
        review_next(
            patchset_id,
            worktree_dir,
            ReviewPhase::MarkingReviewing,
            ReviewEvent::StatusSaved(false),
        ) == (ReviewPhase::Done, ReviewActionView::Finish),
{
}

/// Every event a review task waits for moves it closer to the end: a task takes at most
/// three events and then finishes.
pub proof fn review_task_ends(
    patchset_id: i64,
    worktree_dir: Seq<char>,
    phase: ReviewPhase,
    event: ReviewEvent,
)
    requires
        review_awaits(phase, event),
    ensures
        review_phase_rank(review_next(patchset_id, worktree_dir, phase, event).0)
            < review_phase_rank(phase),
        review_phase_rank(phase) <= 3,
{
}

} // verus!

verus! {

/// A report that lists its patches gives `Applied` when every listed patch has the status
/// "applied", and `Failed` as soon as one listed patch has any other status (or none).
pub proof fn report_is_applied_only_when_every_patch_applied(report: JsonView)
    requires
        lists_patches(report),
    ensures
        (forall|i: int|
            0 <= i < report.get("patches"@).as_array()->0.len() ==> #[trigger] report.get(
                "patches"@,
            ).as_array()->0[i].get("status"@) == JsonView::Str("applied"@)) ==> status_of_report(
            report,
        ) == ReviewStatus::Applied,
        forall|i: int|
            0 <= i < report.get("patches"@).as_array()->0.len() && #[trigger] report.get(
                "patches"@,
            ).as_array()->0[i].get("status"@) != JsonView::Str("applied"@) ==> status_of_report(
                report,
            ) == ReviewStatus::Failed,
{
    let patches = report.get("patches"@).as_array()->0;
    assert forall|i: int| 0 <= i < patches.len() && patches[i].get("status"@) != JsonView::Str(
        "applied"@,
    ) implies status_of_report(report) == ReviewStatus::Failed by {
        assert(!patch_applied(patches[i]));
    }
}

/// The whole life of a review task: it stores "Reviewing"; if that fails it stops at once;
/// otherwise it runs `cargo run --bin review` on the patchset, stores the tool's status (or
/// "Failed" where the tool gave none), and then stops, whether or not that store succeeded,
/// storing nothing more.
pub proof fn review_task_life(
    patchset_id: i64,
    worktree_dir: Seq<char>,
    outcome: Option<ReviewStatus>,
    saved: bool,
)
    ensures
        review_next(
            patchset_id,
            worktree_dir,
            ReviewPhase::MarkingReviewing,
            ReviewEvent::StatusSaved(false),
        ) == (ReviewPhase::Done, ReviewActionView::Finish),
        review_next(
            patchset_id,
            worktree_dir,
            ReviewPhase::MarkingReviewing,
            ReviewEvent::StatusSaved(true),
        ) == (
            ReviewPhase::RunningTool,
            ReviewActionView::RunTool {
                program: "cargo"@,
                args: seq![
                    "run"@,
                    "--bin"@,
                    "review"@,
                    "--"@,
                    "--patchset"@,
                    signed_decimal(patchset_id as int),
                    "--baseline"@,
                    "next/master"@,
                    "--worktree-dir"@,
                    worktree_dir,
                ],
            },
        ),
        review_next(
            patchset_id,
            worktree_dir,
            ReviewPhase::RunningTool,
            ReviewEvent::ToolFinished(outcome),
        ) == (
            ReviewPhase::RecordingResult,
            ReviewActionView::SetStatus(
                match outcome {
                    Some(s) => s,
                    None => ReviewStatus::Failed,
                },
            ),
        ),
        review_next(
            patchset_id,
            worktree_dir,
            ReviewPhase::RecordingResult,
            ReviewEvent::StatusSaved(saved),
        ) == (ReviewPhase::Done, ReviewActionView::Finish),
        forall|event: ReviewEvent|
            #[trigger] review_next(patchset_id, worktree_dir, ReviewPhase::Done, event) == (
                ReviewPhase::Done,
                ReviewActionView::Finish,
            ),
{
}

} // verus!
