//! The progress of a run, as its status tells it and as iOS shows it.

use vstd::hash_map::StringHashMap;
use vstd::prelude::*;

use crate::native::{NativeCall, NativeReply, NativeSelector, Phase};
use crate::registry::{entry, launched_task};

verus! {

/// The status of an agent run.
#[derive(Debug, Clone, Copy, PartialEq, Eq, Structural)]
pub enum AgentRunStatus {
    Created,
    InitializingWorkspace,
    AssemblingContext,
    CallingModel,
    DispatchingTool,
    ApplyingWorkspacePatch,
    CreatingCheckpoint,
    AwaitingHostCommit,
    Finishing,
    Completed,
    PartialSuccess,
    Cancelling,
    Cancelled,
    Failed,
}

/// Progress as units of work completed out of a total.
#[derive(Debug, Clone, Copy, PartialEq, Eq, Structural)]
pub struct BackgroundProgress {
    pub completed: i64,
    pub total: i64,
}

/// How many units all of a run's work is.
pub const TOTAL_UNITS: i64 = 100;

/// How many units are shown as completed when a task has just been launched.
pub const LAUNCHED_UNITS: i64 = 1;

/// Whether a run with a status does not go on any more.
pub open spec fn is_terminal(status: AgentRunStatus) -> bool {
    ||| status is Completed
    ||| status is PartialSuccess
    ||| status is Cancelled
    ||| status is Failed
}

/// How many units of a run's work are completed, by the run's status.
pub open spec fn completed_units(status: AgentRunStatus) -> int {
    match status {
        AgentRunStatus::Created => 1,
        AgentRunStatus::InitializingWorkspace => 10,
        AgentRunStatus::AssemblingContext => 20,
        AgentRunStatus::CallingModel => 40,
        AgentRunStatus::DispatchingTool => 60,
        AgentRunStatus::ApplyingWorkspacePatch => 68,
        AgentRunStatus::CreatingCheckpoint => 76,
        AgentRunStatus::AwaitingHostCommit => 82,
        AgentRunStatus::Finishing => 92,
        AgentRunStatus::Completed => 100,
        AgentRunStatus::PartialSuccess => 100,
        AgentRunStatus::Cancelling => 100,
        AgentRunStatus::Cancelled => 100,
        AgentRunStatus::Failed => 100,
    }
}

/// The progress of a run, by its status.
pub fn background_progress_for_status(status: AgentRunStatus) -> (progress: Option<
    BackgroundProgress,
>)
    ensures
        progress is Some,
        progress->0.completed == completed_units(status),
        progress->0.total == TOTAL_UNITS,
{
    let completed: i64 = match status {
        AgentRunStatus::Created => 1,
        AgentRunStatus::InitializingWorkspace => 10,
        AgentRunStatus::AssemblingContext => 20,
        AgentRunStatus::CallingModel => 40,
        AgentRunStatus::DispatchingTool => 60,
        AgentRunStatus::ApplyingWorkspacePatch => 68,
        AgentRunStatus::CreatingCheckpoint => 76,
        AgentRunStatus::AwaitingHostCommit => 82,
        AgentRunStatus::Finishing => 92,
        AgentRunStatus::Completed | AgentRunStatus::PartialSuccess => 100,
        AgentRunStatus::Cancelling | AgentRunStatus::Cancelled | AgentRunStatus::Failed => 100,
    };
    Some(BackgroundProgress { completed, total: TOTAL_UNITS })
}

impl AgentRunStatus {
    /// Whether a run with the status does not go on any more.
    pub fn is_terminal(&self) -> (terminal: bool)
        ensures
            terminal == is_terminal(*self),
    {
        matches!(
            self,
            AgentRunStatus::Completed
            | AgentRunStatus::PartialSuccess
            | AgentRunStatus::Cancelled
            | AgentRunStatus::Failed
        )
    }
}

/// The total that is shown: at least one unit.
pub open spec fn shown_total(total: i64) -> i64 {
    if total < 1 {
        1
    } else {
        total
    }
}

/// The completed units that are shown: none at least, and the shown total at most.
pub open spec fn shown_completed(completed: i64, total: i64) -> i64 {
    if completed < 0 {
        0
    } else if completed > shown_total(total) {
        shown_total(total)
    } else {
        completed
    }
}

/// The progress that is shown for the progress that is reported.
pub fn shown_progress(completed: i64, total: i64) -> (shown: BackgroundProgress)
    ensures
        shown.total == shown_total(total),
        shown.completed == shown_completed(completed, total),
{
    let total: i64 = if total < 1 {
        1
    } else {
        total
    };
    let completed: i64 = if completed < 0 {
        0
    } else if completed > total {
        total
    } else {
        completed
    };
    BackgroundProgress { completed, total }
}

/// Showing the progress of a launched task.
#[derive(Debug, Clone, Copy, PartialEq, Eq, Structural)]
pub enum ProgressUpdate {
    /// The task has been asked whether it shows progress.
    Query { task: usize, shown: BackgroundProgress },
    /// The progress object of the task has been asked for.
    Object { shown: BackgroundProgress },
    /// The total is being set.
    Total { progress: usize, shown: BackgroundProgress },
    /// The completed units are being set.
    Completed,
}

/// How showing the progress of an identifier begins: there is nothing to show unless a
/// task has been launched under the identifier.
pub open spec fn progress_update(
    tasks: Map<Seq<char>, usize>,
    identifier: Seq<char>,
    completed: i64,
    total: i64,
) -> Phase<ProgressUpdate, Seq<char>, ()> {
    match entry(tasks, identifier) {
        None => Phase::Done(()),
        Some(task) => if task == 0 {
            Phase::Done(())
        } else {
            Phase::Ask(
                ProgressUpdate::Query {
                    task,
                    shown: BackgroundProgress {
                        completed: shown_completed(completed, total),
                        total: shown_total(total),
                    },
                },
                NativeCall::ObjectResponds { object: task, selector: NativeSelector::Progress },
            )
        },
    }
}

/// Begins to show the progress of the run whose task stands under an identifier.
pub fn update_continued_processing_progress(
    tasks: &StringHashMap<usize>,
    identifier: &str,
    completed: i64,
    total: i64,
) -> (phase: Phase<ProgressUpdate, String, ()>)
    ensures
        phase@ == progress_update(tasks@, identifier@, completed, total),
{
    match launched_task(tasks, identifier) {
        None => Phase::Done(()),
        Some(task) => if task == 0 {
            Phase::Done(())
        } else {
            Phase::Ask(
                ProgressUpdate::Query { task, shown: shown_progress(completed, total) },
                NativeCall::ObjectResponds { object: task, selector: NativeSelector::Progress },
            )
        },
    }
}

impl ProgressUpdate {
    /// Whether the update can go on with a reply.
    pub open spec fn awaits(self, reply: NativeReply<Seq<char>>) -> bool {
        match self {
            ProgressUpdate::Query { .. } => reply is Flag,
            ProgressUpdate::Object { .. } => reply is Object,
            ProgressUpdate::Total { .. } => reply is Done,
            ProgressUpdate::Completed => reply is Done,
        }
    }

    /// How the update goes on with a reply.
    pub open spec fn after(self, reply: NativeReply<Seq<char>>) -> Phase<
        ProgressUpdate,
        Seq<char>,
        (),
    > {
        match self {
            ProgressUpdate::Query { task, shown } => if reply->Flag_0 {
                Phase::Ask(ProgressUpdate::Object { shown }, NativeCall::TaskProgress { task })
            } else {
                Phase::Done(())
            },
            ProgressUpdate::Object { shown } => if reply->Object_0 == 0 {
                Phase::Done(())
            } else {
                Phase::Ask(
                    ProgressUpdate::Total { progress: reply->Object_0, shown },
                    NativeCall::SetTotalUnitCount {
                        progress: reply->Object_0,
                        total: shown.total,
                    },
                )
            },
            ProgressUpdate::Total { progress, shown } => Phase::Ask(
                ProgressUpdate::Completed,
                NativeCall::SetCompletedUnitCount { progress, completed: shown.completed },
            ),
            ProgressUpdate::Completed => Phase::Done(()),
        }
    }

    /// Goes on with the reply to the call that was handed out last.
    pub fn resume(self, reply: NativeReply<String>) -> (phase: Phase<ProgressUpdate, String, ()>)
        requires
            self.awaits(reply@),
        ensures
            phase@ == self.after(reply@),
    {
        match self {
            ProgressUpdate::Query { task, shown } => if reply.into_flag() {
                Phase::Ask(ProgressUpdate::Object { shown }, NativeCall::TaskProgress { task })
            } else {
                Phase::Done(())
            },
            ProgressUpdate::Object { shown } => {
                let progress: usize = reply.into_object();
                if progress == 0 {
                    Phase::Done(())
                } else {
                    Phase::Ask(
                        ProgressUpdate::Total { progress, shown },
                        NativeCall::SetTotalUnitCount { progress, total: shown.total },
                    )
                }
            },
            ProgressUpdate::Total { progress, shown } => Phase::Ask(
                ProgressUpdate::Completed,
                NativeCall::SetCompletedUnitCount { progress, completed: shown.completed },
            ),
            ProgressUpdate::Completed => Phase::Done(()),
        }
    }
}

/// The order in which a run that is not disturbed goes through its statuses; all ends
/// come last.
pub open spec fn stage(status: AgentRunStatus) -> int {
    match status {
        AgentRunStatus::Created => 0,
        AgentRunStatus::InitializingWorkspace => 1,
        AgentRunStatus::AssemblingContext => 2,
        AgentRunStatus::CallingModel => 3,
        AgentRunStatus::DispatchingTool => 4,
        AgentRunStatus::ApplyingWorkspacePatch => 5,
        AgentRunStatus::CreatingCheckpoint => 6,
        AgentRunStatus::AwaitingHostCommit => 7,
        AgentRunStatus::Finishing => 8,
        _ => 9,
    }
}

/// Progress never exceeds the total, is never empty, and is shown exactly as it is
/// reported.
pub proof fn law_progress_is_within_the_total(status: AgentRunStatus)
    ensures
        1 <= completed_units(status) <= TOTAL_UNITS,
        shown_total(TOTAL_UNITS) == TOTAL_UNITS,
        shown_completed(completed_units(status) as i64, TOTAL_UNITS) == completed_units(status),
{
}

/// A later stage of a run shows more progress than an earlier one.
pub proof fn law_progress_grows_with_the_stage(earlier: AgentRunStatus, later: AgentRunStatus)
    requires
        stage(earlier) < stage(later),
    ensures
        completed_units(earlier) < completed_units(later),
{
}

/// Progress is complete exactly for a run that has ended or is being cancelled.
pub proof fn law_progress_is_complete_at_the_end(status: AgentRunStatus)
    ensures
        completed_units(status) == TOTAL_UNITS <==> is_terminal(status) || status is Cancelling,
{
}

/// Whatever is reported, what is shown is a number of units between none and the total,
/// and the total is at least one.
pub proof fn law_shown_progress_is_sound(completed: i64, total: i64)
    ensures
        shown_total(total) >= 1,
        0 <= shown_completed(completed, total) <= shown_total(total),
        1 <= total && 0 <= completed <= total ==> shown_total(total) == total && shown_completed(
            completed,
            total,
        ) == completed,
{
}

/// What is shown is what was reported, moved into bounds no further than needed: a total
/// below one becomes one, completed units below none become none, and completed units above
/// the total become the total.
pub proof fn law_shown_progress_is_the_nearest(completed: i64, total: i64)
    ensures
        total >= 1 ==> shown_total(total) == total,
        total < 1 ==> shown_total(total) == 1,
        completed <= 0 ==> shown_completed(completed, total) == 0,
        completed >= 1 && total < 1 ==> shown_completed(completed, total) == 1,
        total >= 1 && completed >= total ==> shown_completed(completed, total) == total,
        0 <= completed <= total ==> shown_completed(completed, total) == completed,
{
}

/// The share of a run's work that each status stands for, in hundredths.
pub proof fn law_progress_of_each_status(status: AgentRunStatus)
    ensures
        TOTAL_UNITS == 100,
        status is Created ==> completed_units(status) == 1,
        status is InitializingWorkspace ==> completed_units(status) == 10,
        status is AssemblingContext ==> completed_units(status) == 20,
        status is CallingModel ==> completed_units(status) == 40,
        status is DispatchingTool ==> completed_units(status) == 60,
        status is ApplyingWorkspacePatch ==> completed_units(status) == 68,
        status is CreatingCheckpoint ==> completed_units(status) == 76,
        status is AwaitingHostCommit ==> completed_units(status) == 82,
        status is Finishing ==> completed_units(status) == 92,
        status is Completed || status is PartialSuccess || status is Cancelling || status
            is Cancelled || status is Failed ==> completed_units(status) == 100,
{
}

} // verus!
