use ios_agent_background::native::{NativeCall, NativeReply, NativeSelector, Phase};
use ios_agent_background::progress::{
    background_progress_for_status, shown_progress, update_continued_processing_progress,
    AgentRunStatus, BackgroundProgress,
};
use ios_agent_background::registry::continued_processing_tasks;

const ALL: [AgentRunStatus; 14] = [
    AgentRunStatus::Created,
    AgentRunStatus::InitializingWorkspace,
    AgentRunStatus::AssemblingContext,
    AgentRunStatus::CallingModel,
    AgentRunStatus::DispatchingTool,
    AgentRunStatus::ApplyingWorkspacePatch,
    AgentRunStatus::CreatingCheckpoint,
    AgentRunStatus::AwaitingHostCommit,
    AgentRunStatus::Finishing,
    AgentRunStatus::Completed,
    AgentRunStatus::PartialSuccess,
    AgentRunStatus::Cancelling,
    AgentRunStatus::Cancelled,
    AgentRunStatus::Failed,
];

#[test]
fn progress_follows_the_status() {
    let expected = [1, 10, 20, 40, 60, 68, 76, 82, 92, 100, 100, 100, 100, 100];
    for (status, completed) in ALL.into_iter().zip(expected) {
        assert_eq!(
            background_progress_for_status(status),
            Some(BackgroundProgress { completed, total: 100 })
        );
    }
}

#[test]
fn progress_grows_until_the_end() {
    for pair in ALL[..10].windows(2) {
        let earlier = background_progress_for_status(pair[0]).unwrap();
        let later = background_progress_for_status(pair[1]).unwrap();
        assert!(earlier.completed < later.completed);
    }
}

#[test]
fn terminal_statuses_are_told_apart() {
    let terminal: Vec<AgentRunStatus> = ALL.into_iter().filter(|s| s.is_terminal()).collect();
    assert_eq!(
        terminal,
        vec![
            AgentRunStatus::Completed,
            AgentRunStatus::PartialSuccess,
            AgentRunStatus::Cancelled,
            AgentRunStatus::Failed,
        ]
    );
}

#[test]
fn mapped_progress_is_shown_unchanged() {
    for status in ALL {
        let progress = background_progress_for_status(status).unwrap();
        assert_eq!(shown_progress(progress.completed, progress.total), progress);
    }
}

#[test]
fn shown_progress_is_kept_within_bounds() {
    assert_eq!(shown_progress(5, 10), BackgroundProgress { completed: 5, total: 10 });
    assert_eq!(shown_progress(-5, 10), BackgroundProgress { completed: 0, total: 10 });
    assert_eq!(shown_progress(11, 10), BackgroundProgress { completed: 10, total: 10 });
    assert_eq!(shown_progress(5, 0), BackgroundProgress { completed: 1, total: 1 });
    assert_eq!(shown_progress(0, -3), BackgroundProgress { completed: 0, total: 1 });
    assert_eq!(
        shown_progress(i64::MIN, i64::MIN),
        BackgroundProgress { completed: 0, total: 1 }
    );
    assert_eq!(
        shown_progress(i64::MAX, i64::MAX),
        BackgroundProgress { completed: i64::MAX, total: i64::MAX }
    );
}

#[test]
fn progress_without_a_launched_task_makes_no_call() {
    let tasks = continued_processing_tasks();
    assert_eq!(
        update_continued_processing_progress(&tasks, "id", 40, 100),
        Phase::Done(())
    );
}

#[test]
fn progress_of_a_null_task_makes_no_call() {
    let mut tasks = continued_processing_tasks();
    tasks.insert("id".to_string(), 0);
    assert_eq!(
        update_continued_processing_progress(&tasks, "id", 40, 100),
        Phase::Done(())
    );
}

#[test]
fn progress_is_set_total_first() {
    let mut tasks = continued_processing_tasks();
    tasks.insert("id".to_string(), 11);
    let mut phase = update_continued_processing_progress(&tasks, "id", 140, 100);
    let mut calls = Vec::new();
    while let Phase::Ask(update, call) = phase {
        let reply = match &call {
            NativeCall::ObjectResponds { .. } => NativeReply::Flag(true),
            NativeCall::TaskProgress { .. } => NativeReply::Object(12),
            _ => NativeReply::Done,
        };
        assert!(call.is_answered_by(&reply));
        calls.push(call);
        phase = update.resume(reply);
    }
    assert_eq!(
        calls,
        vec![
            NativeCall::ObjectResponds { object: 11, selector: NativeSelector::Progress },
            NativeCall::TaskProgress { task: 11 },
            NativeCall::SetTotalUnitCount { progress: 12, total: 100 },
            NativeCall::SetCompletedUnitCount { progress: 12, completed: 100 },
        ]
    );
}

#[test]
fn a_task_without_progress_is_left_alone() {
    let mut tasks = continued_processing_tasks();
    tasks.insert("id".to_string(), 11);
    match update_continued_processing_progress(&tasks, "id", 1, 100) {
        Phase::Ask(update, _) => {
            assert_eq!(update.resume(NativeReply::Flag(false)), Phase::Done(()));
        }
        Phase::Done(()) => panic!("the task was not asked"),
    }
    match update_continued_processing_progress(&tasks, "id", 1, 100) {
        Phase::Ask(update, _) => match update.resume(NativeReply::Flag(true)) {
            Phase::Ask(update, _) => {
                assert_eq!(update.resume(NativeReply::Object(0)), Phase::Done(()));
            }
            Phase::Done(()) => panic!("the progress object was not asked for"),
        },
        Phase::Done(()) => panic!("the task was not asked"),
    }
}
