//! The background activity of one agent run, and what is told about it.

use std::sync::Arc;

use vstd::prelude::*;

use crate::begin::{begin_agent_run_on_main_thread, begin_run, BeginRun, Start};
use crate::finish::{FinishRequest, FinishRequestView};
use crate::identifier::{continued_processing_identifier, identifier_for};
use crate::native::{answers, optional_text, NativeCall, NativeClass, NativeReply};
use crate::request::{RequestTexts, RequestTextsView};

verus! {

/// The mode of an activity that rests on a continued-processing task.
pub const CONTINUED_PROCESSING_MODE: &'static str = "continued_processing";

/// The mode of an activity that rests on a finite background task.
pub const FINITE_BACKGROUND_TASK_MODE: &'static str = "finite_background_task";

/// The number that iOS gives for a finite background task that did not begin.
pub const BACKGROUND_TASK_INVALID: isize = -1;

/// What an expiration handler is told.
#[derive(Debug, Clone, PartialEq)]
pub struct IosAgentBackgroundExpiration {
    pub mode: String,
    pub identifier: Option<String>,
}

/// What is told about an activity when it has begun.
#[derive(Debug, Clone, PartialEq)]
pub struct IosAgentBackgroundStartReport {
    pub mode: String,
    pub identifier: Option<String>,
    pub system_version: String,
    pub continued_processing_available: bool,
    pub fallback_reason: Option<String>,
}

/// The background activity of one agent run.
#[derive(Debug, PartialEq)]
pub struct IosAgentBackgroundActivity {
    pub mode: String,
    pub continued_identifier: Option<String>,
    pub finite_background_task: Option<isize>,
    pub finished: bool,
}

/// Progress that is to be shown on the continued-processing task of a run.
#[derive(Debug, PartialEq)]
pub struct ProgressReport {
    pub identifier: String,
    pub completed: i64,
    pub total: i64,
}

/// The contents of an expiration.
pub struct ExpirationView {
    pub mode: Seq<char>,
    pub identifier: Option<Seq<char>>,
}

/// The contents of a start report.
pub struct StartReportView {
    pub mode: Seq<char>,
    pub identifier: Option<Seq<char>>,
    pub system_version: Seq<char>,
    pub continued_processing_available: bool,
    pub fallback_reason: Option<Seq<char>>,
}

/// The contents of an activity.
pub struct ActivityView {
    pub mode: Seq<char>,
    pub continued_identifier: Option<Seq<char>>,
    pub finite_background_task: Option<isize>,
    pub finished: bool,
}

impl View for IosAgentBackgroundExpiration {
    type V = ExpirationView;

    open spec fn view(&self) -> ExpirationView {
        ExpirationView { mode: self.mode@, identifier: optional_text(self.identifier) }
    }
}

impl View for IosAgentBackgroundStartReport {
    type V = StartReportView;

    open spec fn view(&self) -> StartReportView {
        StartReportView {
            mode: self.mode@,
            identifier: optional_text(self.identifier),
            system_version: self.system_version@,
            continued_processing_available: self.continued_processing_available,
            fallback_reason: optional_text(self.fallback_reason),
        }
    }
}

impl View for IosAgentBackgroundActivity {
    type V = ActivityView;

    open spec fn view(&self) -> ActivityView {
        ActivityView {
            mode: self.mode@,
            continued_identifier: optional_text(self.continued_identifier),
            finite_background_task: self.finite_background_task,
            finished: self.finished,
        }
    }
}

/// The contents of a progress report.
pub struct ProgressReportView {
    pub identifier: Seq<char>,
    pub completed: i64,
    pub total: i64,
}

impl View for ProgressReport {
    type V = ProgressReportView;

    open spec fn view(&self) -> ProgressReportView {
        ProgressReportView {
            identifier: self.identifier@,
            completed: self.completed,
            total: self.total,
        }
    }
}

/// The contents of an optional progress report.
pub open spec fn optional_report(report: Option<ProgressReport>) -> Option<ProgressReportView> {
    match report {
        Some(report) => Some(report@),
        None => None,
    }
}

/// The contents of an optional request to finish.
pub open spec fn optional_finish(request: Option<FinishRequest>) -> Option<FinishRequestView> {
    match request {
        Some(request) => Some(request@),
        None => None,
    }
}

impl ActivityView {
    /// The progress that the activity passes on: none once it has finished, and none
    /// unless it rests on a continued-processing task.
    pub open spec fn progress_report(self, completed: i64, total: i64) -> Option<
        ProgressReportView,
    > {
        if self.finished || self.continued_identifier is None {
            None
        } else {
            Some(
                ProgressReportView { identifier: self.continued_identifier->0, completed, total },
            )
        }
    }

    /// What has to be brought to an end when the activity is finished: nothing if it has
    /// finished before.
    pub open spec fn finish_request(self, success: bool) -> Option<FinishRequestView> {
        if self.finished {
            None
        } else {
            Some(
                FinishRequestView {
                    continued_identifier: self.continued_identifier,
                    finite_background_task: self.finite_background_task,
                    success,
                },
            )
        }
    }

    /// The activity once it has finished.
    pub open spec fn after_finish(self) -> ActivityView {
        ActivityView { finished: true, ..self }
    }
}

impl IosAgentBackgroundActivity {
    /// Begins the activity of a run. The first reply is awaited for the call that is
    /// returned; this and all that follows takes place on the main thread.
    pub fn begin_agent_run<H: ?Sized>(
        run_id: &str,
        title: String,
        subtitle: String,
        on_expiration: Arc<H>,
        continued_processing_enabled: bool,
    ) -> (begun: (BeginRun<H>, NativeCall<String>))
        ensures
            begun.0@ == begin_run(
                RequestTextsView {
                    identifier: identifier_for(run_id@),
                    title: title@,
                    subtitle: subtitle@,
                },
                on_expiration,
                continued_processing_enabled,
            ),
            begun.1@ == (NativeCall::<Seq<char>>::LookupClass { class: NativeClass::ProcessInfo }),
            forall|reply: NativeReply<Seq<char>>|
                answers(begun.1@, reply) ==> begun.0@.awaits(reply),
    {
        let identifier: String = continued_processing_identifier(run_id);
        let texts = RequestTexts { identifier, title, subtitle };
        begin_agent_run_on_main_thread(texts, on_expiration, continued_processing_enabled)
    }

    /// The start that a caller gets who has handed the beginning to the main thread:
    /// whether the main thread took it, and what came back from there if anything did.
    pub fn start_from_main_thread(scheduled: Result<(), String>, received: Option<Start>) -> (start:
        Start)
        ensures
            match scheduled {
                Err(error) => start == Err::<
                    (IosAgentBackgroundActivity, IosAgentBackgroundStartReport),
                    String,
                >(error),
                Ok(()) => match received {
                    Some(received) => start == received,
                    None => start is Err && start->Err_0@
                        == "iOS background activity setup channel closed"@,
                },
            },
    {
        match scheduled {
            Err(error) => Err(error),
            Ok(()) => match received {
                Some(start) => start,
                None => Err("iOS background activity setup channel closed".to_string()),
            },
        }
    }

    /// The progress that is to be shown, if any is.
    pub fn report_progress(&self, completed: i64, total: i64) -> (report: Option<ProgressReport>)
        ensures
            optional_report(report) == self@.progress_report(completed, total),
    {
        if self.finished {
            return None;
        }
        match &self.continued_identifier {
            Some(identifier) => Some(
                ProgressReport { identifier: identifier.clone(), completed, total },
            ),
            None => None,
        }
    }

    pub(crate) fn finish_request(&self, success: bool) -> (request: Option<FinishRequest>)
        ensures
            optional_finish(request) == self@.finish_request(success),
    {
        if self.finished {
            None
        } else {
            let continued_identifier: Option<String> = match &self.continued_identifier {
                Some(identifier) => Some(identifier.clone()),
                None => None,
            };
            Some(
                FinishRequest {
                    continued_identifier,
                    finite_background_task: self.finite_background_task,
                    success,
                },
            )
        }
    }

    /// Finishes the activity. What is returned has to be brought to an end on the main
    /// thread; nothing is returned if the activity has finished before.
    pub fn finish(&mut self, success: bool) -> (request: Option<FinishRequest>)
        ensures
            final(self)@ == old(self)@.after_finish(),
            optional_finish(request) == old(self)@.finish_request(success),
    {
        let request = self.finish_request(success);
        self.finished = true;
        request
    }
}

/// Once an activity has finished, it passes no progress on and has nothing to bring to an
/// end; finishing it again changes nothing.
pub proof fn law_finished_activity_is_silent(
    activity: ActivityView,
    completed: i64,
    total: i64,
    success: bool,
)
    ensures
        activity.after_finish().progress_report(completed, total) is None,
        activity.after_finish().finish_request(success) is None,
        activity.after_finish().after_finish() == activity.after_finish(),
{
}

/// An activity that has not finished hands on all that it rests on when it is finished, with
/// the success that it is finished with; finishing it changes nothing else about it.
pub proof fn law_finishing_hands_on_what_was_begun(activity: ActivityView, success: bool)
    ensures
        !activity.finished ==> {
            let request = activity.finish_request(success);
            &&& request is Some
            &&& request->0.continued_identifier == activity.continued_identifier
            &&& request->0.finite_background_task == activity.finite_background_task
            &&& request->0.success == success
        },
        activity.after_finish().finished,
        activity.after_finish().mode == activity.mode,
        activity.after_finish().continued_identifier == activity.continued_identifier,
        activity.after_finish().finite_background_task == activity.finite_background_task,
{
}

/// An activity that has not finished and rests on a continued-processing task passes on
/// exactly the progress that it is given; any other activity passes none on.
pub proof fn law_progress_is_passed_on(activity: ActivityView, completed: i64, total: i64)
    ensures
        match activity.continued_identifier {
            Some(identifier) if !activity.finished => {
                let report = activity.progress_report(completed, total);
                &&& report is Some
                &&& report->0.identifier == identifier
                &&& report->0.completed == completed
                &&& report->0.total == total
            },
            _ => activity.progress_report(completed, total) is None,
        },
{
}

/// What is stated of an expiration, a report or an activity is stated of all of it.
pub proof fn law_contents_of_an_activity(
    expiration: IosAgentBackgroundExpiration,
    start: IosAgentBackgroundStartReport,
    activity: IosAgentBackgroundActivity,
    progress: ProgressReport,
)
    ensures
        expiration@.mode == expiration.mode@,
        match expiration.identifier {
            Some(identifier) => expiration@.identifier == Some(identifier@),
            None => expiration@.identifier is None,
        },
        start@.mode == start.mode@,
        match start.identifier {
            Some(identifier) => start@.identifier == Some(identifier@),
            None => start@.identifier is None,
        },
        start@.system_version == start.system_version@,
        start@.continued_processing_available == start.continued_processing_available,
        match start.fallback_reason {
            Some(reason) => start@.fallback_reason == Some(reason@),
            None => start@.fallback_reason is None,
        },
        activity@.mode == activity.mode@,
        match activity.continued_identifier {
            Some(identifier) => activity@.continued_identifier == Some(identifier@),
            None => activity@.continued_identifier is None,
        },
        activity@.finite_background_task == activity.finite_background_task,
        activity@.finished == activity.finished,
        progress@.identifier == progress.identifier@,
        progress@.completed == progress.completed,
        progress@.total == progress.total,
{
}

/// What is stated of an optional report or request is stated of the report or request itself.
pub proof fn law_contents_of_what_is_handed_on(report: ProgressReport, request: FinishRequest)
    ensures
        optional_report(Some(report)) == Some(report@),
        optional_report(None) is None,
        optional_finish(Some(request)) == Some(request@),
        optional_finish(None) is None,
        match request.continued_identifier {
            Some(identifier) => request@.continued_identifier == Some(identifier@),
            None => request@.continued_identifier is None,
        },
        request@.finite_background_task == request.finite_background_task,
        request@.success == request.success,
{
}

} // verus!
