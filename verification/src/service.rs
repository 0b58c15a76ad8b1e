//! The background activities of the runs that the agent runtime has under way.

use vstd::hash_map::StringHashMap;
use vstd::prelude::*;

use crate::activity::{
    optional_finish, optional_report, IosAgentBackgroundActivity, ProgressReport,
    ProgressReportView,
};
use crate::begin::{start_view, Start};
use crate::event::{
    activity_finished, activity_unavailable, emit_ios_start_event, finished_event, started_event,
    unavailable_event, AgentRunEvent,
};
use crate::finish::FinishRequest;
use crate::identifier::{
    law_short_form_is_the_tail_behind_the_last_underscore, short_form, short_run_id,
};
use crate::progress::{
    background_progress_for_status, completed_units, AgentRunStatus, TOTAL_UNITS,
};
use crate::registry::entry;

verus! {

/// The title under which the system shows the activity of a run.
pub const ACTIVITY_TITLE: &'static str = "TauriTavern Agent Run";

/// An agent run, as far as its background activity is concerned.
#[derive(Debug, PartialEq)]
pub struct AgentRun {
    pub id: String,
    pub generation_type: String,
}

/// The background activity of one run.
#[derive(Debug, PartialEq)]
pub struct AgentBackgroundActivity {
    pub ios: IosAgentBackgroundActivity,
}

/// What an activity is begun with.
#[derive(Debug, PartialEq)]
pub struct ActivityPlan {
    pub run_id: String,
    pub title: String,
    pub subtitle: String,
}

/// What is left to do for an activity that has finished.
#[derive(Debug, PartialEq)]
pub struct FinishedActivity {
    /// What has to be brought to an end on the main thread.
    pub request: Option<FinishRequest>,
    /// The event to record.
    pub event: AgentRunEvent,
}

/// The background activities of the runs that are under way, by run id.
pub struct AgentRuntimeService {
    pub background_activities: StringHashMap<AgentBackgroundActivity>,
}

impl View for AgentRuntimeService {
    type V = Map<Seq<char>, AgentBackgroundActivity>;

    open spec fn view(&self) -> Map<Seq<char>, AgentBackgroundActivity> {
        self.background_activities@
    }
}

/// The subtitle under which the system shows the activity of a run: the kind of
/// generation, and the short form of the run id in brackets.
pub open spec fn activity_subtitle(run_id: Seq<char>, generation_type: Seq<char>) -> Seq<char> {
    generation_type + " ("@ + short_form(run_id) + ")"@
}

/// The progress that is to be shown for a run with a status: none unless an activity of the
/// run is held, and then what the activity passes on.
pub open spec fn progress_for(
    activities: Map<Seq<char>, AgentBackgroundActivity>,
    run_id: Seq<char>,
    status: AgentRunStatus,
) -> Option<ProgressReportView> {
    match entry(activities, run_id) {
        Some(activity) => activity.ios@.progress_report(
            completed_units(status) as i64,
            TOTAL_UNITS,
        ),
        None => None,
    }
}

impl AgentBackgroundActivity {
    /// What the activity of a run is begun with: nothing is begun on a platform other than
    /// iOS.
    pub fn begin(on_ios: bool, run: &AgentRun, app_handle_available: bool) -> (plan: Option<
        ActivityPlan,
    >)
        ensures
            plan is Some <==> on_ios && app_handle_available,
            plan is Some ==> plan->0.run_id@ == run.id@ && plan->0.title@ == ACTIVITY_TITLE@
                && plan->0.subtitle@ == activity_subtitle(run.id@, run.generation_type@),
    {
        if on_ios {
            Self::begin_ios(run, app_handle_available)
        } else {
            None
        }
    }

    /// What the activity of a run is begun with on iOS: nothing is begun without a handle
    /// on the app.
    pub fn begin_ios(run: &AgentRun, app_handle_available: bool) -> (plan: Option<ActivityPlan>)
        ensures
            plan is Some <==> app_handle_available,
            plan is Some ==> plan->0.run_id@ == run.id@ && plan->0.title@ == ACTIVITY_TITLE@
                && plan->0.subtitle@ == activity_subtitle(run.id@, run.generation_type@),
    {
        if !app_handle_available {
            return None;
        }
        let mut subtitle: String = run.generation_type.clone();
        subtitle.append(" (");
        subtitle.append(short_run_id(run.id.as_str()));
        subtitle.append(")");
        Some(
            ActivityPlan { run_id: run.id.clone(), title: ACTIVITY_TITLE.to_string(), subtitle },
        )
    }

    /// What comes of the start of a run's activity on iOS: the activity if there is one, and
    /// the event to record. A run whose activity did not begin goes on without one.
    pub fn begun_ios(run_id: &str, start: Start) -> (begun: (
        Option<AgentBackgroundActivity>,
        AgentRunEvent,
    ))
        ensures
            match start_view(start) {
                Ok((activity, report)) => {
                    &&& begun.0 is Some
                    &&& begun.0->0.ios@ == activity
                    &&& begun.1@ == started_event(run_id@, report)
                },
                Err(message) => {
                    &&& begun.0 is None
                    &&& begun.1@ == unavailable_event(run_id@, message)
                },
            },
    {
        match start {
            Ok((ios, report)) => {
                let event = emit_ios_start_event(run_id, &report);
                (Some(AgentBackgroundActivity { ios }), event)
            },
            Err(message) => (None, activity_unavailable(run_id, message)),
        }
    }

    /// The progress that is to be shown, if any is.
    pub fn report_progress(&self, completed: i64, total: i64) -> (report: Option<ProgressReport>)
        ensures
            optional_report(report) == self.ios@.progress_report(completed, total),
    {
        self.ios.report_progress(completed, total)
    }

    /// Finishes the activity. What is returned has to be brought to an end on the main
    /// thread.
    pub fn finish(&mut self, success: bool) -> (request: Option<FinishRequest>)
        ensures
            final(self).ios@ == old(self).ios@.after_finish(),
            optional_finish(request) == old(self).ios@.finish_request(success),
    {
        self.ios.finish(success)
    }
}

impl AgentRuntimeService {
    /// The service before any run is under way.
    pub fn new() -> (service: Self)
        ensures
            service@ == Map::<Seq<char>, AgentBackgroundActivity>::empty(),
    {
        AgentRuntimeService { background_activities: StringHashMap::new() }
    }

    /// Keeps the activity that was begun for a run, if one was.
    pub fn begin_background_activity_for_run(
        &mut self,
        run: &AgentRun,
        activity: Option<AgentBackgroundActivity>,
    )
        ensures
            final(self)@ == match activity {
                Some(activity) => old(self)@.insert(run.id@, activity),
                None => old(self)@,
            },
    {
        if let Some(activity) = activity {
            self.background_activities.insert(run.id.clone(), activity);
        }
    }

    /// The progress that is to be shown for a run with a status, if any is.
    pub fn report_background_progress(&self, run_id: &str, status: AgentRunStatus) -> (report:
        Option<ProgressReport>)
        ensures
            optional_report(report) == progress_for(self@, run_id@, status),
    {
        let progress = match background_progress_for_status(status) {
            Some(progress) => progress,
            None => {
                return None;
            },
        };
        match self.background_activities.get(run_id) {
            Some(activity) => activity.report_progress(progress.completed, progress.total),
            None => None,
        }
    }

    /// Finishes the activity of a run, if it has one. The service no longer holds it
    /// afterwards.
    pub fn finish_background_activity(&mut self, run_id: &str, success: bool) -> (finished: Option<
        FinishedActivity,
    >)
        ensures
            final(self)@ == old(self)@.remove(run_id@),
            match entry(old(self)@, run_id@) {
                Some(activity) => {
                    &&& finished is Some
                    &&& optional_finish(finished->0.request) == activity.ios@.finish_request(success)
                    &&& finished->0.event@ == finished_event(run_id@, success)
                },
                None => finished is None,
            },
    {
        let finished: Option<FinishedActivity> = match self.background_activities.get(run_id) {
            Some(activity) => Some(
                FinishedActivity {
                    request: activity.ios.finish_request(success),
                    event: activity_finished(run_id, success),
                },
            ),
            None => None,
        };
        self.background_activities.remove(run_id);
        finished
    }
}

/// Once a run's activity has finished, the service holds no activity of the run: it shows
/// no progress of it and does not finish it again. The activities of other runs are held as
/// before.
pub proof fn law_finished_run_is_forgotten(
    activities: Map<Seq<char>, AgentBackgroundActivity>,
    run_id: Seq<char>,
    other: Seq<char>,
    status: AgentRunStatus,
)
    ensures
        entry(activities.remove(run_id), run_id) is None,
        progress_for(activities.remove(run_id), run_id, status) is None,
        other != run_id ==> entry(activities.remove(run_id), other) == entry(activities, other)
            && progress_for(activities.remove(run_id), other, status) == progress_for(
            activities,
            other,
            status,
        ),
{
}

/// For every status of a run of which the service holds an activity that has not finished and
/// rests on a continued-processing task, the service reports the identifier of that task with
/// the units that the status stands for, out of all units. Of any other run it reports
/// nothing.
pub proof fn law_every_status_is_reported(
    activities: Map<Seq<char>, AgentBackgroundActivity>,
    run_id: Seq<char>,
    status: AgentRunStatus,
)
    ensures
        ({
            let report = progress_for(activities, run_id, status);
            let activity = activities[run_id].ios@;
            if activities.contains_key(run_id) && !activity.finished
                && activity.continued_identifier is Some {
                &&& report is Some
                &&& report->0.identifier == activity.continued_identifier->0
                &&& report->0.completed == completed_units(status)
                &&& report->0.total == 100
            } else {
                report is None
            }
        }),
{
}

/// The subtitle names the kind of generation in full, and in brackets the part of the run id
/// behind its last underscore, or all of it where it has none.
pub proof fn law_subtitle_names_the_run(
    run_id: Seq<char>,
    generation_type: Seq<char>,
    start: int,
)
    requires
        0 <= start <= run_id.len(),
        start == 0 || run_id[start - 1] == '_',
        forall|i: int| start <= i < run_id.len() ==> run_id[i] != '_',
    ensures
        activity_subtitle(run_id, generation_type) == generation_type + " ("@ + run_id.skip(start)
            + ")"@,
{
    law_short_form_is_the_tail_behind_the_last_underscore(run_id);
    let short = short_form(run_id);
    let found = run_id.len() - short.len();
    if found < start {
        assert(short[start - 1 - found] == '_');
        assert(short.contains('_'));
    }
    assert(found == start);
}

/// The activities of a service are stated of in full.
pub proof fn law_contents_of_a_service(service: AgentRuntimeService)
    ensures
        service@ == service.background_activities@,
{
}

} // verus!
