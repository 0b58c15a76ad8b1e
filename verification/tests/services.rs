use ios_agent_background::activity::{
    IosAgentBackgroundActivity, IosAgentBackgroundExpiration, IosAgentBackgroundStartReport,
};
use ios_agent_background::event::{AgentRunEvent, AgentRunEventLevel};
use ios_agent_background::expiration::{
    respond_to_expiration, ServiceCall, ServiceNext, ServiceReply,
};
use ios_agent_background::progress::AgentRunStatus;
use ios_agent_background::service::{AgentBackgroundActivity, AgentRun, AgentRuntimeService};

fn payload(event: &AgentRunEvent) -> serde_json::Value {
    serde_json::Value::Object(event.payload.clone())
}

fn parsed(text: &str) -> serde_json::Value {
    serde_json::from_str(text).unwrap()
}

fn run() -> AgentRun {
    AgentRun { id: "agent_run_42".to_string(), generation_type: "chat".to_string() }
}

fn activity(identifier: Option<&str>) -> AgentBackgroundActivity {
    AgentBackgroundActivity {
        ios: IosAgentBackgroundActivity {
            mode: "continued_processing".to_string(),
            continued_identifier: identifier.map(|text| text.to_string()),
            finite_background_task: None,
            finished: false,
        },
    }
}

struct Services {
    recorded: Option<u64>,
    checkpoint: Option<String>,
    status: Option<AgentRunStatus>,
}

fn describe(call: &ServiceCall<String, AgentRunEvent>) -> String {
    match call {
        ServiceCall::SignalCancellation => "signal".to_string(),
        ServiceCall::RecordEvent { event } => format!("record {}", event.name),
        ServiceCall::CreateCheckpoint { run_id, reason, event_seq } => {
            format!("checkpoint {} {} {}", run_id, reason, event_seq)
        }
        ServiceCall::CancelUnfinishedChildTasks { run_id } => format!("children {}", run_id),
        ServiceCall::ClearPendingHostRequests { run_id } => format!("requests {}", run_id),
        ServiceCall::LoadRun { run_id } => format!("load {}", run_id),
        ServiceCall::TransitionStatus { run_id, status } => {
            format!("transition {} {:?}", run_id, status)
        }
    }
}

fn expire(services: &Services) -> Vec<String> {
    let expiration = IosAgentBackgroundExpiration {
        mode: "continued_processing".to_string(),
        identifier: Some("id".to_string()),
    };
    let (mut response, mut next) = respond_to_expiration("r", expiration);
    let mut calls = Vec::new();
    while let ServiceNext::Call(call) = next {
        calls.push(describe(&call));
        let reply = match &call {
            ServiceCall::RecordEvent { .. } => ServiceReply::Recorded(services.recorded),
            ServiceCall::CreateCheckpoint { .. } => {
                ServiceReply::Checkpoint(services.checkpoint.clone())
            }
            ServiceCall::LoadRun { .. } => ServiceReply::Status(services.status),
            _ => ServiceReply::Done,
        };
        assert!(call.is_answered_by(&reply));
        next = response.resume(reply);
    }
    calls
}

#[test]
fn an_expiration_checkpoints_and_cancels() {
    let services = Services {
        recorded: Some(12),
        checkpoint: Some("cp".to_string()),
        status: Some(AgentRunStatus::CallingModel),
    };
    assert_eq!(
        expire(&services),
        vec![
            "signal",
            "record ios_agent_background_activity_expired",
            "checkpoint r ios_background_expiration 12",
            "record checkpoint_created",
            "children r",
            "requests r",
            "load r",
            "transition r Cancelling",
        ]
    );
}

#[test]
fn an_expiration_that_is_not_recorded_writes_no_checkpoint() {
    let services = Services {
        recorded: None,
        checkpoint: Some("cp".to_string()),
        status: Some(AgentRunStatus::Cancelling),
    };
    assert_eq!(
        expire(&services),
        vec![
            "signal",
            "record ios_agent_background_activity_expired",
            "children r",
            "requests r",
            "load r",
            "transition r Cancelling",
        ]
    );
}

#[test]
fn a_checkpoint_that_fails_is_not_recorded() {
    let services = Services { recorded: Some(0), checkpoint: None, status: None };
    assert_eq!(
        expire(&services),
        vec![
            "signal",
            "record ios_agent_background_activity_expired",
            "checkpoint r ios_background_expiration 0",
            "children r",
            "requests r",
            "load r",
        ]
    );
}

#[test]
fn a_run_that_has_ended_is_not_cancelled() {
    for status in [
        AgentRunStatus::Completed,
        AgentRunStatus::PartialSuccess,
        AgentRunStatus::Cancelled,
        AgentRunStatus::Failed,
    ] {
        let services = Services { recorded: None, checkpoint: None, status: Some(status) };
        assert_eq!(expire(&services).last().unwrap(), "load r");
    }
}

#[test]
fn the_handling_of_an_expiration_begins_with_its_record() {
    let (mut response, next) = AgentRuntimeService::handle_background_activity_expiration(
        "r".to_string(),
        "finite_background_task".to_string(),
        None,
    );
    match next {
        ServiceNext::Call(ServiceCall::RecordEvent { event }) => {
            assert_eq!(event.run_id, "r");
            assert_eq!(event.level, AgentRunEventLevel::Warn);
            assert_eq!(event.name, "ios_agent_background_activity_expired");
            assert_eq!(
                payload(&event),
                parsed(
                    "{\"mode\":\"finite_background_task\",\"identifier\":null,\
                     \"action\":\"checkpoint_and_cancel\"}"
                )
            );
        }
        other => panic!("{:?}", other),
    }
    let checkpoint = response.resume(ServiceReply::Recorded(Some(3)));
    assert_eq!(
        checkpoint,
        ServiceNext::Call(ServiceCall::CreateCheckpoint {
            run_id: "r".to_string(),
            reason: "ios_background_expiration".to_string(),
            event_seq: 3,
        })
    );
    match response.resume(ServiceReply::Checkpoint(Some("cp-9".to_string()))) {
        ServiceNext::Call(ServiceCall::RecordEvent { event }) => {
            assert_eq!(event.level, AgentRunEventLevel::Info);
            assert_eq!(event.name, "checkpoint_created");
            assert_eq!(
                payload(&event),
                parsed("{\"checkpointId\":\"cp-9\",\"reason\":\"ios_background_expiration\"}")
            );
        }
        other => panic!("{:?}", other),
    }
}

#[test]
fn an_activity_is_planned_on_ios_only() {
    let plan = AgentBackgroundActivity::begin(true, &run(), true).unwrap();
    assert_eq!(plan.run_id, "agent_run_42");
    assert_eq!(plan.title, "TauriTavern Agent Run");
    assert_eq!(plan.subtitle, "chat (42)");
    assert_eq!(AgentBackgroundActivity::begin(false, &run(), true), None);
    assert_eq!(AgentBackgroundActivity::begin(true, &run(), false), None);
    assert_eq!(AgentBackgroundActivity::begin_ios(&run(), false), None);
}

#[test]
fn a_start_is_recorded() {
    let report = IosAgentBackgroundStartReport {
        mode: "finite_background_task".to_string(),
        identifier: None,
        system_version: "17.0.0".to_string(),
        continued_processing_available: false,
        fallback_reason: Some("too old".to_string()),
    };
    let ios = activity(None).ios;
    let (begun, event) = AgentBackgroundActivity::begun_ios("r", Ok((ios, report)));
    assert_eq!(begun, Some(activity(None)));
    assert_eq!(event.run_id, "r");
    assert_eq!(event.level, AgentRunEventLevel::Info);
    assert_eq!(event.name, "ios_agent_background_activity_started");
    assert_eq!(
        payload(&event),
        parsed(
            "{\"mode\":\"finite_background_task\",\"identifier\":null,\
             \"systemVersion\":\"17.0.0\",\"continuedProcessingAvailable\":false,\
             \"fallbackReason\":\"too old\"}"
        )
    );
}

#[test]
fn a_failed_start_is_recorded_and_the_run_goes_on() {
    let (begun, event) = AgentBackgroundActivity::begun_ios("r", Err("nothing".to_string()));
    assert_eq!(begun, None);
    assert_eq!(event.level, AgentRunEventLevel::Warn);
    assert_eq!(event.name, "ios_agent_background_activity_unavailable");
    assert_eq!(payload(&event), parsed("{\"message\":\"nothing\"}"));
}

#[test]
fn a_run_without_activity_is_left_alone() {
    let mut service = AgentRuntimeService::new();
    service.begin_background_activity_for_run(&run(), None);
    assert!(service.background_activities.is_empty());
    assert_eq!(
        service.report_background_progress("agent_run_42", AgentRunStatus::CallingModel),
        None
    );
    assert_eq!(service.finish_background_activity("agent_run_42", true), None);
}

#[test]
fn progress_of_a_run_goes_to_its_task() {
    let mut service = AgentRuntimeService::new();
    service.begin_background_activity_for_run(&run(), Some(activity(Some("id"))));
    let report = service
        .report_background_progress("agent_run_42", AgentRunStatus::CallingModel)
        .unwrap();
    assert_eq!(report.identifier, "id");
    assert_eq!((report.completed, report.total), (40, 100));
    assert_eq!(service.report_background_progress("other", AgentRunStatus::Created), None);
}

#[test]
fn a_run_is_finished_once() {
    let mut service = AgentRuntimeService::new();
    service.begin_background_activity_for_run(&run(), Some(activity(Some("id"))));
    let finished = service.finish_background_activity("agent_run_42", true).unwrap();
    let request = finished.request.unwrap();
    assert_eq!(request.continued_identifier, Some("id".to_string()));
    assert!(request.success);
    assert_eq!(finished.event.level, AgentRunEventLevel::Info);
    assert_eq!(finished.event.name, "ios_agent_background_activity_finished");
    assert_eq!(payload(&finished.event), parsed("{\"success\":true}"));
    assert_eq!(service.finish_background_activity("agent_run_42", true), None);
}

#[test]
fn a_finished_activity_is_recorded_but_not_ended_again() {
    let mut service = AgentRuntimeService::new();
    let mut held = activity(Some("id"));
    assert!(held.finish(false).is_some());
    assert_eq!(held.report_progress(1, 2), None);
    service.begin_background_activity_for_run(&run(), Some(held));
    let finished = service.finish_background_activity("agent_run_42", false).unwrap();
    assert_eq!(finished.request, None);
    assert_eq!(payload(&finished.event), parsed("{\"success\":false}"));
}

#[test]
fn finishing_a_run_leaves_the_others() {
    let mut service = AgentRuntimeService::new();
    let other = AgentRun { id: "agent_run_43".to_string(), generation_type: "chat".to_string() };
    service.begin_background_activity_for_run(&run(), Some(activity(Some("id"))));
    service.begin_background_activity_for_run(&other, Some(activity(Some("other"))));
    assert!(service.finish_background_activity("agent_run_42", true).is_some());
    assert_eq!(
        service.report_background_progress("agent_run_42", AgentRunStatus::Finishing),
        None
    );
    let report = service
        .report_background_progress("agent_run_43", AgentRunStatus::Finishing)
        .unwrap();
    assert_eq!(report.identifier, "other");
    assert_eq!((report.completed, report.total), (92, 100));
}
