//! The events that a run's journal records about its background activity.

use vstd::prelude::*;

use crate::activity::{ExpirationView, IosAgentBackgroundStartReport, StartReportView};
use crate::native::optional_text;
use crate::payload::{
    empty_payload, optional_field, optional_value, payload_fields, set_field, PayloadValue,
};

verus! {

/// The reason given for the checkpoint that an expiration leads to.
pub const EXPIRATION_CHECKPOINT_REASON: &'static str = "ios_background_expiration";

/// How much attention an event asks for.
#[derive(Debug, Clone, Copy, PartialEq, Eq, Structural)]
pub enum AgentRunEventLevel {
    Info,
    Warn,
}

/// An event of a run.
#[derive(Debug, PartialEq)]
pub struct AgentRunEvent {
    pub run_id: String,
    pub level: AgentRunEventLevel,
    pub name: String,
    pub payload: serde_json::Map<String, serde_json::Value>,
}

/// The contents of an event.
#[verifier::ext_equal]
pub struct AgentRunEventView {
    pub run_id: Seq<char>,
    pub level: AgentRunEventLevel,
    pub name: Seq<char>,
    pub payload: Map<Seq<char>, PayloadValue<Seq<char>>>,
}

impl View for AgentRunEvent {
    type V = AgentRunEventView;

    open spec fn view(&self) -> AgentRunEventView {
        AgentRunEventView {
            run_id: self.run_id@,
            level: self.level,
            name: self.name@,
            payload: payload_fields(self.payload),
        }
    }
}

/// The event that tells that an activity has begun.
pub open spec fn started_event(run_id: Seq<char>, report: StartReportView) -> AgentRunEventView {
    AgentRunEventView {
        run_id,
        level: AgentRunEventLevel::Info,
        name: "ios_agent_background_activity_started"@,
        payload: map![
            "mode"@ => PayloadValue::Text(report.mode),
            "identifier"@ => optional_value(report.identifier),
            "systemVersion"@ => PayloadValue::Text(report.system_version),
            "continuedProcessingAvailable"@ => PayloadValue::Flag(
                report.continued_processing_available,
            ),
            "fallbackReason"@ => optional_value(report.fallback_reason),
        ],
    }
}

/// The event that tells that no activity began.
pub open spec fn unavailable_event(run_id: Seq<char>, message: Seq<char>) -> AgentRunEventView {
    AgentRunEventView {
        run_id,
        level: AgentRunEventLevel::Warn,
        name: "ios_agent_background_activity_unavailable"@,
        payload: map!["message"@ => PayloadValue::Text(message)],
    }
}

/// The event that tells that an activity has expired.
pub open spec fn expired_event(
    run_id: Seq<char>,
    expiration: ExpirationView,
) -> AgentRunEventView {
    AgentRunEventView {
        run_id,
        level: AgentRunEventLevel::Warn,
        name: "ios_agent_background_activity_expired"@,
        payload: map![
            "mode"@ => PayloadValue::Text(expiration.mode),
            "identifier"@ => optional_value(expiration.identifier),
            "action"@ => PayloadValue::Text("checkpoint_and_cancel"@),
        ],
    }
}

/// The event that tells that the checkpoint of an expiration was created.
pub open spec fn checkpoint_created_event(
    run_id: Seq<char>,
    checkpoint_id: Seq<char>,
) -> AgentRunEventView {
    AgentRunEventView {
        run_id,
        level: AgentRunEventLevel::Info,
        name: "checkpoint_created"@,
        payload: map![
            "checkpointId"@ => PayloadValue::Text(checkpoint_id),
            "reason"@ => PayloadValue::Text(EXPIRATION_CHECKPOINT_REASON@),
        ],
    }
}

/// The event that tells that an activity has finished.
pub open spec fn finished_event(run_id: Seq<char>, success: bool) -> AgentRunEventView {
    AgentRunEventView {
        run_id,
        level: AgentRunEventLevel::Info,
        name: "ios_agent_background_activity_finished"@,
        payload: map!["success"@ => PayloadValue::Flag(success)],
    }
}

/// The event that tells that an activity has begun.
pub fn emit_ios_start_event(run_id: &str, report: &IosAgentBackgroundStartReport) -> (event:
    AgentRunEvent)
    ensures
        event@ == started_event(run_id@, report@),
{
    let mut payload = empty_payload();
    set_field(&mut payload, "mode", PayloadValue::Text(report.mode.clone()));
    set_field(&mut payload, "identifier", optional_field(&report.identifier));
    set_field(&mut payload, "systemVersion", PayloadValue::Text(report.system_version.clone()));
    set_field(
        &mut payload,
        "continuedProcessingAvailable",
        PayloadValue::Flag(report.continued_processing_available),
    );
    set_field(&mut payload, "fallbackReason", optional_field(&report.fallback_reason));
    AgentRunEvent {
        run_id: run_id.to_string(),
        level: AgentRunEventLevel::Info,
        name: "ios_agent_background_activity_started".to_string(),
        payload,
    }
}

pub(crate) fn activity_unavailable(run_id: &str, message: String) -> (event: AgentRunEvent)
    ensures
        event@ == unavailable_event(run_id@, message@),
{
    let mut payload = empty_payload();
    set_field(&mut payload, "message", PayloadValue::Text(message));
    AgentRunEvent {
        run_id: run_id.to_string(),
        level: AgentRunEventLevel::Warn,
        name: "ios_agent_background_activity_unavailable".to_string(),
        payload,
    }
}

pub(crate) fn activity_expired(run_id: &str, mode: String, identifier: Option<String>) -> (event:
    AgentRunEvent)
    ensures
        event@ == expired_event(
            run_id@,
            ExpirationView { mode: mode@, identifier: optional_text(identifier) },
        ),
{
    let mut payload = empty_payload();
    set_field(&mut payload, "mode", PayloadValue::Text(mode));
    set_field(&mut payload, "identifier", optional_field(&identifier));
    set_field(&mut payload, "action", PayloadValue::Text("checkpoint_and_cancel".to_string()));
    AgentRunEvent {
        run_id: run_id.to_string(),
        level: AgentRunEventLevel::Warn,
        name: "ios_agent_background_activity_expired".to_string(),
        payload,
    }
}

pub(crate) fn checkpoint_created(run_id: &str, checkpoint_id: String) -> (event: AgentRunEvent)
    ensures
        event@ == checkpoint_created_event(run_id@, checkpoint_id@),
{
    let mut payload = empty_payload();
    set_field(&mut payload, "checkpointId", PayloadValue::Text(checkpoint_id));
    set_field(
        &mut payload,
        "reason",
        PayloadValue::Text(EXPIRATION_CHECKPOINT_REASON.to_string()),
    );
    AgentRunEvent {
        run_id: run_id.to_string(),
        level: AgentRunEventLevel::Info,
        name: "checkpoint_created".to_string(),
        payload,
    }
}

pub(crate) fn activity_finished(run_id: &str, success: bool) -> (event: AgentRunEvent)
    ensures
        event@ == finished_event(run_id@, success),
{
    let mut payload = empty_payload();
    set_field(&mut payload, "success", PayloadValue::Flag(success));
    AgentRunEvent {
        run_id: run_id.to_string(),
        level: AgentRunEventLevel::Info,
        name: "ios_agent_background_activity_finished".to_string(),
        payload,
    }
}

/// The lengths of the names of payload fields.
proof fn lemma_field_names()
    ensures
        "mode"@.len() == 4,
        "action"@.len() == 6,
        "reason"@.len() == 6,
        "success"@.len() == 7,
        "message"@.len() == 7,
        "identifier"@.len() == 10,
        "checkpointId"@.len() == 12,
        "systemVersion"@.len() == 13,
        "fallbackReason"@.len() == 14,
        "continuedProcessingAvailable"@.len() == 28,
{
    reveal_strlit("mode");
    reveal_strlit("action");
    reveal_strlit("reason");
    reveal_strlit("success");
    reveal_strlit("message");
    reveal_strlit("identifier");
    reveal_strlit("checkpointId");
    reveal_strlit("systemVersion");
    reveal_strlit("fallbackReason");
    reveal_strlit("continuedProcessingAvailable");
}

/// The event that records an expiration tells the mode and the identifier of the expiration:
/// the text of the identifier if it has one, and null if not. Two expirations of a run that
/// differ are recorded by events that differ.
pub proof fn law_expiration_is_recorded_as_it_was(
    run_id: Seq<char>,
    expiration: ExpirationView,
    other: ExpirationView,
)
    ensures
        ({
            let event = expired_event(run_id, expiration);
            &&& event.run_id == run_id
            &&& event.level is Warn
            &&& event.name == "ios_agent_background_activity_expired"@
            &&& event.payload.contains_key("mode"@)
            &&& event.payload["mode"@] == PayloadValue::Text(expiration.mode)
            &&& event.payload.contains_key("identifier"@)
            &&& match expiration.identifier {
                Some(identifier) => event.payload["identifier"@] == PayloadValue::Text(identifier),
                None => event.payload["identifier"@] is Null,
            }
            &&& event.payload.contains_key("action"@)
            &&& event.payload["action"@] == PayloadValue::Text("checkpoint_and_cancel"@)
            &&& forall|name: Seq<char>| #[trigger]
                event.payload.contains_key(name) ==> name == "mode"@ || name == "identifier"@
                    || name == "action"@
        }),
        expired_event(run_id, expiration) == expired_event(run_id, other) ==> expiration == other,
{
    lemma_field_names();
    let event = expired_event(run_id, expiration);
    let event_of_other = expired_event(run_id, other);
    assert(event.payload["mode"@] == PayloadValue::Text(expiration.mode));
    assert(event_of_other.payload["mode"@] == PayloadValue::Text(other.mode));
    assert(event.payload["identifier"@] == optional_value(expiration.identifier));
    assert(event_of_other.payload["identifier"@] == optional_value(other.identifier));
}

/// The event that tells that an activity has begun tells every field of its report: a text
/// that the report does not have is null. Reports that differ are told by events that differ.
pub proof fn law_start_is_recorded_as_reported(
    run_id: Seq<char>,
    report: StartReportView,
    other: StartReportView,
)
    ensures
        ({
            let event = started_event(run_id, report);
            &&& event.run_id == run_id
            &&& event.level is Info
            &&& event.name == "ios_agent_background_activity_started"@
            &&& event.payload.contains_key("mode"@)
            &&& event.payload["mode"@] == PayloadValue::Text(report.mode)
            &&& event.payload.contains_key("identifier"@)
            &&& match report.identifier {
                Some(identifier) => event.payload["identifier"@] == PayloadValue::Text(identifier),
                None => event.payload["identifier"@] is Null,
            }
            &&& event.payload.contains_key("systemVersion"@)
            &&& event.payload["systemVersion"@] == PayloadValue::Text(report.system_version)
            &&& event.payload.contains_key("continuedProcessingAvailable"@)
            &&& event.payload["continuedProcessingAvailable"@] == PayloadValue::<Seq<char>>::Flag(
                report.continued_processing_available,
            )
            &&& event.payload.contains_key("fallbackReason"@)
            &&& match report.fallback_reason {
                Some(reason) => event.payload["fallbackReason"@] == PayloadValue::Text(reason),
                None => event.payload["fallbackReason"@] is Null,
            }
            &&& forall|name: Seq<char>| #[trigger]
                event.payload.contains_key(name) ==> name == "mode"@ || name == "identifier"@
                    || name == "systemVersion"@ || name == "continuedProcessingAvailable"@ || name
                    == "fallbackReason"@
        }),
        started_event(run_id, report) == started_event(run_id, other) ==> report == other,
{
    lemma_field_names();
    let event = started_event(run_id, report);
    let event_of_other = started_event(run_id, other);
    assert(event.payload["mode"@] == PayloadValue::Text(report.mode));
    assert(event_of_other.payload["mode"@] == PayloadValue::Text(other.mode));
    assert(event.payload["identifier"@] == optional_value(report.identifier));
    assert(event_of_other.payload["identifier"@] == optional_value(other.identifier));
    assert(event.payload["systemVersion"@] == PayloadValue::Text(report.system_version));
    assert(event_of_other.payload["systemVersion"@] == PayloadValue::Text(other.system_version));
    assert(event.payload["continuedProcessingAvailable"@] == PayloadValue::<Seq<char>>::Flag(
        report.continued_processing_available,
    ));
    assert(event_of_other.payload["continuedProcessingAvailable"@] == PayloadValue::<
        Seq<char>,
    >::Flag(other.continued_processing_available));
    assert(event.payload["fallbackReason"@] == optional_value(report.fallback_reason));
    assert(event_of_other.payload["fallbackReason"@] == optional_value(other.fallback_reason));
}

/// The other events of an activity name the run and hold exactly what they tell: the message
/// of a start that failed, the id of a checkpoint with its reason, and the success of an end.
pub proof fn law_other_events_tell_what_happened(
    run_id: Seq<char>,
    text: Seq<char>,
    success: bool,
)
    ensures
        ({
            let event = unavailable_event(run_id, text);
            &&& event.run_id == run_id
            &&& event.level is Warn
            &&& event.name == "ios_agent_background_activity_unavailable"@
            &&& event.payload.contains_key("message"@)
            &&& event.payload["message"@] == PayloadValue::Text(text)
            &&& forall|name: Seq<char>| #[trigger]
                event.payload.contains_key(name) ==> name == "message"@
        }),
        ({
            let event = checkpoint_created_event(run_id, text);
            &&& event.run_id == run_id
            &&& event.level is Info
            &&& event.name == "checkpoint_created"@
            &&& event.payload.contains_key("checkpointId"@)
            &&& event.payload["checkpointId"@] == PayloadValue::Text(text)
            &&& event.payload.contains_key("reason"@)
            &&& event.payload["reason"@] == PayloadValue::Text("ios_background_expiration"@)
            &&& forall|name: Seq<char>| #[trigger]
                event.payload.contains_key(name) ==> name == "checkpointId"@ || name == "reason"@
        }),
        ({
            let event = finished_event(run_id, success);
            &&& event.run_id == run_id
            &&& event.level is Info
            &&& event.name == "ios_agent_background_activity_finished"@
            &&& event.payload.contains_key("success"@)
            &&& event.payload["success"@] == PayloadValue::<Seq<char>>::Flag(success)
            &&& forall|name: Seq<char>| #[trigger]
                event.payload.contains_key(name) ==> name == "success"@
        }),
{
    lemma_field_names();
}

/// What is stated of an event is stated of all of it.
pub proof fn law_contents_of_an_event(event: AgentRunEvent, value: PayloadValue<String>)
    ensures
        event@.run_id == event.run_id@,
        event@.level == event.level,
        event@.name == event.name@,
        event@.payload == payload_fields(event.payload),
        match value {
            PayloadValue::Text(text) => value@ == PayloadValue::Text(text@),
            PayloadValue::Flag(flag) => value@ == PayloadValue::<Seq<char>>::Flag(flag),
            PayloadValue::Null => value@ is Null,
        },
{
}

} // verus!
