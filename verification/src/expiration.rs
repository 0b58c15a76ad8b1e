//! The response to an expired activity: the run is told to cancel, a checkpoint is
//! written, and what waits for the run is given up.

use vstd::prelude::*;

use crate::activity::{ExpirationView, IosAgentBackgroundExpiration};
use crate::event::{
    activity_expired, checkpoint_created, checkpoint_created_event, expired_event, AgentRunEvent,
    AgentRunEventView, EXPIRATION_CHECKPOINT_REASON,
};
use crate::native::optional_text;
use crate::progress::{is_terminal, AgentRunStatus};
use crate::service::AgentRuntimeService;

verus! {

/// One call to the services of the agent runtime. Texts are of type `S`, events of
/// type `E`.
#[derive(Debug, PartialEq)]
pub enum ServiceCall<S, E> {
    /// Sends the cancellation signal of the run.
    SignalCancellation,
    /// Records an event.
    RecordEvent { event: E },
    /// Creates a checkpoint of no workspace paths.
    CreateCheckpoint { run_id: S, reason: S, event_seq: u64 },
    /// Cancels the child tasks of a run that have not finished.
    CancelUnfinishedChildTasks { run_id: S },
    /// Clears the host requests that a run waits for.
    ClearPendingHostRequests { run_id: S },
    /// Loads a run.
    LoadRun { run_id: S },
    /// Takes a run to another status.
    TransitionStatus { run_id: S, status: AgentRunStatus },
}

/// The reply to a call.
#[derive(Debug, PartialEq)]
pub enum ServiceReply<S> {
    /// The call was made; what came of it does not matter.
    Done,
    /// The sequence number of the recorded event, if it was recorded.
    Recorded(Option<u64>),
    /// The id of the checkpoint, if it was created.
    Checkpoint(Option<S>),
    /// The status of the run, if it was loaded.
    Status(Option<AgentRunStatus>),
}

/// What the response wants next: the reply to a call, or nothing more.
#[derive(Debug, PartialEq)]
pub enum ServiceNext<S, E> {
    Call(ServiceCall<S, E>),
    Done,
}

impl View for ServiceCall<String, AgentRunEvent> {
    type V = ServiceCall<Seq<char>, AgentRunEventView>;

    open spec fn view(&self) -> ServiceCall<Seq<char>, AgentRunEventView> {
        match *self {
            ServiceCall::SignalCancellation => ServiceCall::SignalCancellation,
            ServiceCall::RecordEvent { event } => ServiceCall::RecordEvent { event: event@ },
            ServiceCall::CreateCheckpoint { run_id, reason, event_seq } =>
                ServiceCall::CreateCheckpoint { run_id: run_id@, reason: reason@, event_seq },
            ServiceCall::CancelUnfinishedChildTasks { run_id } =>
                ServiceCall::CancelUnfinishedChildTasks { run_id: run_id@ },
            ServiceCall::ClearPendingHostRequests { run_id } =>
                ServiceCall::ClearPendingHostRequests { run_id: run_id@ },
            ServiceCall::LoadRun { run_id } => ServiceCall::LoadRun { run_id: run_id@ },
            ServiceCall::TransitionStatus { run_id, status } =>
                ServiceCall::TransitionStatus { run_id: run_id@, status },
        }
    }
}

impl View for ServiceReply<String> {
    type V = ServiceReply<Seq<char>>;

    open spec fn view(&self) -> ServiceReply<Seq<char>> {
        match *self {
            ServiceReply::Done => ServiceReply::Done,
            ServiceReply::Recorded(seq) => ServiceReply::Recorded(seq),
            ServiceReply::Checkpoint(id) => ServiceReply::Checkpoint(optional_text(id)),
            ServiceReply::Status(status) => ServiceReply::Status(status),
        }
    }
}

impl View for ServiceNext<String, AgentRunEvent> {
    type V = ServiceNext<Seq<char>, AgentRunEventView>;

    open spec fn view(&self) -> ServiceNext<Seq<char>, AgentRunEventView> {
        match *self {
            ServiceNext::Call(call) => ServiceNext::Call(call@),
            ServiceNext::Done => ServiceNext::Done,
        }
    }
}

/// Whether a reply is of the kind that a call asks for.
pub open spec fn service_answers<S, E>(call: ServiceCall<S, E>, reply: ServiceReply<S>) -> bool {
    match call {
        ServiceCall::SignalCancellation => reply is Done,
        ServiceCall::RecordEvent { .. } => reply is Recorded,
        ServiceCall::CreateCheckpoint { .. } => reply is Checkpoint,
        ServiceCall::CancelUnfinishedChildTasks { .. } => reply is Done,
        ServiceCall::ClearPendingHostRequests { .. } => reply is Done,
        ServiceCall::LoadRun { .. } => reply is Status,
        ServiceCall::TransitionStatus { .. } => reply is Done,
    }
}

impl ServiceCall<String, AgentRunEvent> {
    /// Whether a reply is of the kind that the call asks for.
    pub fn is_answered_by(&self, reply: &ServiceReply<String>) -> (answered: bool)
        ensures
            answered == service_answers(self@, reply@),
    {
        match self {
            ServiceCall::SignalCancellation
            | ServiceCall::CancelUnfinishedChildTasks { .. }
            | ServiceCall::ClearPendingHostRequests { .. }
            | ServiceCall::TransitionStatus { .. } => matches!(reply, ServiceReply::Done),
            ServiceCall::RecordEvent { .. } => matches!(reply, ServiceReply::Recorded(_)),
            ServiceCall::CreateCheckpoint { .. } => matches!(reply, ServiceReply::Checkpoint(_)),
            ServiceCall::LoadRun { .. } => matches!(reply, ServiceReply::Status(_)),
        }
    }
}

/// How far a response has come.
#[derive(Debug, PartialEq)]
pub enum ExpirationStep<S> {
    /// The run is being told to cancel.
    Signalling { mode: S, identifier: Option<S> },
    /// The expiration is being recorded.
    RecordingExpiration,
    /// The checkpoint is being created.
    CreatingCheckpoint,
    /// The checkpoint is being recorded.
    RecordingCheckpoint,
    /// The child tasks are being cancelled.
    CancellingChildTasks,
    /// The host requests are being cleared.
    ClearingHostRequests,
    /// The run is being loaded.
    LoadingRun,
    /// The run is being taken towards its cancellation.
    Transitioning,
    /// The response is complete.
    Over,
}

/// The response to an expired activity.
#[derive(Debug, PartialEq)]
pub struct ExpirationResponse {
    pub run_id: String,
    pub step: ExpirationStep<String>,
}

/// The contents of a response.
pub struct ExpirationResponseView {
    pub run_id: Seq<char>,
    pub step: ExpirationStep<Seq<char>>,
}

impl View for ExpirationResponse {
    type V = ExpirationResponseView;

    open spec fn view(&self) -> ExpirationResponseView {
        ExpirationResponseView {
            run_id: self.run_id@,
            step: match self.step {
                ExpirationStep::Signalling { mode, identifier } => ExpirationStep::Signalling {
                    mode: mode@,
                    identifier: optional_text(identifier),
                },
                ExpirationStep::RecordingExpiration => ExpirationStep::RecordingExpiration,
                ExpirationStep::CreatingCheckpoint => ExpirationStep::CreatingCheckpoint,
                ExpirationStep::RecordingCheckpoint => ExpirationStep::RecordingCheckpoint,
                ExpirationStep::CancellingChildTasks => ExpirationStep::CancellingChildTasks,
                ExpirationStep::ClearingHostRequests => ExpirationStep::ClearingHostRequests,
                ExpirationStep::LoadingRun => ExpirationStep::LoadingRun,
                ExpirationStep::Transitioning => ExpirationStep::Transitioning,
                ExpirationStep::Over => ExpirationStep::Over,
            },
        }
    }
}

/// A response, and what it wants next.
pub type ExpirationTransition = (
    ExpirationResponseView,
    ServiceNext<Seq<char>, AgentRunEventView>,
);

/// The response that begins with the record of the expiration.
pub open spec fn handling_of(run_id: Seq<char>, expiration: ExpirationView) -> ExpirationTransition {
    (
        ExpirationResponseView { run_id, step: ExpirationStep::RecordingExpiration },
        ServiceNext::Call(ServiceCall::RecordEvent { event: expired_event(run_id, expiration) }),
    )
}

/// The response that begins with the cancellation signal.
pub open spec fn response_to(run_id: Seq<char>, expiration: ExpirationView) -> ExpirationTransition {
    (
        ExpirationResponseView {
            run_id,
            step: ExpirationStep::Signalling {
                mode: expiration.mode,
                identifier: expiration.identifier,
            },
        },
        ServiceNext::Call(ServiceCall::SignalCancellation),
    )
}

impl ExpirationResponseView {
    /// Whether the response can go on with a reply.
    pub open spec fn awaits(self, reply: ServiceReply<Seq<char>>) -> bool {
        match self.step {
            ExpirationStep::Signalling { .. } => reply is Done,
            ExpirationStep::RecordingExpiration => reply is Recorded,
            ExpirationStep::CreatingCheckpoint => reply is Checkpoint,
            ExpirationStep::RecordingCheckpoint => reply is Recorded,
            ExpirationStep::CancellingChildTasks => reply is Done,
            ExpirationStep::ClearingHostRequests => reply is Done,
            ExpirationStep::LoadingRun => reply is Status,
            ExpirationStep::Transitioning => reply is Done,
            ExpirationStep::Over => false,
        }
    }

    /// The response at a step, with the call whose reply it waits for there.
    pub open spec fn asks(
        self,
        step: ExpirationStep<Seq<char>>,
        call: ServiceCall<Seq<char>, AgentRunEventView>,
    ) -> ExpirationTransition {
        (ExpirationResponseView { step, ..self }, ServiceNext::Call(call))
    }

    /// The response at its end.
    pub open spec fn ends(self) -> ExpirationTransition {
        (ExpirationResponseView { step: ExpirationStep::Over, ..self }, ServiceNext::Done)
    }

    /// The response once the checkpoint is dealt with: the child tasks are cancelled.
    pub open spec fn after_checkpoint(self) -> ExpirationTransition {
        self.asks(
            ExpirationStep::CancellingChildTasks,
            ServiceCall::CancelUnfinishedChildTasks { run_id: self.run_id },
        )
    }

    /// How the response goes on with a reply.
    pub open spec fn after(self, reply: ServiceReply<Seq<char>>) -> ExpirationTransition {
        match self.step {
            ExpirationStep::Signalling { mode, identifier } => handling_of(
                self.run_id,
                ExpirationView { mode, identifier },
            ),
            ExpirationStep::RecordingExpiration => match reply->Recorded_0 {
                Some(event_seq) => self.asks(
                    ExpirationStep::CreatingCheckpoint,
                    ServiceCall::CreateCheckpoint {
                        run_id: self.run_id,
                        reason: EXPIRATION_CHECKPOINT_REASON@,
                        event_seq,
                    },
                ),
                None => self.after_checkpoint(),
            },
            ExpirationStep::CreatingCheckpoint => match reply->Checkpoint_0 {
                Some(id) => self.asks(
                    ExpirationStep::RecordingCheckpoint,
                    ServiceCall::RecordEvent { event: checkpoint_created_event(self.run_id, id) },
                ),
                None => self.after_checkpoint(),
            },
            ExpirationStep::RecordingCheckpoint => self.after_checkpoint(),
            ExpirationStep::CancellingChildTasks => self.asks(
                ExpirationStep::ClearingHostRequests,
                ServiceCall::ClearPendingHostRequests { run_id: self.run_id },
            ),
            ExpirationStep::ClearingHostRequests => self.asks(
                ExpirationStep::LoadingRun,
                ServiceCall::LoadRun { run_id: self.run_id },
            ),
            ExpirationStep::LoadingRun => match reply->Status_0 {
                Some(status) => if is_terminal(status) {
                    self.ends()
                } else {
                    self.asks(
                        ExpirationStep::Transitioning,
                        ServiceCall::TransitionStatus {
                            run_id: self.run_id,
                            status: AgentRunStatus::Cancelling,
                        },
                    )
                },
                None => self.ends(),
            },
            ExpirationStep::Transitioning => self.ends(),
            ExpirationStep::Over => arbitrary(),
        }
    }
}

impl ExpirationResponse {
    fn ask(
        &mut self,
        step: ExpirationStep<String>,
        call: ServiceCall<String, AgentRunEvent>,
    ) -> (next: ServiceNext<String, AgentRunEvent>)
        ensures
            final(self).run_id == old(self).run_id,
            final(self).step == step,
            next@ == ServiceNext::<Seq<char>, AgentRunEventView>::Call(call@),
    {
        self.step = step;
        ServiceNext::Call(call)
    }

    fn cancel_child_tasks(&mut self) -> (next: ServiceNext<String, AgentRunEvent>)
        ensures
            (final(self)@, next@) == old(self)@.after_checkpoint(),
    {
        let run_id: String = self.run_id.clone();
        self.ask(
            ExpirationStep::CancellingChildTasks,
            ServiceCall::CancelUnfinishedChildTasks { run_id },
        )
    }

    /// Goes on with the reply to the call that was handed out last.
    pub fn resume(&mut self, reply: ServiceReply<String>) -> (next: ServiceNext<
        String,
        AgentRunEvent,
    >)
        requires
            old(self)@.awaits(reply@),
        ensures
            (final(self)@, next@) == old(self)@.after(reply@),
            next matches ServiceNext::Call(call) ==> forall|later: ServiceReply<Seq<char>>|
                service_answers(call@, later) ==> final(self)@.awaits(later),
    {
        let run_id: String = self.run_id.clone();
        let mut step: ExpirationStep<String> = ExpirationStep::Over;
        core::mem::swap(&mut self.step, &mut step);
        match (step, reply) {
            (ExpirationStep::Signalling { mode, identifier }, _) => {
                let event = activity_expired(run_id.as_str(), mode, identifier);
                self.ask(ExpirationStep::RecordingExpiration, ServiceCall::RecordEvent { event })
            },
            (ExpirationStep::RecordingExpiration, ServiceReply::Recorded(Some(event_seq))) => {
                let reason: String = EXPIRATION_CHECKPOINT_REASON.to_string();
                self.ask(
                    ExpirationStep::CreatingCheckpoint,
                    ServiceCall::CreateCheckpoint { run_id, reason, event_seq },
                )
            },
            (ExpirationStep::RecordingExpiration, _) => self.cancel_child_tasks(),
            (ExpirationStep::CreatingCheckpoint, ServiceReply::Checkpoint(Some(id))) => {
                let event = checkpoint_created(run_id.as_str(), id);
                self.ask(ExpirationStep::RecordingCheckpoint, ServiceCall::RecordEvent { event })
            },
            (ExpirationStep::CreatingCheckpoint, _) => self.cancel_child_tasks(),
            (ExpirationStep::RecordingCheckpoint, _) => self.cancel_child_tasks(),
            (ExpirationStep::CancellingChildTasks, _) => self.ask(
                ExpirationStep::ClearingHostRequests,
                ServiceCall::ClearPendingHostRequests { run_id },
            ),
            (ExpirationStep::ClearingHostRequests, _) => self.ask(
                ExpirationStep::LoadingRun,
                ServiceCall::LoadRun { run_id },
            ),
            (ExpirationStep::LoadingRun, ServiceReply::Status(Some(status))) =>
                if status.is_terminal() {
                    ServiceNext::Done
                } else {
                    self.ask(
                        ExpirationStep::Transitioning,
                        ServiceCall::TransitionStatus {
                            run_id,
                            status: AgentRunStatus::Cancelling,
                        },
                    )
                },
            (ExpirationStep::LoadingRun, _) => ServiceNext::Done,
            (ExpirationStep::Transitioning, _) => ServiceNext::Done,
            (ExpirationStep::Over, _) => ServiceNext::Done,
        }
    }
}

/// Begins the response to the expiration of a run's activity with the cancellation
/// signal.
pub fn respond_to_expiration(run_id: &str, expiration: IosAgentBackgroundExpiration) -> (begun: (
    ExpirationResponse,
    ServiceNext<String, AgentRunEvent>,
))
    ensures
        (begun.0@, begun.1@) == response_to(run_id@, expiration@),
        begun.1 matches ServiceNext::Call(call) && forall|reply: ServiceReply<Seq<char>>|
            service_answers(call@, reply) ==> begun.0@.awaits(reply),
{
    let response = ExpirationResponse {
        run_id: run_id.to_string(),
        step: ExpirationStep::Signalling {
            mode: expiration.mode,
            identifier: expiration.identifier,
        },
    };
    (response, ServiceNext::Call(ServiceCall::SignalCancellation))
}

impl AgentRuntimeService {
    /// Begins the response to the expiration of a run's activity once the cancellation signal
    /// is sent.
    pub fn handle_background_activity_expiration(
        run_id: String,
        mode: String,
        identifier: Option<String>,
    ) -> (begun: (ExpirationResponse, ServiceNext<String, AgentRunEvent>))
        ensures
            (begun.0@, begun.1@) == handling_of(
                run_id@,
                ExpirationView { mode: mode@, identifier: optional_text(identifier) },
            ),
            begun.1 matches ServiceNext::Call(call) && forall|reply: ServiceReply<Seq<char>>|
                service_answers(call@, reply) ==> begun.0@.awaits(reply),
    {
        let event = activity_expired(run_id.as_str(), mode, identifier);
        let response = ExpirationResponse { run_id, step: ExpirationStep::RecordingExpiration };
        (response, ServiceNext::Call(ServiceCall::RecordEvent { event }))
    }
}

} // verus!
