//! What an expiration leads to from beginning to end.

use vstd::prelude::*;

use crate::activity::ExpirationView;
use crate::event::{
    checkpoint_created_event, expired_event, AgentRunEvent, AgentRunEventView,
    EXPIRATION_CHECKPOINT_REASON,
};
use crate::expiration::{
    handling_of, response_to, service_answers, ExpirationResponseView, ExpirationStep, ServiceCall,
    ServiceNext, ServiceReply,
};
use crate::progress::{is_terminal, AgentRunStatus};

verus! {

/// A call to the services, over the contents of its texts and events.
pub type ServiceCallView = ServiceCall<Seq<char>, AgentRunEventView>;

/// The services of the agent runtime, as far as they can be told from outside: what they
/// reply to each call.
pub struct Services {
    pub reply: spec_fn(ServiceCallView) -> ServiceReply<Seq<char>>,
}

impl Services {
    /// Every call gets a reply of its kind.
    pub open spec fn well_behaved(self) -> bool {
        forall|call: ServiceCallView| #[trigger] service_answers(call, (self.reply)(call))
    }

    /// The sequence number under which an event is recorded, if it is.
    pub open spec fn recorded(self, event: AgentRunEventView) -> Option<u64> {
        (self.reply)(ServiceCall::RecordEvent { event })->Recorded_0
    }

    /// The id of the checkpoint that is created for an expiration, if one is.
    pub open spec fn checkpoint(self, run_id: Seq<char>, event_seq: u64) -> Option<Seq<char>> {
        (self.reply)(checkpoint_call(run_id, event_seq))->Checkpoint_0
    }

    /// The status of a run, if it can be loaded.
    pub open spec fn status(self, run_id: Seq<char>) -> Option<AgentRunStatus> {
        (self.reply)(ServiceCall::LoadRun { run_id })->Status_0
    }
}

/// The call that creates the checkpoint of an expiration.
pub open spec fn checkpoint_call(run_id: Seq<char>, event_seq: u64) -> ServiceCallView {
    ServiceCall::CreateCheckpoint { run_id, reason: EXPIRATION_CHECKPOINT_REASON@, event_seq }
}

/// How many calls a step of the response leads to at most.
pub open spec fn expiration_calls_left(step: ExpirationStep<Seq<char>>) -> nat {
    match step {
        ExpirationStep::Signalling { .. } => 8,
        ExpirationStep::RecordingExpiration => 7,
        ExpirationStep::CreatingCheckpoint => 6,
        ExpirationStep::RecordingCheckpoint => 5,
        ExpirationStep::CancellingChildTasks => 4,
        ExpirationStep::ClearingHostRequests => 3,
        ExpirationStep::LoadingRun => 2,
        ExpirationStep::Transitioning => 1,
        ExpirationStep::Over => 0,
    }
}

/// The calls that a response makes from a point on, when the services reply to them.
pub open spec fn expiration_calls(
    response: ExpirationResponseView,
    next: ServiceNext<Seq<char>, AgentRunEventView>,
    services: Services,
) -> Seq<ServiceCallView>
    decreases expiration_calls_left(response.step),
{
    match next {
        ServiceNext::Done => Seq::empty(),
        ServiceNext::Call(call) => if response.step is Over {
            seq![call]
        } else {
            let (response, next) = response.after((services.reply)(call));
            seq![call] + expiration_calls(response, next, services)
        },
    }
}

/// The calls that write the checkpoint of an expiration: none unless the expiration was
/// recorded, and no record of it unless it was created.
pub open spec fn checkpoint_calls(
    run_id: Seq<char>,
    expiration: ExpirationView,
    services: Services,
) -> Seq<ServiceCallView> {
    match services.recorded(expired_event(run_id, expiration)) {
        None => Seq::empty(),
        Some(event_seq) => seq![checkpoint_call(run_id, event_seq)] + match services.checkpoint(
            run_id,
            event_seq,
        ) {
            None => Seq::empty(),
            Some(id) => seq![
                ServiceCall::RecordEvent { event: checkpoint_created_event(run_id, id) },
            ],
        },
    }
}

/// The call that takes a run towards its cancellation: only a run that can be loaded and
/// has not ended.
pub open spec fn cancelling_calls(run_id: Seq<char>, services: Services) -> Seq<ServiceCallView> {
    match services.status(run_id) {
        Some(status) if !is_terminal(status) => seq![
            ServiceCall::TransitionStatus { run_id, status: AgentRunStatus::Cancelling },
        ],
        _ => Seq::empty(),
    }
}

/// The calls that handle an expiration once the cancellation signal is sent.
pub open spec fn handling_calls(
    run_id: Seq<char>,
    expiration: ExpirationView,
    services: Services,
) -> Seq<ServiceCallView> {
    seq![ServiceCall::RecordEvent { event: expired_event(run_id, expiration) }]
        + checkpoint_calls(run_id, expiration, services) + seq![
        ServiceCall::CancelUnfinishedChildTasks { run_id },
        ServiceCall::ClearPendingHostRequests { run_id },
        ServiceCall::LoadRun { run_id },
    ] + cancelling_calls(run_id, services)
}

/// The handling of an expiration makes these calls and no others, in this order: the record
/// of the expiration, the checkpoint, the cancellation of the child tasks, the clearing of
/// the host requests, and a look at the run, which is taken towards its cancellation unless
/// it has ended.
pub proof fn law_expiration_handling(
    run_id: Seq<char>,
    expiration: ExpirationView,
    services: Services,
)
    requires
        services.well_behaved(),
    ensures
        ({
            let (response, next) = handling_of(run_id, expiration);
            expiration_calls(response, next, services) == handling_calls(
                run_id,
                expiration,
                services,
            )
        }),
{
    reveal_with_fuel(expiration_calls, 9);
    let (response, next) = handling_of(run_id, expiration);
    assert(expiration_calls(response, next, services) =~= handling_calls(
        run_id,
        expiration,
        services,
    ));
}

/// An expiration sends the cancellation signal of the run before everything else, and is
/// then handled.
pub proof fn law_expiration_response(
    run_id: Seq<char>,
    expiration: ExpirationView,
    services: Services,
)
    requires
        services.well_behaved(),
    ensures
        ({
            let (response, next) = response_to(run_id, expiration);
            expiration_calls(response, next, services) == seq![ServiceCall::SignalCancellation]
                + handling_calls(run_id, expiration, services)
        }),
{
    law_expiration_handling(run_id, expiration, services);
    let (response, next) = response_to(run_id, expiration);
    assert(expiration_calls(response, next, services) =~= seq![ServiceCall::SignalCancellation]
        + handling_calls(run_id, expiration, services));
}

/// The response to an expiration makes no call twice, so that nothing is lost by taking the
/// reply to each call as fixed.
pub proof fn law_no_service_call_is_made_twice(
    run_id: Seq<char>,
    expiration: ExpirationView,
    services: Services,
)
    ensures
        (seq![ServiceCall::SignalCancellation] + handling_calls(
            run_id,
            expiration,
            services,
        )).no_duplicates(),
{
    reveal_strlit("ios_agent_background_activity_expired");
    reveal_strlit("checkpoint_created");
    assert("ios_agent_background_activity_expired"@.len() != "checkpoint_created"@.len());
}

/// The response to an expiration, told by the replies of the services alone: the cancellation
/// signal and the record of the expiration come first; a checkpoint for the recorded event
/// is created if the expiration was recorded, and recorded with its id if it was created; the
/// child tasks are cancelled, the host requests cleared and the run loaded in any case; and a
/// run that was loaded is taken to the status `Cancelling` unless it has completed, succeeded
/// in part, failed or been cancelled. All of it is done for the run that expired.
pub proof fn law_expiration_in_full(
    run_id: Seq<char>,
    expiration: ExpirationView,
    services: Services,
)
    requires
        services.well_behaved(),
    ensures
        ({
            let (response, next) = response_to(run_id, expiration);
            let expired = ServiceCall::<Seq<char>, _>::RecordEvent {
                event: expired_event(run_id, expiration),
            };
            let event_seq = (services.reply)(expired)->Recorded_0;
            let create = ServiceCall::<Seq<char>, AgentRunEventView>::CreateCheckpoint {
                run_id,
                reason: "ios_background_expiration"@,
                event_seq: event_seq->0,
            };
            let id = (services.reply)(create)->Checkpoint_0;
            let status = (services.reply)(ServiceCall::LoadRun { run_id })->Status_0;
            expiration_calls(response, next, services) == seq![
                ServiceCall::SignalCancellation,
                expired,
            ] + (if event_seq is None {
                Seq::empty()
            } else if id is None {
                seq![create]
            } else {
                seq![
                    create,
                    ServiceCall::RecordEvent { event: checkpoint_created_event(run_id, id->0) },
                ]
            }) + seq![
                ServiceCall::CancelUnfinishedChildTasks { run_id },
                ServiceCall::ClearPendingHostRequests { run_id },
                ServiceCall::LoadRun { run_id },
            ] + (if status is None || status->0 is Completed || status->0 is PartialSuccess
                || status->0 is Cancelled || status->0 is Failed {
                Seq::empty()
            } else {
                seq![
                    ServiceCall::<Seq<char>, AgentRunEventView>::TransitionStatus {
                        run_id,
                        status: AgentRunStatus::Cancelling,
                    },
                ]
            })
        }),
{
    reveal_with_fuel(expiration_calls, 10);
    let (response, next) = response_to(run_id, expiration);
    let expired = ServiceCall::<Seq<char>, _>::RecordEvent {
        event: expired_event(run_id, expiration),
    };
    let event_seq = (services.reply)(expired)->Recorded_0;
    let create = ServiceCall::<Seq<char>, AgentRunEventView>::CreateCheckpoint {
        run_id,
        reason: "ios_background_expiration"@,
        event_seq: event_seq->0,
    };
    let id = (services.reply)(create)->Checkpoint_0;
    let status = (services.reply)(ServiceCall::LoadRun { run_id })->Status_0;
    assert(expiration_calls(response, next, services) =~= seq![
        ServiceCall::SignalCancellation,
        expired,
    ] + (if event_seq is None {
        Seq::empty()
    } else if id is None {
        seq![create]
    } else {
        seq![
            create,
            ServiceCall::RecordEvent { event: checkpoint_created_event(run_id, id->0) },
        ]
    }) + seq![
        ServiceCall::CancelUnfinishedChildTasks { run_id },
        ServiceCall::ClearPendingHostRequests { run_id },
        ServiceCall::LoadRun { run_id },
    ] + (if status is None || status->0 is Completed || status->0 is PartialSuccess || status->0
        is Cancelled || status->0 is Failed {
        Seq::empty()
    } else {
        seq![
            ServiceCall::<Seq<char>, AgentRunEventView>::TransitionStatus {
                run_id,
                status: AgentRunStatus::Cancelling,
            },
        ]
    }));
}

/// The handling of an expiration begins with its record, and goes on as the response does
/// once the cancellation signal is sent.
pub proof fn law_handling_is_the_rest_of_the_response(
    run_id: Seq<char>,
    expiration: ExpirationView,
    services: Services,
)
    requires
        services.well_behaved(),
    ensures
        ({
            let (response, next) = response_to(run_id, expiration);
            let (handling, first) = handling_of(run_id, expiration);
            expiration_calls(response, next, services) == seq![ServiceCall::SignalCancellation]
                + expiration_calls(handling, first, services)
        }),
{
    law_expiration_handling(run_id, expiration, services);
    law_expiration_response(run_id, expiration, services);
}

/// Every reply of the kind that a call to the services asks for answers it, and no other
/// reply does.
pub proof fn law_every_service_reply_of_its_kind_answers(
    call: ServiceCallView,
    reply: ServiceReply<Seq<char>>,
)
    ensures
        call is SignalCancellation || call is CancelUnfinishedChildTasks || call
            is ClearPendingHostRequests || call is TransitionStatus ==> (service_answers(call, reply)
            <==> reply is Done),
        call is RecordEvent ==> (service_answers(call, reply) <==> reply is Recorded),
        call is CreateCheckpoint ==> (service_answers(call, reply) <==> reply is Checkpoint),
        call is LoadRun ==> (service_answers(call, reply) <==> reply is Status),
{
}

/// What is stated of a call to the services, a reply and what a response wants next is stated
/// of all of it.
pub proof fn law_contents_of_a_service_call(
    call: ServiceCall<String, AgentRunEvent>,
    reply: ServiceReply<String>,
    next: ServiceNext<String, AgentRunEvent>,
)
    ensures
        match call {
            ServiceCall::SignalCancellation => call@ is SignalCancellation,
            ServiceCall::RecordEvent { event } => call@ == (ServiceCall::<
                Seq<char>,
                AgentRunEventView,
            >::RecordEvent { event: event@ }),
            ServiceCall::CreateCheckpoint { run_id, reason, event_seq } => call@ == (ServiceCall::<
                Seq<char>,
                AgentRunEventView,
            >::CreateCheckpoint { run_id: run_id@, reason: reason@, event_seq }),
            ServiceCall::CancelUnfinishedChildTasks { run_id } => call@ == (ServiceCall::<
                Seq<char>,
                AgentRunEventView,
            >::CancelUnfinishedChildTasks { run_id: run_id@ }),
            ServiceCall::ClearPendingHostRequests { run_id } => call@ == (ServiceCall::<
                Seq<char>,
                AgentRunEventView,
            >::ClearPendingHostRequests { run_id: run_id@ }),
            ServiceCall::LoadRun { run_id } => call@ == (ServiceCall::<
                Seq<char>,
                AgentRunEventView,
            >::LoadRun { run_id: run_id@ }),
            ServiceCall::TransitionStatus { run_id, status } => call@ == (ServiceCall::<
                Seq<char>,
                AgentRunEventView,
            >::TransitionStatus { run_id: run_id@, status }),
        },
        match reply {
            ServiceReply::Done => reply@ is Done,
            ServiceReply::Recorded(seq) => reply@ == ServiceReply::<Seq<char>>::Recorded(seq),
            ServiceReply::Checkpoint(Some(id)) => reply@ == ServiceReply::Checkpoint(Some(id@)),
            ServiceReply::Checkpoint(None) => reply@ == ServiceReply::<Seq<char>>::Checkpoint(None),
            ServiceReply::Status(status) => reply@ == ServiceReply::<Seq<char>>::Status(status),
        },
        match next {
            ServiceNext::Call(call) => next@ == ServiceNext::<Seq<char>, AgentRunEventView>::Call(
                call@,
            ),
            ServiceNext::Done => next@ is Done,
        },
{
}

} // verus!
