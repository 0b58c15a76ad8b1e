//! What holds along every run of a beginning and of the preparation at app start, whatever
//! they are resumed with: a call may be answered differently each time it is made, and
//! other flows may change the registry between two calls.

use std::sync::Arc;

use vstd::prelude::*;

use crate::begin::{begin_run, BeginRunView, BeginStep, StartView};
use crate::continued::ContinuedStep;
use crate::finish::FinishRunView;
use crate::finite::{begin_task_call, finite_block, FiniteStep};
use crate::identifier::CONTINUED_PROCESSING_IDENTIFIER_PATTERN;
use crate::launch::LaunchStep;
use crate::native::{
    answers, NativeCall, NativeClass, NativeReply, NativeSelector, Next,
};
use crate::prepare::{PrepareStep, Preparation};
use crate::queries::{ApplicationQuery, VersionQuery};
use crate::registration::Registration;
use crate::registry::RegistryView;
use crate::request::{RequestCreation, RequestTextsView};
use crate::start_outcome::{begin_calls_left, prepare_calls_left};

verus! {

/// What a flow is resumed with: the registry as it is at that time, and a reply.
#[verifier::reject_recursive_types(H)]
pub struct Resumption<H> {
    pub registry: RegistryView<H>,
    pub reply: NativeReply<Seq<char>>,
}

/// A call that a flow has made, and the reply to it.
pub struct Exchange {
    pub call: NativeCall<Seq<char>>,
    pub reply: NativeReply<Seq<char>>,
}

/// Every call got a reply of its kind.
pub open spec fn answered(exchanges: Seq<Exchange>) -> bool {
    forall|i: int|
        0 <= i < exchanges.len() ==> answers(
            (#[trigger] exchanges[i]).call,
            exchanges[i].reply,
        )
}

/// The calls that a beginning has made with their replies, how far it has come, and what it
/// wants next.
pub struct BeginTrace<H: ?Sized> {
    pub exchanges: Seq<Exchange>,
    pub run: BeginRunView<H>,
    pub next: Next<Seq<char>, StartView>,
}

/// The trace of a beginning from a point on.
pub open spec fn trace_from<H: ?Sized>(
    run: BeginRunView<H>,
    next: Next<Seq<char>, StartView>,
    resumptions: Seq<Resumption<Arc<H>>>,
) -> BeginTrace<H>
    decreases resumptions.len(),
{
    match next {
        Next::Call(call) if resumptions.len() > 0 => {
            let reply = resumptions[0].reply;
            let (run, _, next) = run.after(resumptions[0].registry, reply);
            let rest = trace_from(run, next, resumptions.skip(1));
            BeginTrace { exchanges: seq![Exchange { call, reply }] + rest.exchanges, ..rest }
        },
        _ => BeginTrace { exchanges: Seq::empty(), run, next },
    }
}

/// The trace of the beginning of a run's activity.
pub open spec fn begin_trace<H: ?Sized>(
    texts: RequestTextsView,
    on_expiration: Arc<H>,
    enabled: bool,
    resumptions: Seq<Resumption<Arc<H>>>,
) -> BeginTrace<H> {
    trace_from(
        begin_run(texts, on_expiration, enabled),
        Next::Call(NativeCall::LookupClass { class: NativeClass::ProcessInfo }),
        resumptions,
    )
}

/// The place of a call in the order in which calls are made.
pub open spec fn place(call: NativeCall<Seq<char>>) -> int {
    match call {
        NativeCall::LookupClass { class: NativeClass::ProcessInfo } => 0,
        NativeCall::OperatingSystemVersion { .. } => 1,
        NativeCall::LookupClass { class: NativeClass::ContinuedProcessingTaskRequest } => 2,
        NativeCall::LookupClass { class: NativeClass::TaskScheduler } => 3,
        NativeCall::SharedScheduler { .. } => 4,
        NativeCall::ObjectResponds { selector: NativeSelector::RegisterForTask, .. } => 5,
        NativeCall::RegisterLaunchHandler { .. } => 6,
        NativeCall::ObjectResponds { selector: NativeSelector::SubmitTaskRequest, .. } => 7,
        NativeCall::InstancesRespond {
            selector: NativeSelector::InitWithIdentifierTitleSubtitle,
            ..
        } => 8,
        NativeCall::InstancesRespond { selector: NativeSelector::InitWithIdentifier, .. } => 9,
        NativeCall::AllocateRequest { .. } => 10,
        NativeCall::InitializeTitledRequest { .. } => 11,
        NativeCall::InitializeRequest { .. } => 11,
        NativeCall::ObjectResponds { selector: NativeSelector::SetTitle, .. } => 12,
        NativeCall::SetTitle { .. } => 13,
        NativeCall::ObjectResponds { selector: NativeSelector::SetSubtitle, .. } => 14,
        NativeCall::SetSubtitle { .. } => 15,
        NativeCall::SubmitRequest { .. } => 16,
        NativeCall::Release { .. } => 17,
        NativeCall::ErrorDescription { .. } => 18,
        NativeCall::LookupClass { class: NativeClass::Application } => 19,
        NativeCall::SharedApplication { .. } => 20,
        NativeCall::BeginBackgroundTask { .. } => 21,
        _ => -1,
    }
}

spec fn version_place(query: VersionQuery) -> int {
    match query {
        VersionQuery::Class => 0,
        VersionQuery::Version => 1,
    }
}

spec fn registration_place(registration: Registration) -> int {
    match registration {
        Registration::Query { .. } => 5,
        Registration::Register => 6,
    }
}

spec fn creation_place(creation: RequestCreation) -> int {
    match creation {
        RequestCreation::TitledQuery { .. } => 8,
        RequestCreation::IdentifierQuery { .. } => 9,
        RequestCreation::TitledAllocation => 10,
        RequestCreation::IdentifierAllocation => 10,
        RequestCreation::TitledInitialization => 11,
        RequestCreation::IdentifierInitialization => 11,
        RequestCreation::TitleQuery { .. } => 12,
        RequestCreation::TitleSet { .. } => 13,
        RequestCreation::SubtitleQuery { .. } => 14,
        RequestCreation::SubtitleSet { .. } => 15,
    }
}

spec fn attempt_place(step: ContinuedStep) -> int {
    match step {
        ContinuedStep::Version(query) => version_place(query),
        ContinuedStep::RequestClass => 2,
        ContinuedStep::SchedulerClass { .. } => 3,
        ContinuedStep::Scheduler { .. } => 4,
        ContinuedStep::Registering { registration, .. } => registration_place(registration),
        ContinuedStep::SubmitQuery { .. } => 7,
        ContinuedStep::Creating { creation, .. } => creation_place(creation),
        ContinuedStep::Submitting { .. } => 16,
        ContinuedStep::Releasing { .. } => 17,
        ContinuedStep::Describing => 18,
        ContinuedStep::Over => -2,
    }
}

spec fn begin_place<H: ?Sized>(step: BeginStep<H, Seq<char>>) -> int {
    match step {
        BeginStep::SystemVersion { query, .. } => version_place(query),
        BeginStep::Continued { attempt } => attempt_place(attempt.step),
        BeginStep::Finite { attempt } => match attempt.step {
            FiniteStep::Application(ApplicationQuery::Class) => 19,
            FiniteStep::Application(ApplicationQuery::Instance) => 20,
            FiniteStep::Task => 21,
            FiniteStep::Over => -2,
        },
        BeginStep::Over => -2,
    }
}

/// Whether a step of the creation of a request waits for the reply to a call.
spec fn is_asked_for(
    creation: RequestCreation,
    texts: RequestTextsView,
    call: NativeCall<Seq<char>>,
) -> bool {
    match creation {
        RequestCreation::TitledInitialization => call matches NativeCall::InitializeTitledRequest {
            identifier,
            title,
            subtitle,
            ..
        } && identifier == texts.identifier && title == texts.title && subtitle == texts.subtitle,
        RequestCreation::IdentifierInitialization => call matches NativeCall::InitializeRequest {
            identifier,
            ..
        } && identifier == texts.identifier,
        RequestCreation::TitleQuery { request } => call == (NativeCall::<
            Seq<char>,
        >::ObjectResponds { object: request, selector: NativeSelector::SetTitle }),
        RequestCreation::TitleSet { request } => call == (NativeCall::SetTitle {
            request,
            title: texts.title,
        }),
        RequestCreation::SubtitleQuery { request } => call == (NativeCall::<
            Seq<char>,
        >::ObjectResponds { object: request, selector: NativeSelector::SetSubtitle }),
        RequestCreation::SubtitleSet { request } => call == (NativeCall::SetSubtitle {
            request,
            subtitle: texts.subtitle,
        }),
        _ => true,
    }
}

/// Whether a beginning waits for the reply to a call.
spec fn stands<H: ?Sized>(run: BeginRunView<H>, call: NativeCall<Seq<char>>) -> bool {
    &&& place(call) == begin_place(run.step)
    &&& forall|reply: NativeReply<Seq<char>>| #[trigger]
        answers(call, reply) ==> run.awaits(reply)
    &&& match run.step {
        BeginStep::SystemVersion { attempt, .. } => attempt.step is Version
            && attempt.step->Version_0 is Class,
        BeginStep::Continued { attempt } => match attempt.step {
            ContinuedStep::Submitting { request } => call matches NativeCall::SubmitRequest {
                request: submitted,
                ..
            } && submitted == request,
            ContinuedStep::Registering { registration: Registration::Register, .. } => call
                matches NativeCall::RegisterLaunchHandler { pattern, .. } && pattern
                == CONTINUED_PROCESSING_IDENTIFIER_PATTERN@,
            ContinuedStep::Creating { creation, .. } => is_asked_for(creation, run.texts, call),
            _ => true,
        },
        BeginStep::Finite { attempt } => {
            &&& attempt.on_expiration == run.on_expiration
            &&& attempt.title == run.texts.title
            &&& attempt.step is Task ==> call == begin_task_call(
                call->BeginBackgroundTask_application,
                attempt.title,
            )
        },
        BeginStep::Over => true,
    }
}

proof fn lemma_step<H: ?Sized>(
    run: BeginRunView<H>,
    call: NativeCall<Seq<char>>,
    resumption: Resumption<Arc<H>>,
)
    requires
        stands(run, call),
        answers(call, resumption.reply),
    ensures
        ({
            let (later, _, next) = run.after(resumption.registry, resumption.reply);
            &&& later.texts == run.texts
            &&& later.on_expiration == run.on_expiration
            &&& begin_calls_left(later.step) < begin_calls_left(run.step)
            &&& next matches Next::Call(following) ==> {
                &&& stands(later, following)
                &&& later.step is SystemVersion ==> run.step is SystemVersion
                &&& begin_place(run.step) < begin_place(later.step) || (run.step is SystemVersion
                    && later.step is Continued && begin_place(later.step) == 0)
            }
        }),
{
    run.lemma_awaits(resumption.registry, resumption.reply);
}

proof fn lemma_unfold<H: ?Sized>(
    run: BeginRunView<H>,
    call: NativeCall<Seq<char>>,
    resumptions: Seq<Resumption<Arc<H>>>,
)
    requires
        resumptions.len() > 0,
    ensures
        ({
            let (later, _, next) = run.after(resumptions[0].registry, resumptions[0].reply);
            let rest = trace_from(later, next, resumptions.skip(1));
            let trace = trace_from(run, Next::Call(call), resumptions);
            &&& trace.exchanges.len() == rest.exchanges.len() + 1
            &&& trace.exchanges[0] == (Exchange { call, reply: resumptions[0].reply })
            &&& forall|i: int|
                0 < i < trace.exchanges.len() ==> #[trigger] trace.exchanges[i]
                    == rest.exchanges[i - 1]
            &&& trace.run == rest.run
            &&& trace.next == rest.next
            &&& answered(trace.exchanges) ==> answered(rest.exchanges) && answers(
                call,
                resumptions[0].reply,
            )
        }),
{
    let (later, _, next) = run.after(resumptions[0].registry, resumptions[0].reply);
    let rest = trace_from(later, next, resumptions.skip(1));
    let trace = trace_from(run, Next::Call(call), resumptions);
    assert forall|i: int| 0 <= i < rest.exchanges.len() implies #[trigger] rest.exchanges[i]
        == trace.exchanges[i + 1] by {}
    if answered(trace.exchanges) {
        assert(answers(trace.exchanges[0].call, trace.exchanges[0].reply));
        assert forall|i: int| 0 <= i < rest.exchanges.len() implies answers(
            (#[trigger] rest.exchanges[i]).call,
            rest.exchanges[i].reply,
        ) by {
            assert(rest.exchanges[i] == trace.exchanges[i + 1]);
        }
    }
}

proof fn lemma_order<H: ?Sized>(
    run: BeginRunView<H>,
    call: NativeCall<Seq<char>>,
    resumptions: Seq<Resumption<Arc<H>>>,
)
    requires
        stands(run, call),
        answered(trace_from(run, Next::Call(call), resumptions).exchanges),
    ensures
        ({
            let trace = trace_from(run, Next::Call(call), resumptions);
            &&& forall|i: int|
                0 <= i < trace.exchanges.len() ==> {
                    &&& 0 <= place((#[trigger] trace.exchanges[i]).call)
                    &&& run.step !is SystemVersion ==> begin_place(run.step) <= place(
                        trace.exchanges[i].call,
                    )
                }
            &&& forall|i: int, j: int|
                0 <= i < j < trace.exchanges.len() && place(
                    (#[trigger] trace.exchanges[j]).call,
                ) >= 2 ==> place((#[trigger] trace.exchanges[i]).call) < place(
                    trace.exchanges[j].call,
                )
            &&& trace.run.texts == run.texts
            &&& trace.run.on_expiration == run.on_expiration
            &&& trace.exchanges.len() <= begin_calls_left(run.step)
            &&& trace.next matches Next::Call(pending) ==> {
                &&& stands(trace.run, pending)
                &&& trace.exchanges.len() == resumptions.len()
                &&& trace.exchanges.len() < begin_calls_left(run.step)
                &&& run.step !is SystemVersion ==> begin_place(run.step) <= place(pending)
                &&& forall|i: int|
                    0 <= i < trace.exchanges.len() && place(pending) >= 2 ==> place(
                        (#[trigger] trace.exchanges[i]).call,
                    ) < place(pending)
            }
        }),
    decreases resumptions.len(),
{
    let trace = trace_from(run, Next::Call(call), resumptions);
    if resumptions.len() > 0 {
        let (later, _, next) = run.after(resumptions[0].registry, resumptions[0].reply);
        let rest = trace_from(later, next, resumptions.skip(1));
        lemma_unfold(run, call, resumptions);
        lemma_step(run, call, resumptions[0]);
        match next {
            Next::Call(following) => {
                lemma_order(later, following, resumptions.skip(1));
                assert forall|i: int, j: int|
                    0 <= i < j < trace.exchanges.len() && place(
                        (#[trigger] trace.exchanges[j]).call,
                    ) >= 2 implies place((#[trigger] trace.exchanges[i]).call) < place(
                    trace.exchanges[j].call,
                ) by {
                    assert(trace.exchanges[j] == rest.exchanges[j - 1]);
                    if i > 0 {
                        assert(trace.exchanges[i] == rest.exchanges[i - 1]);
                    }
                }
            },
            Next::Done(_) => {},
        }
    }
}

proof fn lemma_begins<H: ?Sized>(texts: RequestTextsView, on_expiration: Arc<H>, enabled: bool)
    ensures
        stands(
            begin_run(texts, on_expiration, enabled),
            NativeCall::LookupClass { class: NativeClass::ProcessInfo },
        ),
{
}

/// A beginning makes its calls in a fixed order: apart from the question for the version,
/// which it asks twice, each call stands behind all calls before it, and none is made twice.
pub proof fn law_beginning_goes_in_order<H: ?Sized>(
    texts: RequestTextsView,
    on_expiration: Arc<H>,
    enabled: bool,
    resumptions: Seq<Resumption<Arc<H>>>,
    i: int,
    j: int,
)
    requires
        answered(begin_trace(texts, on_expiration, enabled, resumptions).exchanges),
        0 <= i < j < begin_trace(texts, on_expiration, enabled, resumptions).exchanges.len(),
    ensures
        ({
            let exchanges = begin_trace(texts, on_expiration, enabled, resumptions).exchanges;
            let (earlier, later) = (exchanges[i].call, exchanges[j].call);
            ||| 0 <= place(earlier) < place(later)
            ||| later == (NativeCall::<Seq<char>>::LookupClass { class: NativeClass::ProcessInfo })
            ||| later is OperatingSystemVersion
        }),
{
    lemma_begins(texts, on_expiration, enabled);
    lemma_order(
        begin_run(texts, on_expiration, enabled),
        NativeCall::LookupClass { class: NativeClass::ProcessInfo },
        resumptions,
    );
}

/// The most calls that a beginning makes.
pub open spec fn most_begin_calls() -> nat {
    25
}

/// A beginning ends after a limited number of calls, whatever the replies.
pub proof fn law_beginning_ends<H: ?Sized>(
    texts: RequestTextsView,
    on_expiration: Arc<H>,
    enabled: bool,
    resumptions: Seq<Resumption<Arc<H>>>,
)
    requires
        answered(begin_trace(texts, on_expiration, enabled, resumptions).exchanges),
    ensures
        ({
            let trace = begin_trace(texts, on_expiration, enabled, resumptions);
            &&& trace.exchanges.len() <= most_begin_calls()
            &&& resumptions.len() >= most_begin_calls() ==> trace.next is Done
        }),
{
    lemma_begins(texts, on_expiration, enabled);
    lemma_order(
        begin_run(texts, on_expiration, enabled),
        NativeCall::LookupClass { class: NativeClass::ProcessInfo },
        resumptions,
    );
}

/// Whether a call serves only to tell the version or to begin a finite background task.
pub open spec fn is_fallback_call(call: NativeCall<Seq<char>>) -> bool {
    match call {
        NativeCall::LookupClass { class } => class is ProcessInfo || class is Application,
        NativeCall::OperatingSystemVersion { .. } => true,
        NativeCall::SharedApplication { .. } => true,
        NativeCall::BeginBackgroundTask { .. } => true,
        _ => false,
    }
}

/// Whether a beginning in a build without continued processing has only asked for versions.
spec fn is_held_back<H: ?Sized>(run: BeginRunView<H>) -> bool {
    match run.step {
        BeginStep::SystemVersion { attempt, .. } => !attempt.enabled,
        BeginStep::Continued { attempt } => !attempt.enabled && attempt.step is Version,
        _ => true,
    }
}

proof fn lemma_held_back<H: ?Sized>(
    run: BeginRunView<H>,
    call: NativeCall<Seq<char>>,
    resumptions: Seq<Resumption<Arc<H>>>,
)
    requires
        stands(run, call),
        is_held_back(run),
        answered(trace_from(run, Next::Call(call), resumptions).exchanges),
    ensures
        ({
            let trace = trace_from(run, Next::Call(call), resumptions);
            &&& forall|i: int|
                0 <= i < trace.exchanges.len() ==> is_fallback_call(
                    (#[trigger] trace.exchanges[i]).call,
                )
            &&& trace.next matches Next::Call(pending) ==> is_fallback_call(pending)
        }),
    decreases resumptions.len(),
{
    if resumptions.len() > 0 {
        let (later, _, next) = run.after(resumptions[0].registry, resumptions[0].reply);
        lemma_unfold(run, call, resumptions);
        lemma_step(run, call, resumptions[0]);
        if next is Call {
            lemma_held_back(later, next->Call_0, resumptions.skip(1));
        }
    }
}

/// In a build that does not use continued processing, a beginning asks nothing of the
/// scheduler: no handler is registered, no request is created and none is submitted.
pub proof fn law_disabled_build_submits_nothing<H: ?Sized>(
    texts: RequestTextsView,
    on_expiration: Arc<H>,
    resumptions: Seq<Resumption<Arc<H>>>,
)
    requires
        answered(begin_trace(texts, on_expiration, false, resumptions).exchanges),
    ensures
        ({
            let trace = begin_trace(texts, on_expiration, false, resumptions);
            &&& forall|i: int|
                0 <= i < trace.exchanges.len() ==> is_fallback_call(
                    (#[trigger] trace.exchanges[i]).call,
                )
            &&& trace.next matches Next::Call(pending) ==> is_fallback_call(pending)
        }),
{
    lemma_begins(texts, on_expiration, false);
    lemma_held_back(
        begin_run(texts, on_expiration, false),
        NativeCall::LookupClass { class: NativeClass::ProcessInfo },
        resumptions,
    );
}

/// Whether an exchange is the submission of a request that was accepted.
pub open spec fn is_accepted_submission(exchange: Exchange) -> bool {
    exchange.call is SubmitRequest && exchange.reply->submitted
}

/// Whether a beginning is about to succeed with a continued-processing task.
spec fn is_accepted<H: ?Sized>(run: BeginRunView<H>) -> bool {
    run.step matches BeginStep::Continued { attempt } && attempt.step
        matches ContinuedStep::Releasing { submitted, .. } && submitted
}

proof fn lemma_mechanisms<H: ?Sized>(
    run: BeginRunView<H>,
    call: NativeCall<Seq<char>>,
    resumptions: Seq<Resumption<Arc<H>>>,
)
    requires
        stands(run, call),
        answered(trace_from(run, Next::Call(call), resumptions).exchanges),
    ensures
        ({
            let trace = trace_from(run, Next::Call(call), resumptions);
            let len = trace.exchanges.len();
            &&& forall|i: int|
                0 <= i < len && (#[trigger] trace.exchanges[i]).call is BeginBackgroundTask ==> i
                    == len - 1 && !is_accepted(run)
            &&& trace.next matches Next::Call(pending) ==> (pending is BeginBackgroundTask
                ==> !is_accepted(run))
            &&& forall|i: int, j: int|
                0 <= i < len && 0 <= j < len && is_accepted_submission(
                    #[trigger] trace.exchanges[i],
                ) ==> !((#[trigger] trace.exchanges[j]).call is BeginBackgroundTask)
            &&& forall|i: int|
                0 <= i < len && is_accepted_submission(#[trigger] trace.exchanges[i]) ==> !(
                trace.next matches Next::Call(pending) && pending is BeginBackgroundTask)
            &&& trace.next matches Next::Done(Ok((activity, _))) ==> (if activity.continued_identifier is Some {
                &&& activity.finite_background_task is None
                &&& is_accepted(run) || exists|i: int|
                    0 <= i < len && is_accepted_submission(#[trigger] trace.exchanges[i])
            } else {
                &&& trace.exchanges.last().call is BeginBackgroundTask
                &&& activity.finite_background_task == Some(
                    trace.exchanges.last().reply->Task_0,
                )
            })
        }),
    decreases resumptions.len(),
{
    let trace = trace_from(run, Next::Call(call), resumptions);
    if resumptions.len() > 0 {
        let (later, _, next) = run.after(resumptions[0].registry, resumptions[0].reply);
        let rest = trace_from(later, next, resumptions.skip(1));
        lemma_unfold(run, call, resumptions);
        lemma_step(run, call, resumptions[0]);
        match next {
            Next::Call(following) => {
                lemma_mechanisms(later, following, resumptions.skip(1));
                lemma_order(run, call, resumptions);
                if is_accepted_submission(trace.exchanges[0]) {
                    assert(is_accepted(later));
                }
                assert forall|i: int, j: int|
                    0 <= i < trace.exchanges.len() && 0 <= j < trace.exchanges.len()
                        && is_accepted_submission(#[trigger] trace.exchanges[i]) implies !((
                #[trigger] trace.exchanges[j]).call is BeginBackgroundTask) by {
                    if j > 0 {
                        assert(trace.exchanges[j] == rest.exchanges[j - 1]);
                    }
                    if i > 0 {
                        assert(trace.exchanges[i] == rest.exchanges[i - 1]);
                    }
                }
                if rest.exchanges.len() > 0 {
                    assert(trace.exchanges.last() == rest.exchanges.last());
                }
                if exists|i: int|
                    0 <= i < rest.exchanges.len() && is_accepted_submission(
                        #[trigger] rest.exchanges[i],
                    ) {
                    let i = choose|i: int|
                        0 <= i < rest.exchanges.len() && is_accepted_submission(
                            #[trigger] rest.exchanges[i],
                        );
                    assert(is_accepted_submission(trace.exchanges[i + 1]));
                }
            },
            Next::Done(_) => {},
        }
    }
}

/// A finite background task is begun at most once, as the last call of a beginning, and
/// never beside a continued-processing task: not once a request has been accepted. An
/// activity that has begun rests on the request that was accepted or on the task that was
/// begun.
pub proof fn law_one_mechanism_is_begun<H: ?Sized>(
    texts: RequestTextsView,
    on_expiration: Arc<H>,
    enabled: bool,
    resumptions: Seq<Resumption<Arc<H>>>,
)
    requires
        answered(begin_trace(texts, on_expiration, enabled, resumptions).exchanges),
    ensures
        ({
            let trace = begin_trace(texts, on_expiration, enabled, resumptions);
            let len = trace.exchanges.len();
            &&& forall|i: int|
                0 <= i < len && (#[trigger] trace.exchanges[i]).call is BeginBackgroundTask ==> i
                    == len - 1
            &&& forall|i: int, j: int|
                0 <= i < len && 0 <= j < len && is_accepted_submission(
                    #[trigger] trace.exchanges[i],
                ) ==> !((#[trigger] trace.exchanges[j]).call is BeginBackgroundTask)
            &&& forall|i: int|
                0 <= i < len && is_accepted_submission(#[trigger] trace.exchanges[i]) ==> !(
                trace.next matches Next::Call(pending) && pending is BeginBackgroundTask)
            &&& trace.next matches Next::Done(Ok((activity, _))) ==> (if activity.continued_identifier is Some {
                &&& activity.finite_background_task is None
                &&& exists|i: int|
                    0 <= i < len && is_accepted_submission(#[trigger] trace.exchanges[i])
            } else {
                &&& trace.exchanges.last().call is BeginBackgroundTask
                &&& activity.finite_background_task == Some(
                    trace.exchanges.last().reply->Task_0,
                )
            })
        }),
{
    lemma_begins(texts, on_expiration, enabled);
    lemma_mechanisms(
        begin_run(texts, on_expiration, enabled),
        NativeCall::LookupClass { class: NativeClass::ProcessInfo },
        resumptions,
    );
}

/// A finite background task is begun with a block that calls the expiration handler that the
/// run was begun with, and tells it the mode and no identifier.
pub proof fn law_finite_task_calls_the_handler_of_its_run<H: ?Sized>(
    texts: RequestTextsView,
    on_expiration: Arc<H>,
    enabled: bool,
    resumptions: Seq<Resumption<Arc<H>>>,
)
    requires
        answered(begin_trace(texts, on_expiration, enabled, resumptions).exchanges),
    ensures
        ({
            let trace = begin_trace(texts, on_expiration, enabled, resumptions);
            trace.next matches Next::Call(pending) ==> pending is BeginBackgroundTask ==> {
                &&& trace.run.block() == Some(finite_block(on_expiration))
                &&& pending->expiration_mode == finite_block(on_expiration).expiration.mode
                &&& pending->expiration_identifier == finite_block(
                    on_expiration,
                ).expiration.identifier
                &&& pending->name == texts.title
            }
        }),
{
    lemma_begins(texts, on_expiration, enabled);
    lemma_order(
        begin_run(texts, on_expiration, enabled),
        NativeCall::LookupClass { class: NativeClass::ProcessInfo },
        resumptions,
    );
}

/// The call that releases a request.
pub open spec fn release_of(request: usize) -> NativeCall<Seq<char>> {
    NativeCall::Release { object: request }
}

/// Whether a beginning is about to release a request that it has submitted.
spec fn is_releasing<H: ?Sized>(run: BeginRunView<H>) -> bool {
    run.step matches BeginStep::Continued { attempt } && attempt.step is Releasing
}

proof fn lemma_releases<H: ?Sized>(
    run: BeginRunView<H>,
    call: NativeCall<Seq<char>>,
    resumptions: Seq<Resumption<Arc<H>>>,
)
    requires
        stands(run, call),
        answered(trace_from(run, Next::Call(call), resumptions).exchanges),
    ensures
        ({
            let trace = trace_from(run, Next::Call(call), resumptions);
            let len = trace.exchanges.len();
            &&& forall|i: int|
                0 <= i < len ==> ((#[trigger] trace.exchanges[i]).call
                    matches NativeCall::SubmitRequest { request, .. } ==> if i + 1 < len {
                    trace.exchanges[i + 1].call == release_of(request)
                } else {
                    trace.next == Next::<Seq<char>, StartView>::Call(release_of(request))
                })
            &&& forall|i: int|
                0 <= i < len ==> ((#[trigger] trace.exchanges[i]).call is Release ==> if i > 0 {
                    trace.exchanges[i - 1].call is SubmitRequest
                } else {
                    is_releasing(run)
                })
            &&& trace.next matches Next::Call(pending) ==> (pending is Release ==> if len > 0 {
                trace.exchanges[len - 1].call is SubmitRequest
            } else {
                is_releasing(run)
            })
        }),
    decreases resumptions.len(),
{
    let trace = trace_from(run, Next::Call(call), resumptions);
    if resumptions.len() > 0 {
        let (later, _, next) = run.after(resumptions[0].registry, resumptions[0].reply);
        let rest = trace_from(later, next, resumptions.skip(1));
        lemma_unfold(run, call, resumptions);
        lemma_step(run, call, resumptions[0]);
        match next {
            Next::Call(following) => {
                lemma_releases(later, following, resumptions.skip(1));
                assert(is_releasing(later) ==> call is SubmitRequest);
                if rest.exchanges.len() > 0 {
                    lemma_unfold(later, following, resumptions.skip(1));
                    assert(trace.exchanges[1] == rest.exchanges[0]);
                    assert(rest.exchanges[0].call == following);
                }
                assert forall|i: int| 0 <= i < trace.exchanges.len() implies ((
                #[trigger] trace.exchanges[i]).call matches NativeCall::SubmitRequest {
                    request,
                    ..
                } ==> if i + 1 < trace.exchanges.len() {
                    trace.exchanges[i + 1].call == release_of(request)
                } else {
                    trace.next == Next::<Seq<char>, StartView>::Call(release_of(request))
                }) by {
                    if i > 0 {
                        assert(trace.exchanges[i] == rest.exchanges[i - 1]);
                        if i + 1 < trace.exchanges.len() {
                            assert(trace.exchanges[i + 1] == rest.exchanges[i]);
                        }
                    }
                }
                assert forall|i: int| 0 <= i < trace.exchanges.len() implies ((
                #[trigger] trace.exchanges[i]).call is Release ==> if i > 0 {
                    trace.exchanges[i - 1].call is SubmitRequest
                } else {
                    is_releasing(run)
                }) by {
                    if i > 1 {
                        assert(trace.exchanges[i - 1] == rest.exchanges[i - 2]);
                    }
                    if i > 0 {
                        assert(trace.exchanges[i] == rest.exchanges[i - 1]);
                    }
                }
            },
            Next::Done(_) => {},
        }
    }
}

/// A beginning submits at most one request, releases the request that it has submitted
/// directly after the submission, and releases nothing else: what it submits is released
/// exactly once.
pub proof fn law_submitted_request_is_released_once<H: ?Sized>(
    texts: RequestTextsView,
    on_expiration: Arc<H>,
    enabled: bool,
    resumptions: Seq<Resumption<Arc<H>>>,
)
    requires
        answered(begin_trace(texts, on_expiration, enabled, resumptions).exchanges),
    ensures
        ({
            let trace = begin_trace(texts, on_expiration, enabled, resumptions);
            let len = trace.exchanges.len();
            &&& forall|i: int, j: int|
                0 <= i < len && 0 <= j < len && (#[trigger] trace.exchanges[i]).call is SubmitRequest
                    && (#[trigger] trace.exchanges[j]).call is SubmitRequest ==> i == j
            &&& forall|i: int, j: int|
                0 <= i < len && 0 <= j < len && (#[trigger] trace.exchanges[i]).call is Release
                    && (#[trigger] trace.exchanges[j]).call is Release ==> i == j
            &&& forall|i: int|
                0 <= i < len ==> ((#[trigger] trace.exchanges[i]).call
                    matches NativeCall::SubmitRequest { request, .. } ==> if i + 1 < len {
                    trace.exchanges[i + 1].call == release_of(request)
                } else {
                    trace.next == Next::<Seq<char>, StartView>::Call(release_of(request))
                })
            &&& forall|i: int|
                0 <= i < len ==> ((#[trigger] trace.exchanges[i]).call is Release ==> i > 0
                    && trace.exchanges[i - 1].call is SubmitRequest)
        }),
{
    let run = begin_run(texts, on_expiration, enabled);
    let first = NativeCall::LookupClass { class: NativeClass::ProcessInfo };
    lemma_begins(texts, on_expiration, enabled);
    lemma_order(run, first, resumptions);
    lemma_releases(run, first, resumptions);
    let exchanges = begin_trace(texts, on_expiration, enabled, resumptions).exchanges;
    assert forall|i: int, j: int|
        0 <= i < exchanges.len() && 0 <= j < exchanges.len() && place(
            (#[trigger] exchanges[i]).call,
        ) == place((#[trigger] exchanges[j]).call) && place(exchanges[i].call) >= 2 implies i
        == j by {
        if i < j {
            assert(place(exchanges[i].call) < place(exchanges[j].call));
        } else if j < i {
            assert(place(exchanges[j].call) < place(exchanges[i].call));
        }
    }
}

/// Whether a beginning has not come to the registration of the launch handler.
spec fn is_not_registering<H: ?Sized>(run: BeginRunView<H>) -> bool {
    run.step matches BeginStep::Continued { attempt } ==> !(attempt.step is Registering)
}

proof fn lemma_not_registered_again<H: ?Sized>(
    run: BeginRunView<H>,
    call: NativeCall<Seq<char>>,
    resumptions: Seq<Resumption<Arc<H>>>,
)
    requires
        stands(run, call),
        is_not_registering(run),
        forall|i: int|
            0 <= i < resumptions.len() ==> (#[trigger] resumptions[i]).registry.registered,
        answered(trace_from(run, Next::Call(call), resumptions).exchanges),
    ensures
        ({
            let trace = trace_from(run, Next::Call(call), resumptions);
            &&& forall|i: int|
                0 <= i < trace.exchanges.len() ==> !((#[trigger] trace.exchanges[i]).call is RegisterLaunchHandler)
            &&& trace.next matches Next::Call(pending) ==> !(pending is RegisterLaunchHandler)
        }),
    decreases resumptions.len(),
{
    if resumptions.len() > 0 {
        let (later, _, next) = run.after(resumptions[0].registry, resumptions[0].reply);
        let rest = resumptions.skip(1);
        lemma_unfold(run, call, resumptions);
        lemma_step(run, call, resumptions[0]);
        assert forall|i: int| 0 <= i < rest.len() implies (#[trigger] rest[i]).registry.registered by {
            assert(rest[i] == resumptions[i + 1]);
        }
        if next is Call {
            lemma_not_registered_again(later, next->Call_0, rest);
        }
    }
}

/// A beginning registers the launch handler at most once, and not at all while it is
/// registered.
pub proof fn law_beginning_registers_once<H: ?Sized>(
    texts: RequestTextsView,
    on_expiration: Arc<H>,
    enabled: bool,
    resumptions: Seq<Resumption<Arc<H>>>,
)
    requires
        answered(begin_trace(texts, on_expiration, enabled, resumptions).exchanges),
    ensures
        ({
            let exchanges = begin_trace(texts, on_expiration, enabled, resumptions).exchanges;
            &&& forall|i: int, j: int|
                0 <= i < exchanges.len() && 0 <= j < exchanges.len()
                    && (#[trigger] exchanges[i]).call is RegisterLaunchHandler
                    && (#[trigger] exchanges[j]).call is RegisterLaunchHandler ==> i == j
            &&& (forall|i: int|
                0 <= i < resumptions.len() ==> (#[trigger] resumptions[i]).registry.registered)
                ==> forall|i: int|
                0 <= i < exchanges.len() ==> !((#[trigger] exchanges[i]).call is RegisterLaunchHandler)
        }),
{
    let run = begin_run(texts, on_expiration, enabled);
    let first = NativeCall::LookupClass { class: NativeClass::ProcessInfo };
    let exchanges = begin_trace(texts, on_expiration, enabled, resumptions).exchanges;
    lemma_begins(texts, on_expiration, enabled);
    lemma_order(run, first, resumptions);
    assert forall|i: int, j: int|
        0 <= i < exchanges.len() && 0 <= j < exchanges.len()
            && (#[trigger] exchanges[i]).call is RegisterLaunchHandler
            && (#[trigger] exchanges[j]).call is RegisterLaunchHandler implies i == j by {
        if i < j {
            assert(place(exchanges[i].call) < place(exchanges[j].call));
        } else if j < i {
            assert(place(exchanges[j].call) < place(exchanges[i].call));
        }
    }
    if forall|i: int|
        0 <= i < resumptions.len() ==> (#[trigger] resumptions[i]).registry.registered {
        lemma_not_registered_again(run, first, resumptions);
    }
}

/// Whether a step of a beginning is the one at which the scheduler tells whether it has
/// accepted the launch handler.
pub open spec fn awaits_registration<H: ?Sized>(step: BeginStep<H, Seq<char>>) -> bool {
    step matches BeginStep::Continued { attempt } && attempt.step
        matches ContinuedStep::Registering { registration, .. } && registration is Register
}

/// No step of a beginning takes it back that the launch handler is registered; it becomes
/// registered exactly when the scheduler has accepted it.
pub proof fn law_beginning_keeps_the_registration<H: ?Sized>(
    run: BeginRunView<H>,
    registry: RegistryView<Arc<H>>,
    reply: NativeReply<Seq<char>>,
)
    requires
        run.awaits(reply),
    ensures
        run.after(registry, reply).1.registered == (registry.registered || (awaits_registration(
            run.step,
        ) && reply == NativeReply::<Seq<char>>::Flag(true))),
{
}

/// No step of the preparation takes it back that the launch handler is registered; it becomes
/// registered exactly when the scheduler has accepted it.
pub proof fn law_preparation_keeps_the_registration(
    preparation: Preparation,
    registered: bool,
    reply: NativeReply<Seq<char>>,
)
    requires
        preparation.awaits(reply),
    ensures
        preparation.after(registered, reply).1 == (registered || (preparation.step
            == PrepareStep::Registering(Registration::Register) && reply
            == NativeReply::<Seq<char>>::Flag(true))),
{
}

/// Neither a launch nor the end of an activity changes whether the launch handler is
/// registered.
pub proof fn law_tasks_keep_the_registration<H>(
    launch: LaunchStep<Seq<char>>,
    end: FinishRunView,
    registry: RegistryView<H>,
    reply: NativeReply<Seq<char>>,
)
    ensures
        launch.awaits(reply) ==> launch.after(registry, reply).1.registered == registry.registered,
        end.begins(registry).1.registered == registry.registered,
        end.awaits(reply) ==> end.after(registry, reply).1.registered == registry.registered,
{
}

/// The calls that a preparation has made with their replies, how far it has come, and what
/// it wants next.
pub struct PrepareTrace {
    pub exchanges: Seq<Exchange>,
    pub preparation: Preparation,
    pub next: Next<Seq<char>, Result<(), Seq<char>>>,
}

/// The trace of a preparation from a point on.
pub open spec fn prepare_trace_from<H>(
    preparation: Preparation,
    next: Next<Seq<char>, Result<(), Seq<char>>>,
    resumptions: Seq<Resumption<H>>,
) -> PrepareTrace
    decreases resumptions.len(),
{
    match next {
        Next::Call(call) if resumptions.len() > 0 => {
            let reply = resumptions[0].reply;
            let (preparation, _, next) = preparation.after(
                resumptions[0].registry.registered,
                reply,
            );
            let rest = prepare_trace_from(preparation, next, resumptions.skip(1));
            PrepareTrace { exchanges: seq![Exchange { call, reply }] + rest.exchanges, ..rest }
        },
        _ => PrepareTrace { exchanges: Seq::empty(), preparation, next },
    }
}

/// The trace of the preparation at app start.
pub open spec fn prepare_trace<H>(enabled: bool, resumptions: Seq<Resumption<H>>) -> PrepareTrace {
    prepare_trace_from(
        Preparation { enabled, step: PrepareStep::Version(VersionQuery::Class) },
        Next::Call(NativeCall::LookupClass { class: NativeClass::ProcessInfo }),
        resumptions,
    )
}

/// Whether a call serves only to tell the version or to register the launch handler.
pub open spec fn is_preparing_call(call: NativeCall<Seq<char>>) -> bool {
    match call {
        NativeCall::LookupClass { class } => class is ProcessInfo || class is TaskScheduler,
        NativeCall::OperatingSystemVersion { .. } => true,
        NativeCall::SharedScheduler { .. } => true,
        NativeCall::ObjectResponds { selector, .. } => selector is RegisterForTask,
        NativeCall::RegisterLaunchHandler { .. } => true,
        _ => false,
    }
}

spec fn prepare_place(step: PrepareStep) -> int {
    match step {
        PrepareStep::Version(query) => version_place(query),
        PrepareStep::SchedulerClass => 3,
        PrepareStep::Scheduler => 4,
        PrepareStep::Registering(registration) => registration_place(registration),
        PrepareStep::Over => -2,
    }
}

/// Whether a preparation waits for the reply to a call.
spec fn prepare_stands(preparation: Preparation, call: NativeCall<Seq<char>>) -> bool {
    &&& place(call) == prepare_place(preparation.step)
    &&& forall|reply: NativeReply<Seq<char>>| #[trigger]
        answers(call, reply) ==> preparation.awaits(reply)
    &&& !preparation.enabled ==> preparation.step is Version
}

proof fn lemma_prepare<H>(
    preparation: Preparation,
    call: NativeCall<Seq<char>>,
    resumptions: Seq<Resumption<H>>,
)
    requires
        prepare_stands(preparation, call),
        answered(prepare_trace_from(preparation, Next::Call(call), resumptions).exchanges),
    ensures
        ({
            let trace = prepare_trace_from(preparation, Next::Call(call), resumptions);
            let len = trace.exchanges.len();
            &&& len <= prepare_calls_left(preparation.step)
            &&& trace.next is Call ==> len == resumptions.len() && len < prepare_calls_left(
                preparation.step,
            )
            &&& forall|i: int|
                0 <= i < len ==> {
                    &&& is_preparing_call((#[trigger] trace.exchanges[i]).call)
                    &&& prepare_place(preparation.step) <= place(trace.exchanges[i].call)
                    &&& !preparation.enabled ==> place(trace.exchanges[i].call) <= 1
                }
            &&& forall|i: int, j: int|
                0 <= i < j < len ==> place((#[trigger] trace.exchanges[i]).call) < place(
                    (#[trigger] trace.exchanges[j]).call,
                )
            &&& (!(preparation.step is Registering) && forall|i: int|
                0 <= i < resumptions.len() ==> (#[trigger] resumptions[i]).registry.registered)
                ==> forall|i: int|
                0 <= i < len ==> !((#[trigger] trace.exchanges[i]).call is RegisterLaunchHandler)
        }),
    decreases resumptions.len(),
{
    let trace = prepare_trace_from(preparation, Next::Call(call), resumptions);
    if resumptions.len() > 0 {
        let reply = resumptions[0].reply;
        let (later, _, next) = preparation.after(resumptions[0].registry.registered, reply);
        let rest = prepare_trace_from(later, next, resumptions.skip(1));
        assert(trace.exchanges[0] == (Exchange { call, reply }));
        assert(answers(call, reply));
        assert forall|i: int| 0 <= i < rest.exchanges.len() implies answers(
            (#[trigger] rest.exchanges[i]).call,
            rest.exchanges[i].reply,
        ) by {
            assert(rest.exchanges[i] == trace.exchanges[i + 1]);
        }
        assert forall|i: int| 0 < i < trace.exchanges.len() implies #[trigger] trace.exchanges[i]
            == rest.exchanges[i - 1] by {}
        assert(forall|i: int|
            0 <= i < resumptions.skip(1).len() ==> #[trigger] resumptions.skip(1)[i]
                == resumptions[i + 1]);
        if next is Call {
            lemma_prepare(later, next->Call_0, resumptions.skip(1));
        }
    }
}

/// The preparation makes its calls in a fixed order and none of them twice, so that it
/// registers the launch handler at most once. It ends after six calls at most. It submits
/// nothing and begins nothing. In a build that does not use continued processing it asks
/// for nothing but the version, and a handler that is registered is not registered again.
pub proof fn law_preparation_calls<H>(enabled: bool, resumptions: Seq<Resumption<H>>)
    requires
        answered(prepare_trace(enabled, resumptions).exchanges),
    ensures
        ({
            let trace = prepare_trace(enabled, resumptions);
            let len = trace.exchanges.len();
            &&& len <= 6
            &&& resumptions.len() >= 6 ==> trace.next is Done
            &&& forall|i: int| 0 <= i < len ==> is_preparing_call((#[trigger] trace.exchanges[i]).call)
            &&& forall|i: int, j: int|
                0 <= i < j < len ==> place((#[trigger] trace.exchanges[i]).call) < place(
                    (#[trigger] trace.exchanges[j]).call,
                )
            &&& !enabled ==> forall|i: int|
                0 <= i < len ==> place((#[trigger] trace.exchanges[i]).call) <= 1
            &&& (forall|i: int|
                0 <= i < resumptions.len() ==> (#[trigger] resumptions[i]).registry.registered)
                ==> forall|i: int|
                0 <= i < len ==> !((#[trigger] trace.exchanges[i]).call is RegisterLaunchHandler)
        }),
{
    lemma_prepare(
        Preparation { enabled, step: PrepareStep::Version(VersionQuery::Class) },
        NativeCall::LookupClass { class: NativeClass::ProcessInfo },
        resumptions,
    );
}

/// What a trace goes on with behind one of its exchanges: the next call that was made, or
/// what is wanted at its end.
pub open spec fn call_behind<H: ?Sized>(trace: BeginTrace<H>, i: int) -> Next<
    Seq<char>,
    StartView,
> {
    if i + 1 < trace.exchanges.len() {
        Next::Call(trace.exchanges[i + 1].call)
    } else {
        trace.next
    }
}

proof fn lemma_behind<H: ?Sized>(
    run: BeginRunView<H>,
    call: NativeCall<Seq<char>>,
    resumptions: Seq<Resumption<Arc<H>>>,
    i: int,
) -> (at: BeginRunView<H>)
    requires
        stands(run, call),
        answered(trace_from(run, Next::Call(call), resumptions).exchanges),
        0 <= i < trace_from(run, Next::Call(call), resumptions).exchanges.len(),
    ensures
        ({
            let trace = trace_from(run, Next::Call(call), resumptions);
            &&& i < resumptions.len()
            &&& stands(at, trace.exchanges[i].call)
            &&& answers(trace.exchanges[i].call, trace.exchanges[i].reply)
            &&& at.texts == run.texts
            &&& trace.exchanges[i].reply == resumptions[i].reply
            &&& at.after(resumptions[i].registry, resumptions[i].reply).2 == call_behind(trace, i)
        }),
    decreases resumptions.len(),
{
    let trace = trace_from(run, Next::Call(call), resumptions);
    assert(resumptions.len() > 0);
    let (later, _, next) = run.after(resumptions[0].registry, resumptions[0].reply);
    let rest = trace_from(later, next, resumptions.skip(1));
    lemma_unfold(run, call, resumptions);
    lemma_step(run, call, resumptions[0]);
    if i == 0 {
        if rest.exchanges.len() > 0 {
            assert(trace.exchanges[1] == rest.exchanges[0]);
            lemma_unfold(later, next->Call_0, resumptions.skip(1));
        }
        run
    } else {
        assert(next is Call);
        let at = lemma_behind(later, next->Call_0, resumptions.skip(1), i - 1);
        assert(trace.exchanges[i] == rest.exchanges[i - 1]);
        assert(resumptions.skip(1)[i - 1] == resumptions[i]);
        if i + 1 < trace.exchanges.len() {
            assert(trace.exchanges[i + 1] == rest.exchanges[i]);
        }
        at
    }
}

/// Every call of a beginning that names the run carries the texts of the run unchanged: the
/// initializers its identifier, title and subtitle, the setters its title and subtitle, and a
/// finite background task its title. The launch handler is registered for the pattern of all
/// identifiers.
pub proof fn law_calls_carry_the_texts<H: ?Sized>(
    texts: RequestTextsView,
    on_expiration: Arc<H>,
    enabled: bool,
    resumptions: Seq<Resumption<Arc<H>>>,
    i: int,
)
    requires
        answered(begin_trace(texts, on_expiration, enabled, resumptions).exchanges),
        0 <= i < begin_trace(texts, on_expiration, enabled, resumptions).exchanges.len(),
    ensures
        match begin_trace(texts, on_expiration, enabled, resumptions).exchanges[i].call {
            NativeCall::InitializeTitledRequest { identifier, title, subtitle, .. } => identifier
                == texts.identifier && title == texts.title && subtitle == texts.subtitle,
            NativeCall::InitializeRequest { identifier, .. } => identifier == texts.identifier,
            NativeCall::SetTitle { title, .. } => title == texts.title,
            NativeCall::SetSubtitle { subtitle, .. } => subtitle == texts.subtitle,
            NativeCall::BeginBackgroundTask { name, expiration_mode, expiration_identifier, .. } => {
                &&& name == texts.title
                &&& expiration_mode == "finite_background_task"@
                &&& expiration_identifier is None
            },
            NativeCall::RegisterLaunchHandler { pattern, .. } => pattern
                == "com.tauritavern.client.agent.continued.*"@,
            _ => true,
        },
{
    lemma_begins(texts, on_expiration, enabled);
    let at = lemma_behind(
        begin_run(texts, on_expiration, enabled),
        NativeCall::LookupClass { class: NativeClass::ProcessInfo },
        resumptions,
        i,
    );
}

/// A request that was initialised with all texts is submitted next. One that was initialised
/// with its identifier alone is asked for its setters first: the title and then the subtitle
/// are set where it has a setter for them, and only then is it submitted.
pub proof fn law_texts_are_set_where_they_can_be<H: ?Sized>(
    texts: RequestTextsView,
    on_expiration: Arc<H>,
    enabled: bool,
    resumptions: Seq<Resumption<Arc<H>>>,
    i: int,
)
    requires
        answered(begin_trace(texts, on_expiration, enabled, resumptions).exchanges),
        0 <= i < begin_trace(texts, on_expiration, enabled, resumptions).exchanges.len(),
    ensures
        ({
            let trace = begin_trace(texts, on_expiration, enabled, resumptions);
            let reply = trace.exchanges[i].reply;
            let behind = call_behind(trace, i);
            match trace.exchanges[i].call {
                NativeCall::InitializeTitledRequest { .. } => reply->Object_0 != 0 ==> {
                    &&& behind is Call
                    &&& behind->Call_0 is SubmitRequest
                    &&& behind->Call_0->SubmitRequest_request == reply->Object_0
                },
                NativeCall::InitializeRequest { .. } => reply->Object_0 != 0 ==> behind == Next::<
                    Seq<char>,
                    StartView,
                >::Call(
                    NativeCall::ObjectResponds {
                        object: reply->Object_0,
                        selector: NativeSelector::SetTitle,
                    },
                ),
                NativeCall::ObjectResponds { object, selector: NativeSelector::SetTitle } => behind
                    == Next::<Seq<char>, StartView>::Call(
                    if reply->Flag_0 {
                        NativeCall::SetTitle { request: object, title: texts.title }
                    } else {
                        NativeCall::ObjectResponds { object, selector: NativeSelector::SetSubtitle }
                    },
                ),
                NativeCall::SetTitle { request, .. } => behind == Next::<
                    Seq<char>,
                    StartView,
                >::Call(
                    NativeCall::ObjectResponds {
                        object: request,
                        selector: NativeSelector::SetSubtitle,
                    },
                ),
                NativeCall::ObjectResponds { object, selector: NativeSelector::SetSubtitle } =>
                    if reply->Flag_0 {
                        behind == Next::<Seq<char>, StartView>::Call(
                            NativeCall::SetSubtitle { request: object, subtitle: texts.subtitle },
                        )
                    } else {
                        &&& behind is Call
                        &&& behind->Call_0 is SubmitRequest
                        &&& behind->Call_0->SubmitRequest_request == object
                    },
                NativeCall::SetSubtitle { request, .. } => {
                    &&& behind is Call
                    &&& behind->Call_0 is SubmitRequest
                    &&& behind->Call_0->SubmitRequest_request == request
                },
                _ => true,
            }
        }),
{
    lemma_begins(texts, on_expiration, enabled);
    let at = lemma_behind(
        begin_run(texts, on_expiration, enabled),
        NativeCall::LookupClass { class: NativeClass::ProcessInfo },
        resumptions,
        i,
    );
}

/// While a finite background task is being begun, and only then, a beginning keeps a block:
/// it calls the handler that the run was begun with, and tells it the mode
/// `finite_background_task` and no identifier.
pub proof fn law_block_of_a_beginning<H: ?Sized>(
    texts: RequestTextsView,
    on_expiration: Arc<H>,
    enabled: bool,
    resumptions: Seq<Resumption<Arc<H>>>,
)
    requires
        answered(begin_trace(texts, on_expiration, enabled, resumptions).exchanges),
    ensures
        ({
            let trace = begin_trace(texts, on_expiration, enabled, resumptions);
            trace.next matches Next::Call(pending) ==> if pending is BeginBackgroundTask {
                &&& trace.run.block() is Some
                &&& trace.run.block()->0.on_expiration == on_expiration
                &&& trace.run.block()->0.expiration.mode == "finite_background_task"@
                &&& trace.run.block()->0.expiration.identifier is None
            } else {
                trace.run.block() is None
            }
        }),
{
    lemma_begins(texts, on_expiration, enabled);
    lemma_order(
        begin_run(texts, on_expiration, enabled),
        NativeCall::LookupClass { class: NativeClass::ProcessInfo },
        resumptions,
    );
}

/// A version that a beginning is told when it asks for it again decides how it goes on: from
/// iOS 26 on, in a build that uses continued processing, the class of requests is looked up
/// next; otherwise the application is, to begin a finite background task.
pub proof fn law_told_version_decides<H: ?Sized>(
    texts: RequestTextsView,
    on_expiration: Arc<H>,
    enabled: bool,
    resumptions: Seq<Resumption<Arc<H>>>,
    i: int,
)
    requires
        answered(begin_trace(texts, on_expiration, enabled, resumptions).exchanges),
        0 <= i < begin_trace(texts, on_expiration, enabled, resumptions).exchanges.len(),
    ensures
        ({
            let trace = begin_trace(texts, on_expiration, enabled, resumptions);
            let behind = call_behind(trace, i);
            trace.exchanges[i].call is OperatingSystemVersion ==> {
                ||| behind == Next::<Seq<char>, StartView>::Call(
                    NativeCall::LookupClass { class: NativeClass::ProcessInfo },
                )
                ||| behind == Next::<Seq<char>, StartView>::Call(
                    NativeCall::LookupClass {
                        class: if enabled && trace.exchanges[i].reply->Version_0.major_version >= 26 {
                            NativeClass::ContinuedProcessingTaskRequest
                        } else {
                            NativeClass::Application
                        },
                    },
                )
            }
        }),
{
    lemma_begins(texts, on_expiration, enabled);
    lemma_enabled(
        begin_run(texts, on_expiration, enabled),
        NativeCall::LookupClass { class: NativeClass::ProcessInfo },
        resumptions,
        enabled,
        i,
    );
}

/// Whether the attempt of a beginning is made in a build that uses continued processing.
spec fn attempt_enabled<H: ?Sized>(run: BeginRunView<H>, enabled: bool) -> bool {
    match run.step {
        BeginStep::SystemVersion { attempt, .. } => attempt.enabled == enabled,
        BeginStep::Continued { attempt } => attempt.enabled == enabled,
        _ => true,
    }
}

proof fn lemma_enabled<H: ?Sized>(
    run: BeginRunView<H>,
    call: NativeCall<Seq<char>>,
    resumptions: Seq<Resumption<Arc<H>>>,
    enabled: bool,
    i: int,
)
    requires
        stands(run, call),
        attempt_enabled(run, enabled),
        answered(trace_from(run, Next::Call(call), resumptions).exchanges),
        0 <= i < trace_from(run, Next::Call(call), resumptions).exchanges.len(),
    ensures
        ({
            let trace = trace_from(run, Next::Call(call), resumptions);
            let behind = call_behind(trace, i);
            trace.exchanges[i].call is OperatingSystemVersion ==> {
                ||| behind == Next::<Seq<char>, StartView>::Call(
                    NativeCall::LookupClass { class: NativeClass::ProcessInfo },
                )
                ||| behind == Next::<Seq<char>, StartView>::Call(
                    NativeCall::LookupClass {
                        class: if enabled && trace.exchanges[i].reply->Version_0.major_version >= 26 {
                            NativeClass::ContinuedProcessingTaskRequest
                        } else {
                            NativeClass::Application
                        },
                    },
                )
            }
        }),
    decreases resumptions.len(),
{
    let trace = trace_from(run, Next::Call(call), resumptions);
    assert(resumptions.len() > 0);
    let (later, _, next) = run.after(resumptions[0].registry, resumptions[0].reply);
    let rest = trace_from(later, next, resumptions.skip(1));
    lemma_unfold(run, call, resumptions);
    lemma_step(run, call, resumptions[0]);
    if i == 0 {
        if rest.exchanges.len() > 0 {
            assert(trace.exchanges[1] == rest.exchanges[0]);
            lemma_unfold(later, next->Call_0, resumptions.skip(1));
        }
    } else {
        lemma_enabled(later, next->Call_0, resumptions.skip(1), enabled, i - 1);
        assert(trace.exchanges[i] == rest.exchanges[i - 1]);
        if i + 1 < trace.exchanges.len() {
            assert(trace.exchanges[i + 1] == rest.exchanges[i]);
        }
    }
}

} // verus!
