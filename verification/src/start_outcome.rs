//! What the beginning of an activity and the preparation at app start lead to from
//! beginning to end, on a device that replies to the calls.

use std::sync::Arc;

use vstd::prelude::*;

use crate::activity::{
    BACKGROUND_TASK_INVALID, CONTINUED_PROCESSING_MODE, FINITE_BACKGROUND_TASK_MODE,
};
use crate::begin::{begin_run, continued_start, BeginRunView, BeginStep, StartView};
use crate::continued::{
    continued_attempt, refusal_text, submission_error_text, ContinuedAttempt, ContinuedOutcome,
    ContinuedStep, Refusal, UNKNOWN_SUBMISSION_ERROR,
};
use crate::finite::{
    finite_attempt, finite_start, finite_task_error_text, finite_task_on, FiniteStep,
};
use crate::native::{
    Device, NativeCall, NativeClass, NativeReply, NativeSelector, Next, Phase,
};
use crate::prepare::{PrepareStep, Preparation};
use crate::queries::{version_of, ApplicationQuery, VersionQuery};
use crate::registration::{registration, registration_on, Registration, RegistrationError};
use crate::registry::{entry, RegistryView};
use crate::request::{
    request_creation, request_on, RequestCreation, RequestError, RequestTextsView,
};
use crate::task_outcome::{registry_after_finish, takes_on};
use crate::version::{offers_continued_processing, system_version_text};

verus! {

/// The scheduler of a device that has one.
pub open spec fn scheduler_of(device: Device) -> usize {
    device.object(
        NativeCall::SharedScheduler { class: device.class(NativeClass::TaskScheduler) },
    )
}

/// Why a device is passed over before the launch handler is registered, if it is.
pub open spec fn early_refusal(device: Device, enabled: bool) -> Option<Refusal<Seq<char>>> {
    match version_of(device) {
        None => Some(Refusal::VersionUnavailable),
        Some(version) => if !offers_continued_processing(version) {
            Some(Refusal::UnsupportedVersion(version))
        } else if !enabled {
            Some(Refusal::Disabled)
        } else if device.class(NativeClass::ContinuedProcessingTaskRequest) == 0 {
            Some(Refusal::RequestClassUnavailable)
        } else if device.class(NativeClass::TaskScheduler) == 0 {
            Some(Refusal::SchedulerClassUnavailable)
        } else {
            None
        },
    }
}

/// What comes of the submission of a request.
pub open spec fn submission_on(device: Device, request: usize) -> ContinuedOutcome<Seq<char>> {
    let reply = (device.reply)(
        NativeCall::SubmitRequest { scheduler: scheduler_of(device), request },
    );
    if reply->submitted {
        Ok(())
    } else {
        Err(
            Refusal::SubmissionFailed(
                if reply->error == 0 {
                    UNKNOWN_SUBMISSION_ERROR@
                } else {
                    submission_error_text(
                        device.text(NativeCall::ErrorDescription { error: reply->error }),
                    )
                },
            ),
        )
    }
}

/// What comes of the attempt on a device whose launch handler is registered.
pub open spec fn late_outcome(device: Device, texts: RequestTextsView) -> ContinuedOutcome<
    Seq<char>,
> {
    if !device.responds(scheduler_of(device), NativeSelector::SubmitTaskRequest) {
        Err(Refusal::SubmissionUnavailable)
    } else {
        match request_on(
            device,
            device.class(NativeClass::ContinuedProcessingTaskRequest),
            texts,
        ) {
            Err(error) => Err(Refusal::Request(error)),
            Ok(request) => submission_on(device, request),
        }
    }
}

/// Whether an attempt gets as far as putting its expiration handler into the registry.
pub open spec fn gets_registered(device: Device, enabled: bool, registered: bool) -> bool {
    early_refusal(device, enabled) is None && registration_on(
        device,
        registered,
        scheduler_of(device),
    ) is Ok
}

/// What comes of the attempt to request a continued-processing task on a device.
pub open spec fn continued_outcome_on(
    device: Device,
    texts: RequestTextsView,
    enabled: bool,
    registered: bool,
) -> ContinuedOutcome<Seq<char>> {
    match early_refusal(device, enabled) {
        Some(refusal) => Err(refusal),
        None => match registration_on(device, registered, scheduler_of(device)) {
            Err(error) => Err(Refusal::Registration(error)),
            Ok(()) => late_outcome(device, texts),
        },
    }
}

/// The registry after the attempt: an expiration handler stands there exactly if a
/// continued-processing task was requested.
pub open spec fn registry_after_attempt<H>(
    registry: RegistryView<H>,
    device: Device,
    texts: RequestTextsView,
    enabled: bool,
    handler: H,
) -> RegistryView<H> {
    if !gets_registered(device, enabled, registry.registered) {
        registry
    } else if continued_outcome_on(device, texts, enabled, registry.registered) is Ok {
        RegistryView {
            handlers: registry.handlers.insert(texts.identifier, handler),
            registered: true,
            ..registry
        }
    } else {
        RegistryView {
            handlers: registry.handlers.remove(texts.identifier),
            registered: true,
            ..registry
        }
    }
}

/// What comes of the beginning of an activity on a device. The beginning asks for the
/// version twice: the report gives the version that was told at first.
pub open spec fn start_on(
    at_first: Device,
    device: Device,
    texts: RequestTextsView,
    enabled: bool,
    registered: bool,
) -> StartView {
    let system_version = system_version_text(version_of(at_first));
    match continued_outcome_on(device, texts, enabled, registered) {
        Ok(()) => Ok(continued_start(texts.identifier, system_version)),
        Err(refusal) => match finite_task_on(device, texts.title) {
            Ok(task) => Ok(finite_start(task, system_version, Some(refusal_text(refusal)))),
            Err(error) => Err(finite_task_error_text(error)),
        },
    }
}

/// How many calls a step of the question for the version leads to at most.
pub open spec fn version_calls_left(query: VersionQuery) -> nat {
    match query {
        VersionQuery::Class => 2,
        VersionQuery::Version => 1,
    }
}

/// How many calls a step of the registration leads to at most.
pub open spec fn registration_calls_left(registration: Registration) -> nat {
    match registration {
        Registration::Query { .. } => 2,
        Registration::Register => 1,
    }
}

/// How many calls a step of the creation of a request leads to at most.
pub open spec fn creation_calls_left(creation: RequestCreation) -> nat {
    match creation {
        RequestCreation::TitledQuery { .. } => 8,
        RequestCreation::TitledAllocation => 2,
        RequestCreation::TitledInitialization => 1,
        RequestCreation::IdentifierQuery { .. } => 7,
        RequestCreation::IdentifierAllocation => 6,
        RequestCreation::IdentifierInitialization => 5,
        RequestCreation::TitleQuery { .. } => 4,
        RequestCreation::TitleSet { .. } => 3,
        RequestCreation::SubtitleQuery { .. } => 2,
        RequestCreation::SubtitleSet { .. } => 1,
    }
}

/// How many calls a step of an attempt leads to at most.
pub open spec fn attempt_calls_left(step: ContinuedStep) -> nat {
    match step {
        ContinuedStep::Version(query) => 17 + version_calls_left(query),
        ContinuedStep::RequestClass => 17,
        ContinuedStep::SchedulerClass { .. } => 16,
        ContinuedStep::Scheduler { .. } => 15,
        ContinuedStep::Registering { registration, .. } => 12 + registration_calls_left(
            registration,
        ),
        ContinuedStep::SubmitQuery { .. } => 12,
        ContinuedStep::Creating { creation, .. } => 3 + creation_calls_left(creation),
        ContinuedStep::Submitting { .. } => 3,
        ContinuedStep::Releasing { .. } => 2,
        ContinuedStep::Describing => 1,
        ContinuedStep::Over => 0,
    }
}

/// How many calls a step of the attempt to begin a finite background task leads to at
/// most.
pub open spec fn finite_calls_left(step: FiniteStep) -> nat {
    match step {
        FiniteStep::Application(ApplicationQuery::Class) => 3,
        FiniteStep::Application(ApplicationQuery::Instance) => 2,
        FiniteStep::Task => 1,
        FiniteStep::Over => 0,
    }
}

/// What the creation of a request comes to from a point on.
pub open spec fn run_creation(
    phase: Phase<RequestCreation, Seq<char>, Result<usize, RequestError>>,
    texts: RequestTextsView,
    device: Device,
) -> Result<usize, RequestError>
    decreases
            (match phase {
                Phase::Ask(creation, _) => creation_calls_left(creation),
                Phase::Done(_) => 0,
            }),
{
    match phase {
        Phase::Done(result) => result,
        Phase::Ask(creation, call) => run_creation(
            creation.after(texts, (device.reply)(call)),
            texts,
            device,
        ),
    }
}

/// What an attempt to request a continued-processing task comes to from a point on: its
/// outcome, and the registry that it leaves.
pub open spec fn run_attempt<H>(
    attempt: ContinuedAttempt<H>,
    texts: RequestTextsView,
    registry: RegistryView<H>,
    next: Next<Seq<char>, ContinuedOutcome<Seq<char>>>,
    device: Device,
) -> (ContinuedOutcome<Seq<char>>, RegistryView<H>)
    decreases attempt_calls_left(attempt.step),
{
    match next {
        Next::Done(outcome) => (outcome, registry),
        Next::Call(call) => if attempt.step is Over {
            arbitrary()
        } else {
            let (attempt, registry, next) = attempt.after(texts, registry, (device.reply)(call));
            run_attempt(attempt, texts, registry, next, device)
        },
    }
}

/// How many calls a step of the beginning leads to at most.
pub open spec fn begin_calls_left<H: ?Sized>(step: BeginStep<H, Seq<char>>) -> nat {
    match step {
        BeginStep::SystemVersion { query, attempt } => 4 + attempt_calls_left(attempt.step)
            + version_calls_left(query),
        BeginStep::Continued { attempt } => 4 + attempt_calls_left(attempt.step),
        BeginStep::Finite { attempt } => finite_calls_left(attempt.step),
        BeginStep::Over => 0,
    }
}

/// Whether a step of the beginning does not go on any more.
pub open spec fn is_over<H: ?Sized>(step: BeginStep<H, Seq<char>>) -> bool {
    match step {
        BeginStep::Continued { attempt } => attempt.step is Over,
        BeginStep::Finite { attempt } => attempt.step is Over,
        BeginStep::Over => true,
        _ => false,
    }
}

/// What the beginning of an activity comes to from a point on: its start, and the registry
/// that it leaves. The version for the report is told by the device as it is at first.
pub open spec fn run_begin<H: ?Sized>(
    run: BeginRunView<H>,
    registry: RegistryView<Arc<H>>,
    next: Next<Seq<char>, StartView>,
    at_first: Device,
    device: Device,
) -> (StartView, RegistryView<Arc<H>>)
    decreases begin_calls_left(run.step),
{
    match next {
        Next::Done(start) => (start, registry),
        Next::Call(call) => if is_over(run.step) {
            arbitrary()
        } else {
            let asked = if run.step is SystemVersion {
                at_first
            } else {
                device
            };
            let (run, registry, next) = run.after(registry, (asked.reply)(call));
            run_begin(run, registry, next, at_first, device)
        },
    }
}

/// The creation of a request ends, and comes to the request that the device creates.
pub proof fn law_request_creation(class: usize, texts: RequestTextsView, device: Device)
    requires
        device.well_behaved(),
    ensures
        run_creation(request_creation(class), texts, device) == request_on(device, class, texts),
{
    reveal_with_fuel(run_creation, 10);
}

/// The calls that the creation of a request makes from a point on.
pub open spec fn creation_calls(
    phase: Phase<RequestCreation, Seq<char>, Result<usize, RequestError>>,
    texts: RequestTextsView,
    device: Device,
) -> Seq<NativeCall<Seq<char>>>
    decreases
            (match phase {
                Phase::Ask(creation, _) => creation_calls_left(creation),
                Phase::Done(_) => 0,
            }),
{
    match phase {
        Phase::Done(_) => Seq::empty(),
        Phase::Ask(creation, call) => seq![call] + creation_calls(
            creation.after(texts, (device.reply)(call)),
            texts,
            device,
        ),
    }
}

/// The calls that create a request with the initializer that takes all texts.
pub open spec fn titled_calls(device: Device, class: usize, texts: RequestTextsView) -> Seq<
    NativeCall<Seq<char>>,
> {
    seq![
        NativeCall::InstancesRespond {
            class,
            selector: NativeSelector::InitWithIdentifierTitleSubtitle,
        },
        NativeCall::AllocateRequest { class },
        NativeCall::InitializeTitledRequest {
            allocated: device.object(NativeCall::AllocateRequest { class }),
            identifier: texts.identifier,
            title: texts.title,
            subtitle: texts.subtitle,
        },
    ]
}

/// The calls that create a request with the initializer that takes the identifier alone,
/// and then set each text that the request lets be set.
pub open spec fn plain_calls(
    device: Device,
    class: usize,
    texts: RequestTextsView,
    request: usize,
) -> Seq<NativeCall<Seq<char>>> {
    seq![
        NativeCall::InstancesRespond {
            class,
            selector: NativeSelector::InitWithIdentifierTitleSubtitle,
        },
        NativeCall::InstancesRespond { class, selector: NativeSelector::InitWithIdentifier },
        NativeCall::AllocateRequest { class },
        NativeCall::InitializeRequest {
            allocated: device.object(NativeCall::AllocateRequest { class }),
            identifier: texts.identifier,
        },
        NativeCall::ObjectResponds { object: request, selector: NativeSelector::SetTitle },
    ] + (if device.responds(request, NativeSelector::SetTitle) {
        seq![NativeCall::SetTitle { request, title: texts.title }]
    } else {
        Seq::empty()
    }) + seq![
        NativeCall::ObjectResponds { object: request, selector: NativeSelector::SetSubtitle },
    ] + (if device.responds(request, NativeSelector::SetSubtitle) {
        seq![NativeCall::SetSubtitle { request, subtitle: texts.subtitle }]
    } else {
        Seq::empty()
    })
}

/// A request that is created carries the identifier of the run, and its title and subtitle
/// as far as the system takes them: by the initializer if it takes all texts, else by the
/// setters that there are.
pub proof fn law_request_carries_the_texts(class: usize, texts: RequestTextsView, device: Device)
    requires
        device.well_behaved(),
        request_on(device, class, texts) is Ok,
    ensures
        creation_calls(request_creation(class), texts, device) == if device.instances_respond(
            class,
            NativeSelector::InitWithIdentifierTitleSubtitle,
        ) {
            titled_calls(device, class, texts)
        } else {
            plain_calls(device, class, texts, request_on(device, class, texts)->Ok_0)
        },
{
    reveal_with_fuel(creation_calls, 10);
    let calls = creation_calls(request_creation(class), texts, device);
    if device.instances_respond(class, NativeSelector::InitWithIdentifierTitleSubtitle) {
        assert(calls =~= titled_calls(device, class, texts));
    } else {
        let request = request_on(device, class, texts)->Ok_0;
        assert(calls =~= plain_calls(device, class, texts, request));
    }
}

proof fn lemma_run_submitting<H>(
    attempt: ContinuedAttempt<H>,
    texts: RequestTextsView,
    registry: RegistryView<H>,
    request: usize,
    device: Device,
)
    requires
        device.well_behaved(),
        attempt.step == (ContinuedStep::Submitting { request }),
    ensures
        run_attempt(
            attempt,
            texts,
            registry,
            Next::Call(NativeCall::SubmitRequest { scheduler: scheduler_of(device), request }),
            device,
        ) == (
            submission_on(device, request),
            if submission_on(device, request) is Ok {
                registry
            } else {
                registry.without_handler(texts.identifier)
            },
        ),
{
    reveal_with_fuel(run_attempt, 5);
}

proof fn lemma_run_creating<H>(
    attempt: ContinuedAttempt<H>,
    texts: RequestTextsView,
    registry: RegistryView<H>,
    phase: Phase<RequestCreation, Seq<char>, Result<usize, RequestError>>,
    device: Device,
)
    requires
        device.well_behaved(),
    ensures
        ({
            let scheduler = scheduler_of(device);
            let (begun, registry1, next) = attempt.after_creation(
                registry,
                texts.identifier,
                scheduler,
                phase,
            );
            run_attempt(begun, texts, registry1, next, device) == match run_creation(
                phase,
                texts,
                device,
            ) {
                Err(error) => (
                    Err(Refusal::Request(error)),
                    registry.without_handler(texts.identifier),
                ),
                Ok(request) => (
                    submission_on(device, request),
                    if submission_on(device, request) is Ok {
                        registry
                    } else {
                        registry.without_handler(texts.identifier)
                    },
                ),
            }
        }),
    decreases
            (match phase {
                Phase::Ask(creation, _) => creation_calls_left(creation),
                Phase::Done(_) => 0,
            }),
{
    match phase {
        Phase::Ask(creation, call) => {
            let scheduler = scheduler_of(device);
            let creating = ContinuedAttempt {
                step: ContinuedStep::Creating { scheduler, creation },
                ..attempt
            };
            lemma_run_creating(
                creating,
                texts,
                registry,
                creation.after(texts, (device.reply)(call)),
                device,
            );
        },
        Phase::Done(Err(_)) => {},
        Phase::Done(Ok(request)) => {
            let submitting = ContinuedAttempt {
                step: ContinuedStep::Submitting { request },
                ..attempt
            };
            lemma_run_submitting(submitting, texts, registry, request, device);
        },
    }
}

proof fn lemma_run_registering<H>(
    attempt: ContinuedAttempt<H>,
    texts: RequestTextsView,
    registry: RegistryView<H>,
    phase: Phase<Registration, Seq<char>, Result<(), RegistrationError>>,
    result: Result<(), RegistrationError>,
    device: Device,
)
    requires
        device.well_behaved(),
        attempt.handler is Some,
        match phase {
            Phase::Done(done) => result == done,
            Phase::Ask(Registration::Query { scheduler }, call) => {
                &&& scheduler == scheduler_of(device)
                &&& phase == registration(false, scheduler)
                &&& result == registration_on(device, false, scheduler)
            },
            Phase::Ask(Registration::Register, call) => result == if device.flag(call) {
                Ok::<(), RegistrationError>(())
            } else {
                Err(RegistrationError::Rejected)
            },
        },
    ensures
        ({
            let (begun, registry1, next) = attempt.after_registration(
                registry,
                texts.identifier,
                device.class(NativeClass::ContinuedProcessingTaskRequest),
                scheduler_of(device),
                phase,
            );
            run_attempt(begun, texts, registry1, next, device) == match result {
                Err(error) => (Err(Refusal::Registration(error)), registry),
                Ok(()) => (
                    late_outcome(device, texts),
                    RegistryView {
                        handlers: if late_outcome(device, texts) is Ok {
                            registry.handlers.insert(texts.identifier, attempt.handler->0)
                        } else {
                            registry.handlers.remove(texts.identifier)
                        },
                        registered: true,
                        ..registry
                    },
                ),
            }
        }),
    decreases
            (match phase {
                Phase::Ask(registration, _) => registration_calls_left(registration),
                Phase::Done(_) => 0,
            }),
{
    let request_class = device.class(NativeClass::ContinuedProcessingTaskRequest);
    let scheduler = scheduler_of(device);
    match phase {
        Phase::Ask(registration, call) => {
            let registering = ContinuedAttempt {
                step: ContinuedStep::Registering { request_class, scheduler, registration },
                ..attempt
            };
            lemma_run_registering(
                registering,
                texts,
                registry,
                registration.after((device.reply)(call)),
                result,
                device,
            );
        },
        Phase::Done(Err(_)) => {},
        Phase::Done(Ok(())) => {
            let querying = ContinuedAttempt {
                handler: None,
                step: ContinuedStep::SubmitQuery { request_class, scheduler },
                ..attempt
            };
            let inserted = RegistryView {
                handlers: registry.handlers.insert(texts.identifier, attempt.handler->0),
                registered: true,
                ..registry
            };
            lemma_run_creating(
                querying,
                texts,
                inserted,
                request_creation(request_class),
                device,
            );
            law_request_creation(request_class, texts, device);
            assert(inserted.without_handler(texts.identifier).handlers
                =~= registry.handlers.remove(texts.identifier));
            reveal_with_fuel(run_attempt, 2);
        },
    }
}

/// The attempt to request a continued-processing task ends, comes to this outcome, and
/// leaves this registry.
pub proof fn law_continued_attempt<H>(
    texts: RequestTextsView,
    registry: RegistryView<H>,
    handler: H,
    enabled: bool,
    device: Device,
)
    requires
        device.well_behaved(),
    ensures
        run_attempt(
            continued_attempt(enabled, handler),
            texts,
            registry,
            Next::Call(NativeCall::LookupClass { class: NativeClass::ProcessInfo }),
            device,
        ) == (
            continued_outcome_on(device, texts, enabled, registry.registered),
            registry_after_attempt(registry, device, texts, enabled, handler),
        ),
{
    let attempt = continued_attempt(enabled, handler);
    let request_class = device.class(NativeClass::ContinuedProcessingTaskRequest);
    let scheduler = scheduler_of(device);
    let asking = ContinuedAttempt { step: ContinuedStep::Scheduler { request_class }, ..attempt };
    lemma_run_registering(
        asking,
        texts,
        registry,
        registration(registry.registered, scheduler),
        registration_on(device, registry.registered, scheduler),
        device,
    );
    reveal_with_fuel(run_attempt, 6);
}

proof fn lemma_run_finite<H: ?Sized>(
    run: BeginRunView<H>,
    registry: RegistryView<Arc<H>>,
    fallback_reason: Option<Seq<char>>,
    at_first: Device,
    device: Device,
)
    requires
        device.well_behaved(),
        run.step == (BeginStep::Finite {
            attempt: finite_attempt(
                run.texts.title,
                run.on_expiration,
                run.system_version,
                fallback_reason,
            ),
        }),
    ensures
        run_begin(
            run,
            registry,
            Next::Call(NativeCall::LookupClass { class: NativeClass::Application }),
            at_first,
            device,
        ) == (
            match finite_task_on(device, run.texts.title) {
                Ok(task) => Ok(finite_start(task, run.system_version, fallback_reason)),
                Err(error) => Err(finite_task_error_text(error)),
            },
            registry,
        ),
{
    reveal_with_fuel(run_begin, 5);
}

proof fn lemma_run_continued<H: ?Sized>(
    run: BeginRunView<H>,
    registry: RegistryView<Arc<H>>,
    attempt: ContinuedAttempt<Arc<H>>,
    next: Next<Seq<char>, ContinuedOutcome<Seq<char>>>,
    at_first: Device,
    device: Device,
)
    requires
        device.well_behaved(),
        next is Call ==> !(attempt.step is Over),
    ensures
        ({
            let (begun, begun_next) = run.after_continued(attempt, next);
            let (outcome, after) = run_attempt(attempt, run.texts, registry, next, device);
            run_begin(begun, registry, begun_next, at_first, device) == (
                match outcome {
                    Ok(()) => Ok(continued_start(run.texts.identifier, run.system_version)),
                    Err(refusal) => match finite_task_on(device, run.texts.title) {
                        Ok(task) => Ok(
                            finite_start(task, run.system_version, Some(refusal_text(refusal))),
                        ),
                        Err(error) => Err(finite_task_error_text(error)),
                    },
                },
                after,
            )
        }),
    decreases attempt_calls_left(attempt.step),
{
    let (begun, begun_next) = run.after_continued(attempt, next);
    match next {
        Next::Call(call) => {
            let (attempt1, registry1, next1) = attempt.after(
                run.texts,
                registry,
                (device.reply)(call),
            );
            let resting = run.at(BeginStep::Over);
            lemma_run_continued(resting, registry1, attempt1, next1, at_first, device);
        },
        Next::Done(Ok(())) => {},
        Next::Done(Err(refusal)) => {
            lemma_run_finite(begun, registry, Some(refusal_text(refusal)), at_first, device);
        },
    }
}

/// The beginning of an activity ends, comes to this start, and leaves this registry: a
/// continued-processing task where one can be requested, else a finite background task, else
/// the reason why that did not begin. The version for the report is asked for before
/// everything else, and may be told differently when it is asked for again.
pub proof fn law_beginning<H: ?Sized>(
    texts: RequestTextsView,
    registry: RegistryView<Arc<H>>,
    on_expiration: Arc<H>,
    enabled: bool,
    at_first: Device,
    device: Device,
)
    requires
        at_first.well_behaved(),
        device.well_behaved(),
    ensures
        run_begin(
            begin_run(texts, on_expiration, enabled),
            registry,
            Next::Call(NativeCall::LookupClass { class: NativeClass::ProcessInfo }),
            at_first,
            device,
        ) == (
            start_on(at_first, device, texts, enabled, registry.registered),
            registry_after_attempt(registry, device, texts, enabled, on_expiration),
        ),
{
    let run = begin_run(texts, on_expiration, enabled);
    let attempt = continued_attempt(enabled, on_expiration);
    let asked = BeginRunView {
        system_version: system_version_text(version_of(at_first)),
        ..run
    };
    law_continued_attempt(texts, registry, on_expiration, enabled, device);
    lemma_run_continued(
        asked,
        registry,
        attempt,
        Next::Call(NativeCall::LookupClass { class: NativeClass::ProcessInfo }),
        at_first,
        device,
    );
    reveal_with_fuel(run_begin, 3);
}

/// How many calls a step of the preparation leads to at most.
pub open spec fn prepare_calls_left(step: PrepareStep) -> nat {
    match step {
        PrepareStep::Version(query) => 4 + version_calls_left(query),
        PrepareStep::SchedulerClass => 4,
        PrepareStep::Scheduler => 3,
        PrepareStep::Registering(registration) => registration_calls_left(registration),
        PrepareStep::Over => 0,
    }
}

/// What the preparation comes to from a point on: its result, and whether the launch
/// handler is registered afterwards.
pub open spec fn run_prepare(
    preparation: Preparation,
    registered: bool,
    next: Next<Seq<char>, Result<(), Seq<char>>>,
    device: Device,
) -> (Result<(), Seq<char>>, bool)
    decreases prepare_calls_left(preparation.step),
{
    match next {
        Next::Done(result) => (result, registered),
        Next::Call(call) => if preparation.step is Over {
            arbitrary()
        } else {
            let (preparation, registered, next) = preparation.after(
                registered,
                (device.reply)(call),
            );
            run_prepare(preparation, registered, next, device)
        },
    }
}

/// What the preparation comes to on a device, and whether the launch handler is registered
/// afterwards.
pub open spec fn prepared_on(device: Device, enabled: bool, registered: bool) -> (
    Result<(), Seq<char>>,
    bool,
) {
    match version_of(device) {
        None => (Err(refusal_text(Refusal::VersionUnavailable)), registered),
        Some(version) => if !offers_continued_processing(version) || !enabled {
            (Ok(()), registered)
        } else if device.class(NativeClass::TaskScheduler) == 0 {
            (Err(refusal_text(Refusal::SchedulerClassUnavailable)), registered)
        } else {
            match registration_on(device, registered, scheduler_of(device)) {
                Ok(()) => (Ok(()), true),
                Err(error) => (Err(refusal_text(Refusal::Registration(error))), registered),
            }
        },
    }
}

/// The preparation at app start ends and comes to this. The launch handler is registered only
/// on a system that offers continued processing, in a build that uses it.
pub proof fn law_preparation(enabled: bool, registered: bool, device: Device)
    requires
        device.well_behaved(),
    ensures
        run_prepare(
            Preparation { enabled, step: PrepareStep::Version(VersionQuery::Class) },
            registered,
            Next::Call(NativeCall::LookupClass { class: NativeClass::ProcessInfo }),
            device,
        ) == prepared_on(device, enabled, registered),
        prepared_on(device, enabled, registered).1 ==> registered || (enabled && version_of(
            device,
        ) is Some && offers_continued_processing(version_of(device)->0)),
{
    reveal_with_fuel(run_prepare, 8);
}

/// An activity that has begun rests on exactly one of the two mechanisms, and the report
/// says which: a reason for the fallback is given exactly with a finite background task,
/// whose number is a valid one.
pub proof fn law_start_rests_on_one_mechanism(
    at_first: Device,
    device: Device,
    texts: RequestTextsView,
    enabled: bool,
    registered: bool,
)
    ensures
        start_on(at_first, device, texts, enabled, registered) matches Ok((activity, report)) ==> {
            let continued = continued_outcome_on(device, texts, enabled, registered) is Ok;
            &&& activity.mode == report.mode
            &&& !activity.finished
            &&& activity.continued_identifier == report.identifier
            &&& report.continued_processing_available == continued
            &&& report.fallback_reason is None <==> continued
            &&& continued ==> report.mode == CONTINUED_PROCESSING_MODE@
                && activity.continued_identifier == Some(texts.identifier)
                && activity.finite_background_task is None
            &&& !continued ==> report.mode == FINITE_BACKGROUND_TASK_MODE@
                && activity.continued_identifier is None
                && activity.finite_background_task is Some
                && activity.finite_background_task->0 != BACKGROUND_TASK_INVALID
        },
{
}

/// The beginning of an activity fails exactly if neither mechanism can be had.
pub proof fn law_start_fails_only_without_both_mechanisms(
    at_first: Device,
    device: Device,
    texts: RequestTextsView,
    enabled: bool,
    registered: bool,
)
    ensures
        start_on(at_first, device, texts, enabled, registered) is Err <==> continued_outcome_on(
            device,
            texts,
            enabled,
            registered,
        ) is Err && finite_task_on(device, texts.title) is Err,
{
}

/// A build that does not use continued processing, or a system that does not offer it,
/// takes the finite background task, and leaves the registry as it is.
pub proof fn law_fallback_without_continued_processing<H>(
    at_first: Device,
    device: Device,
    texts: RequestTextsView,
    enabled: bool,
    registry: RegistryView<H>,
    handler: H,
)
    requires
        !enabled || version_of(device) is None || !offers_continued_processing(
            version_of(device)->0,
        ),
    ensures
        continued_outcome_on(device, texts, enabled, registry.registered) is Err,
        registry_after_attempt(registry, device, texts, enabled, handler) == registry,
        start_on(at_first, device, texts, enabled, registry.registered) is Ok <==> finite_task_on(
            device,
            texts.title,
        ) is Ok,
{
}

/// The beginning of an activity leaves launched tasks and the handlers of other
/// identifiers alone. Its own handler stands in the registry if a continued-processing
/// task was requested, and is not left there by an attempt that failed.
pub proof fn law_handler_stands_with_its_task<H>(
    device: Device,
    texts: RequestTextsView,
    enabled: bool,
    registry: RegistryView<H>,
    handler: H,
)
    ensures
        ({
            let outcome = continued_outcome_on(device, texts, enabled, registry.registered);
            let after = registry_after_attempt(registry, device, texts, enabled, handler);
            &&& after.tasks == registry.tasks
            &&& outcome is Ok ==> after.handlers == registry.handlers.insert(
                texts.identifier,
                handler,
            )
            &&& outcome is Err && !registry.handlers.contains_key(texts.identifier)
                ==> after.handlers == registry.handlers
            &&& forall|other: Seq<char>|
                other != texts.identifier ==> {
                    &&& #[trigger] after.handlers.contains_key(other)
                        == registry.handlers.contains_key(other)
                    &&& registry.handlers.contains_key(other) ==> after.handlers[other]
                        == registry.handlers[other]
                }
        }),
{
    let after = registry_after_attempt(registry, device, texts, enabled, handler);
    if !registry.handlers.contains_key(texts.identifier) && continued_outcome_on(
        device,
        texts,
        enabled,
        registry.registered,
    ) is Err {
        assert(after.handlers =~= registry.handlers);
    }
}

/// A run that has begun with a continued-processing task is reached by an expiration and
/// takes on the task that the system launches under its identifier.
pub proof fn law_begun_run_can_be_reached<H>(
    device: Device,
    texts: RequestTextsView,
    enabled: bool,
    registry: RegistryView<H>,
    handler: H,
    task: usize,
)
    requires
        continued_outcome_on(device, texts, enabled, registry.registered) is Ok,
        texts.identifier.len() > 0,
        task != 0,
        device.text(NativeCall::TaskIdentifier { task }) == Some(texts.identifier),
    ensures
        ({
            let after = registry_after_attempt(registry, device, texts, enabled, handler);
            &&& entry(after.handlers, texts.identifier) == Some(handler)
            &&& takes_on(device, after, task)
        }),
{
}

/// A run that finds neither a handler nor a task under its identifier leaves none: once it
/// has begun, its task has been launched any number of times or not at all, and it has
/// finished, both are as they were before it began.
pub proof fn law_finished_run_leaves_nothing_behind<H>(
    at_first: Device,
    device: Device,
    texts: RequestTextsView,
    enabled: bool,
    registry: RegistryView<H>,
    handler: H,
    launched: Option<usize>,
    success: bool,
)
    requires
        !registry.handlers.contains_key(texts.identifier),
        !registry.tasks.contains_key(texts.identifier),
        start_on(at_first, device, texts, enabled, registry.registered) is Ok,
    ensures
        ({
            let (activity, _) = start_on(at_first, device, texts, enabled, registry.registered)->Ok_0;
            let begun = registry_after_attempt(registry, device, texts, enabled, handler);
            let held = match launched {
                Some(task) if activity.continued_identifier is Some => RegistryView {
                    tasks: begun.tasks.insert(texts.identifier, task),
                    ..begun
                },
                _ => begun,
            };
            let after = registry_after_finish(held, activity.finish_request(success)->0);
            &&& activity.finish_request(success) is Some
            &&& after.handlers == registry.handlers
            &&& after.tasks == registry.tasks
        }),
{
    let (activity, _) = start_on(at_first, device, texts, enabled, registry.registered)->Ok_0;
    let begun = registry_after_attempt(registry, device, texts, enabled, handler);
    let held = match launched {
        Some(task) if activity.continued_identifier is Some => RegistryView {
            tasks: begun.tasks.insert(texts.identifier, task),
            ..begun
        },
        _ => begun,
    };
    let after = registry_after_finish(held, activity.finish_request(success)->0);
    assert(after.handlers =~= registry.handlers);
    assert(after.tasks =~= registry.tasks);
}

/// An attempt releases the request that it has submitted, whatever the scheduler says to
/// it, directly after the submission; it releases nothing else.
pub proof fn law_submitted_request_is_released<H>(
    attempt: ContinuedAttempt<H>,
    texts: RequestTextsView,
    registry: RegistryView<H>,
    object: usize,
    reply: NativeReply<Seq<char>>,
)
    requires
        attempt.awaits(reply),
    ensures
        attempt.after(texts, registry, reply).2 == Next::<
            Seq<char>,
            ContinuedOutcome<Seq<char>>,
        >::Call(NativeCall::Release { object }) <==> attempt.step == (ContinuedStep::Submitting {
            request: object,
        }),
{
}

} // verus!
