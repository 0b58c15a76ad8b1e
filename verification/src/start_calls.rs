//! The calls that the beginning of an activity and the preparation at app start make, on a
//! device that replies to them.

use std::sync::Arc;

use vstd::prelude::*;

use crate::begin::{begin_run, BeginRunView, BeginStep, StartView};
use crate::continued::{
    continued_attempt, refusal_text, ContinuedAttempt, ContinuedOutcome, ContinuedStep,
};
use crate::finite::{begin_task_call, finite_attempt};
use crate::identifier::CONTINUED_PROCESSING_IDENTIFIER_PATTERN;
use crate::native::{Device, NativeCall, NativeClass, NativeSelector, Next, Phase};
use crate::prepare::{PrepareStep, Preparation};
use crate::queries::{application_of, version_of, ApplicationError, VersionQuery};
use crate::registration::{registration, registration_on};
use crate::registry::RegistryView;
use crate::request::{
    request_creation, request_on, RequestCreation, RequestError, RequestTextsView,
};
use crate::start_outcome::{
    attempt_calls_left, begin_calls_left, continued_outcome_on, creation_calls,
    creation_calls_left, is_over, law_continued_attempt, law_request_creation, prepare_calls_left,
    run_attempt, run_creation, scheduler_of,
};
use crate::version::{offers_continued_processing, system_version_text};

verus! {

/// The calls that ask for the version.
pub open spec fn version_calls(device: Device) -> Seq<NativeCall<Seq<char>>> {
    let process_info_class = device.class(NativeClass::ProcessInfo);
    let lookup = NativeCall::LookupClass { class: NativeClass::ProcessInfo };
    if process_info_class == 0 {
        seq![lookup]
    } else {
        seq![lookup, NativeCall::OperatingSystemVersion { process_info_class }]
    }
}

/// The calls that ask for the scheduler.
pub open spec fn scheduler_calls(device: Device) -> Seq<NativeCall<Seq<char>>> {
    let class = device.class(NativeClass::TaskScheduler);
    let lookup = NativeCall::LookupClass { class: NativeClass::TaskScheduler };
    if class == 0 {
        seq![lookup]
    } else {
        seq![lookup, NativeCall::SharedScheduler { class }]
    }
}

/// The calls that register the launch handler: none if it is registered.
pub open spec fn registration_calls(device: Device, registered: bool, scheduler: usize) -> Seq<
    NativeCall<Seq<char>>,
> {
    let query = NativeCall::ObjectResponds {
        object: scheduler,
        selector: NativeSelector::RegisterForTask,
    };
    if registered {
        Seq::empty()
    } else if !device.responds(scheduler, NativeSelector::RegisterForTask) {
        seq![query]
    } else {
        seq![
            query,
            NativeCall::RegisterLaunchHandler {
                scheduler,
                pattern: CONTINUED_PROCESSING_IDENTIFIER_PATTERN@,
            },
        ]
    }
}

/// The calls that submit a request: it is released whatever comes of the submission, and
/// an error is asked for its description.
pub open spec fn submission_calls(device: Device, request: usize) -> Seq<NativeCall<Seq<char>>> {
    let submit = NativeCall::SubmitRequest { scheduler: scheduler_of(device), request };
    let reply = (device.reply)(submit);
    if reply->submitted || reply->error == 0 {
        seq![submit, NativeCall::Release { object: request }]
    } else {
        seq![
            submit,
            NativeCall::Release { object: request },
            NativeCall::ErrorDescription { error: reply->error },
        ]
    }
}

/// The calls that create a request and submit it, once the launch handler is registered.
pub open spec fn late_calls(device: Device, texts: RequestTextsView) -> Seq<
    NativeCall<Seq<char>>,
> {
    let class = device.class(NativeClass::ContinuedProcessingTaskRequest);
    let query = NativeCall::ObjectResponds {
        object: scheduler_of(device),
        selector: NativeSelector::SubmitTaskRequest,
    };
    if !device.responds(scheduler_of(device), NativeSelector::SubmitTaskRequest) {
        seq![query]
    } else {
        seq![query] + creation_calls(request_creation(class), texts, device) + match request_on(
            device,
            class,
            texts,
        ) {
            Ok(request) => submission_calls(device, request),
            Err(_) => Seq::empty(),
        }
    }
}

/// The calls that attempt to request a continued-processing task. Nothing but the version is
/// asked for where the system does not offer continued processing or the build does not use
/// it.
pub open spec fn attempt_calls_on(
    device: Device,
    texts: RequestTextsView,
    enabled: bool,
    registered: bool,
) -> Seq<NativeCall<Seq<char>>> {
    let lookup = NativeCall::LookupClass { class: NativeClass::ContinuedProcessingTaskRequest };
    let scheduler = scheduler_of(device);
    version_calls(device) + if !(version_of(device) is Some && offers_continued_processing(
        version_of(device)->0,
    ) && enabled) {
        Seq::empty()
    } else if device.class(NativeClass::ContinuedProcessingTaskRequest) == 0 {
        seq![lookup]
    } else if device.class(NativeClass::TaskScheduler) == 0 {
        seq![lookup] + scheduler_calls(device)
    } else {
        seq![lookup] + scheduler_calls(device) + registration_calls(device, registered, scheduler)
            + if registration_on(device, registered, scheduler) is Ok {
            late_calls(device, texts)
        } else {
            Seq::empty()
        }
    }
}

/// The calls that attempt to begin a finite background task.
pub open spec fn finite_calls_on(device: Device, title: Seq<char>) -> Seq<NativeCall<Seq<char>>> {
    let class = device.class(NativeClass::Application);
    let lookup = NativeCall::LookupClass { class: NativeClass::Application };
    match application_of(device) {
        Err(ApplicationError::ClassUnavailable) => seq![lookup],
        Err(ApplicationError::InstanceUnavailable) => seq![
            lookup,
            NativeCall::SharedApplication { class },
        ],
        Ok(application) => seq![
            lookup,
            NativeCall::SharedApplication { class },
            begin_task_call(application, title),
        ],
    }
}

/// The calls that an attempt to request a continued-processing task makes from a point on.
pub open spec fn attempt_calls<H>(
    attempt: ContinuedAttempt<H>,
    texts: RequestTextsView,
    registry: RegistryView<H>,
    next: Next<Seq<char>, ContinuedOutcome<Seq<char>>>,
    device: Device,
) -> Seq<NativeCall<Seq<char>>>
    decreases attempt_calls_left(attempt.step),
{
    match next {
        Next::Done(_) => Seq::empty(),
        Next::Call(call) => if attempt.step is Over {
            arbitrary()
        } else {
            let (attempt, registry, next) = attempt.after(texts, registry, (device.reply)(call));
            seq![call] + attempt_calls(attempt, texts, registry, next, device)
        },
    }
}

/// The calls that a beginning makes from a point on.
pub open spec fn begin_calls<H: ?Sized>(
    run: BeginRunView<H>,
    registry: RegistryView<Arc<H>>,
    next: Next<Seq<char>, StartView>,
    at_first: Device,
    device: Device,
) -> Seq<NativeCall<Seq<char>>>
    decreases begin_calls_left(run.step),
{
    match next {
        Next::Done(_) => Seq::empty(),
        Next::Call(call) => if is_over(run.step) {
            arbitrary()
        } else {
            let asked = if run.step is SystemVersion {
                at_first
            } else {
                device
            };
            let (run, registry, next) = run.after(registry, (asked.reply)(call));
            seq![call] + begin_calls(run, registry, next, at_first, device)
        },
    }
}

proof fn lemma_calls_submitting<H>(
    attempt: ContinuedAttempt<H>,
    texts: RequestTextsView,
    registry: RegistryView<H>,
    request: usize,
    device: Device,
)
    requires
        device.well_behaved(),
        attempt.step == (ContinuedStep::Submitting { request }),
    ensures
        attempt_calls(
            attempt,
            texts,
            registry,
            Next::Call(NativeCall::SubmitRequest { scheduler: scheduler_of(device), request }),
            device,
        ) == submission_calls(device, request),
{
    reveal_with_fuel(attempt_calls, 5);
    let next = Next::Call(NativeCall::SubmitRequest { scheduler: scheduler_of(device), request });
    assert(attempt_calls(attempt, texts, registry, next, device) =~= submission_calls(
        device,
        request,
    ));
}

proof fn lemma_calls_creating<H>(
    attempt: ContinuedAttempt<H>,
    texts: RequestTextsView,
    registry: RegistryView<H>,
    phase: Phase<RequestCreation, Seq<char>, Result<usize, RequestError>>,
    device: Device,
)
    requires
        device.well_behaved(),
    ensures
        ({
            let scheduler = scheduler_of(device);
            let (begun, registry1, next) = attempt.after_creation(
                registry,
                texts.identifier,
                scheduler,
                phase,
            );
            attempt_calls(begun, texts, registry1, next, device) == creation_calls(
                phase,
                texts,
                device,
            ) + match run_creation(phase, texts, device) {
                Ok(request) => submission_calls(device, request),
                Err(_) => Seq::empty(),
            }
        }),
    decreases
            (match phase {
                Phase::Ask(creation, _) => creation_calls_left(creation),
                Phase::Done(_) => 0,
            }),
{
    let scheduler = scheduler_of(device);
    let (begun, registry1, next) = attempt.after_creation(
        registry,
        texts.identifier,
        scheduler,
        phase,
    );
    let calls = attempt_calls(begun, texts, registry1, next, device);
    match phase {
        Phase::Ask(creation, call) => {
            let creating = ContinuedAttempt {
                step: ContinuedStep::Creating { scheduler, creation },
                ..attempt
            };
            let later = creation.after(texts, (device.reply)(call));
            lemma_calls_creating(creating, texts, registry, later, device);
            assert(calls =~= creation_calls(phase, texts, device)
                + match run_creation(phase, texts, device) {
                Ok(request) => submission_calls(device, request),
                Err(_) => Seq::empty(),
            });
        },
        Phase::Done(Err(_)) => {
            assert(calls =~= Seq::empty());
        },
        Phase::Done(Ok(request)) => {
            lemma_calls_submitting(begun, texts, registry, request, device);
            assert(calls =~= creation_calls(phase, texts, device) + submission_calls(
                device,
                request,
            ));
        },
    }
}

proof fn lemma_calls_querying<H>(
    attempt: ContinuedAttempt<H>,
    texts: RequestTextsView,
    registry: RegistryView<H>,
    device: Device,
)
    requires
        device.well_behaved(),
        attempt.step == (ContinuedStep::SubmitQuery {
            request_class: device.class(NativeClass::ContinuedProcessingTaskRequest),
            scheduler: scheduler_of(device),
        }),
    ensures
        attempt_calls(
            attempt,
            texts,
            registry,
            Next::Call(
                NativeCall::ObjectResponds {
                    object: scheduler_of(device),
                    selector: NativeSelector::SubmitTaskRequest,
                },
            ),
            device,
        ) == late_calls(device, texts),
{
    let class = device.class(NativeClass::ContinuedProcessingTaskRequest);
    let next = Next::Call(
        NativeCall::ObjectResponds {
            object: scheduler_of(device),
            selector: NativeSelector::SubmitTaskRequest,
        },
    );
    lemma_calls_creating(attempt, texts, registry, request_creation(class), device);
    law_request_creation(class, texts, device);
    reveal_with_fuel(attempt_calls, 2);
    assert(attempt_calls(attempt, texts, registry, next, device) =~= late_calls(device, texts));
}

proof fn lemma_calls_registering<H>(
    attempt: ContinuedAttempt<H>,
    texts: RequestTextsView,
    registry: RegistryView<H>,
    registered: bool,
    device: Device,
)
    requires
        device.well_behaved(),
        attempt.handler is Some,
    ensures
        ({
            let scheduler = scheduler_of(device);
            let (begun, registry1, next) = attempt.after_registration(
                registry,
                texts.identifier,
                device.class(NativeClass::ContinuedProcessingTaskRequest),
                scheduler,
                registration(registered, scheduler),
            );
            attempt_calls(begun, texts, registry1, next, device) == registration_calls(
                device,
                registered,
                scheduler,
            ) + if registration_on(device, registered, scheduler) is Ok {
                late_calls(device, texts)
            } else {
                Seq::empty()
            }
        }),
{
    let request_class = device.class(NativeClass::ContinuedProcessingTaskRequest);
    let scheduler = scheduler_of(device);
    let querying = ContinuedAttempt {
        handler: None,
        step: ContinuedStep::SubmitQuery { request_class, scheduler },
        ..attempt
    };
    let inserted = RegistryView {
        handlers: registry.handlers.insert(texts.identifier, attempt.handler->0),
        registered: true,
        ..registry
    };
    lemma_calls_querying(querying, texts, inserted, device);
    let (begun, registry1, next) = attempt.after_registration(
        registry,
        texts.identifier,
        request_class,
        scheduler,
        registration(registered, scheduler),
    );
    reveal_with_fuel(attempt_calls, 3);
    assert(attempt_calls(begun, texts, registry1, next, device) =~= registration_calls(
        device,
        registered,
        scheduler,
    ) + if registration_on(device, registered, scheduler) is Ok {
        late_calls(device, texts)
    } else {
        Seq::empty()
    });
}

/// The attempt to request a continued-processing task makes these calls and no others.
pub proof fn law_continued_attempt_calls<H>(
    texts: RequestTextsView,
    registry: RegistryView<H>,
    handler: H,
    enabled: bool,
    device: Device,
)
    requires
        device.well_behaved(),
    ensures
        attempt_calls(
            continued_attempt(enabled, handler),
            texts,
            registry,
            Next::Call(NativeCall::LookupClass { class: NativeClass::ProcessInfo }),
            device,
        ) == attempt_calls_on(device, texts, enabled, registry.registered),
{
    let attempt = continued_attempt(enabled, handler);
    let next = Next::Call(NativeCall::LookupClass { class: NativeClass::ProcessInfo });
    let request_class = device.class(NativeClass::ContinuedProcessingTaskRequest);
    let asking = ContinuedAttempt { step: ContinuedStep::Scheduler { request_class }, ..attempt };
    lemma_calls_registering(asking, texts, registry, registry.registered, device);
    reveal_with_fuel(attempt_calls, 6);
    assert(attempt_calls(attempt, texts, registry, next, device) =~= attempt_calls_on(
        device,
        texts,
        enabled,
        registry.registered,
    ));
}

proof fn lemma_calls_finite<H: ?Sized>(
    run: BeginRunView<H>,
    registry: RegistryView<Arc<H>>,
    fallback_reason: Option<Seq<char>>,
    at_first: Device,
    device: Device,
)
    requires
        device.well_behaved(),
        run.step == (BeginStep::Finite {
            attempt: finite_attempt(
                run.texts.title,
                run.on_expiration,
                run.system_version,
                fallback_reason,
            ),
        }),
    ensures
        begin_calls(
            run,
            registry,
            Next::Call(NativeCall::LookupClass { class: NativeClass::Application }),
            at_first,
            device,
        ) == finite_calls_on(device, run.texts.title),
{
    reveal_with_fuel(begin_calls, 5);
    let next = Next::Call(NativeCall::LookupClass { class: NativeClass::Application });
    assert(begin_calls(run, registry, next, at_first, device) =~= finite_calls_on(
        device,
        run.texts.title,
    ));
}

proof fn lemma_calls_continued<H: ?Sized>(
    run: BeginRunView<H>,
    registry: RegistryView<Arc<H>>,
    attempt: ContinuedAttempt<Arc<H>>,
    next: Next<Seq<char>, ContinuedOutcome<Seq<char>>>,
    at_first: Device,
    device: Device,
)
    requires
        device.well_behaved(),
        next is Call ==> !(attempt.step is Over),
    ensures
        ({
            let (begun, begun_next) = run.after_continued(attempt, next);
            begin_calls(begun, registry, begun_next, at_first, device) == attempt_calls(
                attempt,
                run.texts,
                registry,
                next,
                device,
            ) + if run_attempt(attempt, run.texts, registry, next, device).0 is Err {
                finite_calls_on(device, run.texts.title)
            } else {
                Seq::empty()
            }
        }),
    decreases attempt_calls_left(attempt.step),
{
    let (begun, begun_next) = run.after_continued(attempt, next);
    match next {
        Next::Call(call) => {
            let (attempt1, registry1, next1) = attempt.after(
                run.texts,
                registry,
                (device.reply)(call),
            );
            let resting = run.at(BeginStep::Over);
            lemma_calls_continued(resting, registry1, attempt1, next1, at_first, device);
        },
        Next::Done(Ok(())) => {},
        Next::Done(Err(refusal)) => {
            let fallback_reason = Some(refusal_text(refusal));
            lemma_calls_finite(begun, registry, fallback_reason, at_first, device);
        },
    }
    assert(begin_calls(begun, registry, begun_next, at_first, device) =~= attempt_calls(
        attempt,
        run.texts,
        registry,
        next,
        device,
    ) + if run_attempt(attempt, run.texts, registry, next, device).0 is Err {
        finite_calls_on(device, run.texts.title)
    } else {
        Seq::empty()
    });
}

/// The beginning of an activity makes these calls and no others, in this order: the question
/// for the version that is reported, the attempt to request a continued-processing task, and
/// where none was requested the attempt to begin a finite background task.
pub proof fn law_beginning_calls<H: ?Sized>(
    texts: RequestTextsView,
    registry: RegistryView<Arc<H>>,
    on_expiration: Arc<H>,
    enabled: bool,
    at_first: Device,
    device: Device,
)
    requires
        at_first.well_behaved(),
        device.well_behaved(),
    ensures
        begin_calls(
            begin_run(texts, on_expiration, enabled),
            registry,
            Next::Call(NativeCall::LookupClass { class: NativeClass::ProcessInfo }),
            at_first,
            device,
        ) == version_calls(at_first) + attempt_calls_on(
            device,
            texts,
            enabled,
            registry.registered,
        ) + if continued_outcome_on(device, texts, enabled, registry.registered) is Err {
            finite_calls_on(device, texts.title)
        } else {
            Seq::empty()
        },
{
    let run = begin_run(texts, on_expiration, enabled);
    let attempt = continued_attempt(enabled, on_expiration);
    let first = Next::Call(NativeCall::LookupClass { class: NativeClass::ProcessInfo });
    let asked = BeginRunView {
        system_version: system_version_text(version_of(at_first)),
        ..run
    };
    law_continued_attempt(texts, registry, on_expiration, enabled, device);
    law_continued_attempt_calls(texts, registry, on_expiration, enabled, device);
    lemma_calls_continued(
        asked,
        registry,
        attempt,
        Next::Call(NativeCall::LookupClass { class: NativeClass::ProcessInfo }),
        at_first,
        device,
    );
    reveal_with_fuel(begin_calls, 3);
    assert(begin_calls(run, registry, first, at_first, device) =~= version_calls(at_first)
        + attempt_calls_on(device, texts, enabled, registry.registered)
        + if continued_outcome_on(device, texts, enabled, registry.registered) is Err {
        finite_calls_on(device, texts.title)
    } else {
        Seq::empty()
    });
}

/// The calls that the preparation makes from a point on.
pub open spec fn prepare_calls(
    preparation: Preparation,
    registered: bool,
    next: Next<Seq<char>, Result<(), Seq<char>>>,
    device: Device,
) -> Seq<NativeCall<Seq<char>>>
    decreases prepare_calls_left(preparation.step),
{
    match next {
        Next::Done(_) => Seq::empty(),
        Next::Call(call) => if preparation.step is Over {
            arbitrary()
        } else {
            let (preparation, registered, next) = preparation.after(
                registered,
                (device.reply)(call),
            );
            seq![call] + prepare_calls(preparation, registered, next, device)
        },
    }
}

/// The preparation at app start makes these calls and no others. Nothing but the version is
/// asked for where the system does not offer continued processing or the build does not use
/// it.
pub proof fn law_preparation_calls_on_a_device(enabled: bool, registered: bool, device: Device)
    requires
        device.well_behaved(),
    ensures
        prepare_calls(
            Preparation { enabled, step: PrepareStep::Version(VersionQuery::Class) },
            registered,
            Next::Call(NativeCall::LookupClass { class: NativeClass::ProcessInfo }),
            device,
        ) == version_calls(device) + if !(version_of(device) is Some
            && offers_continued_processing(version_of(device)->0) && enabled) {
            Seq::empty()
        } else if device.class(NativeClass::TaskScheduler) == 0 {
            scheduler_calls(device)
        } else {
            scheduler_calls(device) + registration_calls(device, registered, scheduler_of(device))
        },
{
    reveal_with_fuel(prepare_calls, 8);
    let preparation = Preparation { enabled, step: PrepareStep::Version(VersionQuery::Class) };
    let first = Next::Call(NativeCall::LookupClass { class: NativeClass::ProcessInfo });
    assert(prepare_calls(preparation, registered, first, device) =~= version_calls(device)
        + if !(version_of(device) is Some && offers_continued_processing(version_of(device)->0)
        && enabled) {
        Seq::empty()
    } else if device.class(NativeClass::TaskScheduler) == 0 {
        scheduler_calls(device)
    } else {
        scheduler_calls(device) + registration_calls(device, registered, scheduler_of(device))
    });
}

} // verus!
