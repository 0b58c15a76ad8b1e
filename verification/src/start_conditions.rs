//! When the beginning of an activity and the preparation at app start come to what, told by
//! the replies of the device alone.

use std::sync::Arc;

use vstd::prelude::*;

use crate::activity::{ActivityView, StartReportView};
use crate::begin::{begin_run, start_next, start_view, BeginRun, Start, StartView};
use crate::continued::{
    continued_attempt, continued_next, refusal_text, ContinuedAttempt, ContinuedOutcome,
    ContinuedStep, Refusal,
};
use crate::finish::{FinishRunView, FinishStep};
use crate::finite::{ExpirationBlock, FiniteAttempt};
use crate::native::{Device, NativeCall, NativeClass, NativeReply, NativeSelector, Next};
use crate::prepare::{prepare_next, PrepareStep, Preparation};
use crate::queries::VersionQuery;
use crate::registration::RegistrationError;
use crate::registry::RegistryView;
use crate::request::{RequestError, RequestTexts, RequestTextsView};
use crate::start_outcome::{
    law_beginning, law_continued_attempt, law_preparation, run_attempt, run_begin, run_prepare,
};
use crate::task_outcome::{law_finish_in_full, run_finish};
use crate::version::{system_version_text, OperatingSystemVersion};

verus! {

/// The attempt to request a continued-processing task goes through these conditions in this
/// order, and is refused for the first that does not hold: the system tells its version; its
/// major version is at least 26; the build uses continued processing; the classes of requests
/// and of the scheduler are there; the launch handler is registered or the scheduler lets it
/// be registered for the pattern of all identifiers and accepts it; requests can be
/// submitted; one can be created, by the initializer that takes all texts if there is one,
/// else by the one that takes the identifier; and the scheduler accepts it.
pub proof fn law_conditions_of_a_continued_task<H>(
    texts: RequestTextsView,
    registry: RegistryView<H>,
    handler: H,
    enabled: bool,
    device: Device,
)
    requires
        device.well_behaved(),
    ensures
        ({
            let outcome = run_attempt(
                continued_attempt(enabled, handler),
                texts,
                registry,
                Next::Call(NativeCall::LookupClass { class: NativeClass::ProcessInfo }),
                device,
            ).0;
            let process_info_class = device.class(NativeClass::ProcessInfo);
            let version = (device.reply)(
                NativeCall::OperatingSystemVersion { process_info_class },
            )->Version_0;
            let request_class = device.class(NativeClass::ContinuedProcessingTaskRequest);
            let scheduler_class = device.class(NativeClass::TaskScheduler);
            let scheduler = device.object(NativeCall::SharedScheduler { class: scheduler_class });
            let registers = NativeCall::RegisterLaunchHandler {
                scheduler,
                pattern: "com.tauritavern.client.agent.continued.*"@,
            };
            let takes_all = device.instances_respond(
                request_class,
                NativeSelector::InitWithIdentifierTitleSubtitle,
            );
            let takes_identifier = device.instances_respond(
                request_class,
                NativeSelector::InitWithIdentifier,
            );
            let allocated = device.object(NativeCall::AllocateRequest { class: request_class });
            let request = device.object(
                if takes_all {
                    NativeCall::InitializeTitledRequest {
                        allocated,
                        identifier: texts.identifier,
                        title: texts.title,
                        subtitle: texts.subtitle,
                    }
                } else {
                    NativeCall::InitializeRequest { allocated, identifier: texts.identifier }
                },
            );
            let submission = (device.reply)(NativeCall::SubmitRequest { scheduler, request });
            let description = (device.reply)(
                NativeCall::ErrorDescription { error: submission->error },
            )->Text_0;
            outcome == if process_info_class == 0 {
                Err(Refusal::VersionUnavailable)
            } else if version.major_version < 26 {
                Err(Refusal::UnsupportedVersion(version))
            } else if !enabled {
                Err(Refusal::Disabled)
            } else if request_class == 0 {
                Err(Refusal::RequestClassUnavailable)
            } else if scheduler_class == 0 {
                Err(Refusal::SchedulerClassUnavailable)
            } else if !registry.registered && !device.responds(
                scheduler,
                NativeSelector::RegisterForTask,
            ) {
                Err(Refusal::Registration(RegistrationError::Unavailable))
            } else if !registry.registered && !device.flag(registers) {
                Err(Refusal::Registration(RegistrationError::Rejected))
            } else if !device.responds(scheduler, NativeSelector::SubmitTaskRequest) {
                Err(Refusal::SubmissionUnavailable)
            } else if !takes_all && !takes_identifier {
                Err(Refusal::Request(RequestError::NoInitializer))
            } else if allocated == 0 {
                Err(Refusal::Request(RequestError::AllocationFailed))
            } else if request == 0 && takes_all {
                Err(Refusal::Request(RequestError::TitledInitializerFailed))
            } else if request == 0 {
                Err(Refusal::Request(RequestError::IdentifierInitializerFailed))
            } else if submission->submitted {
                Ok::<(), Refusal<Seq<char>>>(())
            } else if submission->error == 0 || description is None {
                Err(Refusal::SubmissionFailed("unknown error"@))
            } else {
                Err(Refusal::SubmissionFailed(description->0))
            }
        }),
{
    law_continued_attempt(texts, registry, handler, enabled, device);
}

/// On every version of iOS whose major version is at least 26, a build that uses continued
/// processing gets a continued-processing task if the device has the classes and selectors,
/// registers the handler, creates the request and accepts it. An attempt is refused as made
/// on an unsupported version exactly if a version is told whose major version is less than
/// 26.
pub proof fn law_every_new_version_gets_a_continued_task<H>(
    texts: RequestTextsView,
    registry: RegistryView<H>,
    handler: H,
    enabled: bool,
    version: OperatingSystemVersion,
    device: Device,
)
    requires
        device.well_behaved(),
        device.class(NativeClass::ProcessInfo) != 0,
        (device.reply)(
            NativeCall::OperatingSystemVersion {
                process_info_class: device.class(NativeClass::ProcessInfo),
            },
        ) == NativeReply::<Seq<char>>::Version(version),
    ensures
        ({
            let outcome = run_attempt(
                continued_attempt(enabled, handler),
                texts,
                registry,
                Next::Call(NativeCall::LookupClass { class: NativeClass::ProcessInfo }),
                device,
            ).0;
            let request_class = device.class(NativeClass::ContinuedProcessingTaskRequest);
            let scheduler_class = device.class(NativeClass::TaskScheduler);
            let scheduler = device.object(NativeCall::SharedScheduler { class: scheduler_class });
            let allocated = device.object(NativeCall::AllocateRequest { class: request_class });
            let request = device.object(
                NativeCall::InitializeTitledRequest {
                    allocated,
                    identifier: texts.identifier,
                    title: texts.title,
                    subtitle: texts.subtitle,
                },
            );
            &&& version.major_version >= 26 && enabled && request_class != 0 && scheduler_class != 0
                && device.responds(scheduler, NativeSelector::RegisterForTask) && device.flag(
                NativeCall::RegisterLaunchHandler {
                    scheduler,
                    pattern: "com.tauritavern.client.agent.continued.*"@,
                },
            ) && device.responds(scheduler, NativeSelector::SubmitTaskRequest)
                && device.instances_respond(
                request_class,
                NativeSelector::InitWithIdentifierTitleSubtitle,
            ) && allocated != 0 && request != 0 && (device.reply)(
                NativeCall::SubmitRequest { scheduler, request },
            )->submitted ==> outcome is Ok
            &&& (exists|told: OperatingSystemVersion|
                outcome == Err::<(), Refusal<Seq<char>>>(Refusal::UnsupportedVersion(told)))
                <==> version.major_version < 26
            &&& version.major_version < 26 ==> outcome == Err::<(), Refusal<Seq<char>>>(
                Refusal::UnsupportedVersion(version),
            )
        }),
{
    law_conditions_of_a_continued_task(texts, registry, handler, enabled, device);
}

/// A step of an attempt that is told the version refuses it as unsupported exactly if its
/// major version is less than 26, and goes on to ask for the class of requests exactly if it
/// is at least 26 and the build uses continued processing.
pub proof fn law_version_decides<H>(
    texts: RequestTextsView,
    registry: RegistryView<H>,
    handler: H,
    enabled: bool,
    version: OperatingSystemVersion,
)
    ensures
        ({
            let attempt = ContinuedAttempt {
                step: ContinuedStep::Version(VersionQuery::Version),
                ..continued_attempt(enabled, handler)
            };
            let (_, after, next) = attempt.after(texts, registry, NativeReply::Version(version));
            &&& after == registry
            &&& next == Next::<Seq<char>, ContinuedOutcome<Seq<char>>>::Done(
                Err(Refusal::UnsupportedVersion(version)),
            ) <==> version.major_version < 26
            &&& next == Next::<Seq<char>, ContinuedOutcome<Seq<char>>>::Call(
                NativeCall::LookupClass { class: NativeClass::ContinuedProcessingTaskRequest },
            ) <==> version.major_version >= 26 && enabled
        }),
{
}

/// The registry after the attempt: once the launch handler is registered it is known to be
/// so; the handler of the run stands under its identifier exactly if a task was requested,
/// and an attempt that came past the registration and failed leaves none there; launched
/// tasks and the handlers of other identifiers stay.
pub proof fn law_registry_after_an_attempt<H>(
    texts: RequestTextsView,
    registry: RegistryView<H>,
    handler: H,
    enabled: bool,
    device: Device,
    other: Seq<char>,
)
    requires
        device.well_behaved(),
    ensures
        ({
            let (outcome, after) = run_attempt(
                continued_attempt(enabled, handler),
                texts,
                registry,
                Next::Call(NativeCall::LookupClass { class: NativeClass::ProcessInfo }),
                device,
            );
            let came_past_registration = match outcome {
                Ok(()) => true,
                Err(refusal) => refusal is SubmissionUnavailable || refusal is Request || refusal
                    is SubmissionFailed,
            };
            &&& after.tasks == registry.tasks
            &&& after.registered == (registry.registered || came_past_registration)
            &&& outcome is Ok ==> after.handlers.contains_key(texts.identifier)
                && after.handlers[texts.identifier] == handler
            &&& outcome is Err && came_past_registration ==> !after.handlers.contains_key(
                texts.identifier,
            )
            &&& !came_past_registration ==> after.handlers == registry.handlers
            &&& other != texts.identifier ==> after.handlers.contains_key(other)
                == registry.handlers.contains_key(other)
            &&& other != texts.identifier && registry.handlers.contains_key(other)
                ==> after.handlers[other] == registry.handlers[other]
        }),
{
    law_continued_attempt(texts, registry, handler, enabled, device);
}

/// Every refusal is told by its own text.
pub proof fn law_text_of_a_refusal(refusal: Refusal<Seq<char>>)
    ensures
        match refusal {
            Refusal::VersionUnavailable => refusal_text(refusal)
                == "NSProcessInfo operatingSystemVersion is unavailable"@,
            Refusal::UnsupportedVersion(version) => refusal_text(refusal) == "iOS "@
                + system_version_text(Some(version))
                + " does not support BGContinuedProcessingTask"@,
            Refusal::Disabled => refusal_text(refusal)
                == "ios-bg-continued-processing is disabled in this build"@,
            Refusal::RequestClassUnavailable => refusal_text(refusal)
                == "BGContinuedProcessingTaskRequest class is unavailable"@,
            Refusal::SchedulerClassUnavailable => refusal_text(refusal)
                == "BGTaskScheduler class is unavailable"@,
            Refusal::Registration(RegistrationError::Unavailable) => refusal_text(refusal)
                == "BGTaskScheduler registerForTaskWithIdentifier:usingQueue:launchHandler: is unavailable"@,
            Refusal::Registration(RegistrationError::Rejected) => refusal_text(refusal)
                == "BGTaskScheduler registration failed for "@
                + "com.tauritavern.client.agent.continued.*"@,
            Refusal::SubmissionUnavailable => refusal_text(refusal)
                == "BGTaskScheduler submitTaskRequest:error: is unavailable"@,
            Refusal::Request(RequestError::AllocationFailed) => refusal_text(refusal)
                == "BGContinuedProcessingTaskRequest alloc returned null"@,
            Refusal::Request(RequestError::TitledInitializerFailed) => refusal_text(refusal)
                == "BGContinuedProcessingTaskRequest title initializer returned null"@,
            Refusal::Request(RequestError::IdentifierInitializerFailed) => refusal_text(refusal)
                == "BGContinuedProcessingTaskRequest identifier initializer returned null"@,
            Refusal::Request(RequestError::NoInitializer) => refusal_text(refusal)
                == "BGContinuedProcessingTaskRequest has no supported initializer"@,
            Refusal::SubmissionFailed(description) => refusal_text(refusal)
                == "BGContinuedProcessingTaskRequest submission failed: "@ + description,
        },
{
}

/// The start that a beginning comes to. Where the attempt comes to a continued-processing
/// task, the activity and the report name its identifier. Where it is refused, the number
/// that the system gives for a finite background task with the title of the run is held, and
/// the report gives the refusal as the reason; the start fails exactly if there is no
/// application or the number is -1. The report always gives the version that was told at
/// first.
pub proof fn law_start_in_full<H: ?Sized>(
    texts: RequestTextsView,
    registry: RegistryView<Arc<H>>,
    on_expiration: Arc<H>,
    enabled: bool,
    at_first: Device,
    device: Device,
)
    requires
        at_first.well_behaved(),
        device.well_behaved(),
    ensures
        ({
            let (start, after) = run_begin(
                begin_run(texts, on_expiration, enabled),
                registry,
                Next::Call(NativeCall::LookupClass { class: NativeClass::ProcessInfo }),
                at_first,
                device,
            );
            let (outcome, after_attempt) = run_attempt(
                continued_attempt(enabled, on_expiration),
                texts,
                registry,
                Next::Call(NativeCall::LookupClass { class: NativeClass::ProcessInfo }),
                device,
            );
            let process_info_class = at_first.class(NativeClass::ProcessInfo);
            let system_version = system_version_text(
                if process_info_class == 0 {
                    None
                } else {
                    Some(
                        (at_first.reply)(
                            NativeCall::OperatingSystemVersion { process_info_class },
                        )->Version_0,
                    )
                },
            );
            let class = device.class(NativeClass::Application);
            let application = device.object(NativeCall::SharedApplication { class });
            let task = (device.reply)(
                NativeCall::BeginBackgroundTask {
                    application,
                    name: texts.title,
                    expiration_mode: "finite_background_task"@,
                    expiration_identifier: None,
                },
            )->Task_0;
            &&& after == after_attempt
            &&& start == match outcome {
                Ok(()) => Ok(
                    (
                        ActivityView {
                            mode: "continued_processing"@,
                            continued_identifier: Some(texts.identifier),
                            finite_background_task: None,
                            finished: false,
                        },
                        StartReportView {
                            mode: "continued_processing"@,
                            identifier: Some(texts.identifier),
                            system_version,
                            continued_processing_available: true,
                            fallback_reason: None,
                        },
                    ),
                ),
                Err(refusal) => if class == 0 {
                    Err("UIApplication class is unavailable"@)
                } else if application == 0 {
                    Err("UIApplication.sharedApplication returned null"@)
                } else if task == -1 {
                    Err("UIApplication.beginBackgroundTask returned invalid identifier"@)
                } else {
                    Ok(
                        (
                            ActivityView {
                                mode: "finite_background_task"@,
                                continued_identifier: None,
                                finite_background_task: Some(task),
                                finished: false,
                            },
                            StartReportView {
                                mode: "finite_background_task"@,
                                identifier: None,
                                system_version,
                                continued_processing_available: false,
                                fallback_reason: Some(refusal_text(refusal)),
                            },
                        ),
                    )
                },
            }
        }),
{
    law_beginning(texts, registry, on_expiration, enabled, at_first, device);
    law_continued_attempt(texts, registry, on_expiration, enabled, device);
}

/// The preparation at app start, told by the replies of the device alone: it fails without a
/// version, has nothing to do before iOS 26 or in a build that does not use continued
/// processing, and otherwise registers the launch handler for the pattern of all identifiers
/// unless it is registered, or fails with the reason.
pub proof fn law_preparation_in_full(enabled: bool, registered: bool, device: Device)
    requires
        device.well_behaved(),
    ensures
        ({
            let process_info_class = device.class(NativeClass::ProcessInfo);
            let version = (device.reply)(
                NativeCall::OperatingSystemVersion { process_info_class },
            )->Version_0;
            let class = device.class(NativeClass::TaskScheduler);
            let scheduler = device.object(NativeCall::SharedScheduler { class });
            let registers = NativeCall::RegisterLaunchHandler {
                scheduler,
                pattern: "com.tauritavern.client.agent.continued.*"@,
            };
            run_prepare(
                Preparation { enabled, step: PrepareStep::Version(VersionQuery::Class) },
                registered,
                Next::Call(NativeCall::LookupClass { class: NativeClass::ProcessInfo }),
                device,
            ) == if process_info_class == 0 {
                (Err("NSProcessInfo operatingSystemVersion is unavailable"@), registered)
            } else if version.major_version < 26 || !enabled {
                (Ok::<(), Seq<char>>(()), registered)
            } else if class == 0 {
                (Err("BGTaskScheduler class is unavailable"@), registered)
            } else if registered {
                (Ok(()), true)
            } else if !device.responds(scheduler, NativeSelector::RegisterForTask) {
                (
                    Err(
                        "BGTaskScheduler registerForTaskWithIdentifier:usingQueue:launchHandler: is unavailable"@,
                    ),
                    false,
                )
            } else if !device.flag(registers) {
                (
                    Err(
                        "BGTaskScheduler registration failed for "@
                            + "com.tauritavern.client.agent.continued.*"@,
                    ),
                    false,
                )
            } else {
                (Ok(()), true)
            }
        }),
{
    law_preparation(enabled, registered, device);
}

/// Every finite background task that a beginning has begun is ended by finishing the
/// activity: the activity that came of the beginning hands on a request from which, on a
/// device with an application, the task with the number that the system gave is ended, as
/// the last call and once. The registry stays as it is.
pub proof fn law_begun_finite_task_is_ended<H: ?Sized>(
    texts: RequestTextsView,
    registry: RegistryView<Arc<H>>,
    on_expiration: Arc<H>,
    enabled: bool,
    at_first: Device,
    device: Device,
    activity: ActivityView,
    report: StartReportView,
    success: bool,
    registry_at_end: RegistryView<Arc<H>>,
    at_end: Device,
)
    requires
        at_first.well_behaved(),
        device.well_behaved(),
        at_end.well_behaved(),
        run_begin(
            begin_run(texts, on_expiration, enabled),
            registry,
            Next::Call(NativeCall::LookupClass { class: NativeClass::ProcessInfo }),
            at_first,
            device,
        ).0 == Ok::<(ActivityView, StartReportView), Seq<char>>((activity, report)),
        activity.mode == "finite_background_task"@,
        at_end.class(NativeClass::Application) != 0,
        at_end.object(
            NativeCall::SharedApplication { class: at_end.class(NativeClass::Application) },
        ) != 0,
    ensures
        ({
            let began_on = device.object(
                NativeCall::SharedApplication { class: device.class(NativeClass::Application) },
            );
            let number = (device.reply)(
                NativeCall::BeginBackgroundTask {
                    application: began_on,
                    name: texts.title,
                    expiration_mode: "finite_background_task"@,
                    expiration_identifier: None,
                },
            )->Task_0;
            let application = at_end.object(
                NativeCall::SharedApplication { class: at_end.class(NativeClass::Application) },
            );
            let request = activity.finish_request(success);
            let (run, begun, next) = (FinishRunView {
                request: request->0,
                step: FinishStep::Over,
            }).begins(registry_at_end);
            let (calls, after) = run_finish(run, begun, next, at_end);
            &&& request is Some
            &&& after == registry_at_end
            &&& calls.len() > 0
            &&& calls.last() == (NativeCall::<Seq<char>>::EndBackgroundTask {
                application,
                task: number,
            })
            &&& forall|i: int|
                0 <= i < calls.len() - 1 ==> !(#[trigger] calls[i] is EndBackgroundTask)
        }),
{
    reveal_strlit("continued_processing");
    reveal_strlit("finite_background_task");
    assert("continued_processing"@.len() != "finite_background_task"@.len());
    law_start_in_full(texts, registry, on_expiration, enabled, at_first, device);
    let request = activity.finish_request(success)->0;
    law_finish_in_full(request, registry_at_end, at_end);
}

/// A run that began with a continued-processing task ends it by finishing the activity: a
/// task that was launched under the identifier is completed with the success of the run and
/// then released, nothing else is called, and neither the task nor the handler is left.
pub proof fn law_begun_continued_task_is_completed<H: ?Sized>(
    texts: RequestTextsView,
    registry: RegistryView<Arc<H>>,
    on_expiration: Arc<H>,
    enabled: bool,
    at_first: Device,
    device: Device,
    activity: ActivityView,
    report: StartReportView,
    success: bool,
    registry_at_end: RegistryView<Arc<H>>,
    at_end: Device,
)
    requires
        at_first.well_behaved(),
        device.well_behaved(),
        at_end.well_behaved(),
        run_begin(
            begin_run(texts, on_expiration, enabled),
            registry,
            Next::Call(NativeCall::LookupClass { class: NativeClass::ProcessInfo }),
            at_first,
            device,
        ).0 == Ok::<(ActivityView, StartReportView), Seq<char>>((activity, report)),
        activity.mode == "continued_processing"@,
    ensures
        ({
            let request = activity.finish_request(success);
            let (run, begun, next) = (FinishRunView {
                request: request->0,
                step: FinishStep::Over,
            }).begins(registry_at_end);
            let (calls, after) = run_finish(run, begun, next, at_end);
            let task = registry_at_end.tasks[texts.identifier];
            &&& request is Some
            &&& after.registered == registry_at_end.registered
            &&& after.tasks == registry_at_end.tasks.remove(texts.identifier)
            &&& after.handlers == registry_at_end.handlers.remove(texts.identifier)
            &&& calls == if registry_at_end.tasks.contains_key(texts.identifier) && task != 0 {
                seq![
                    NativeCall::<Seq<char>>::SetTaskCompleted { task, success },
                    NativeCall::Release { object: task },
                ]
            } else {
                Seq::empty()
            }
        }),
{
    reveal_strlit("continued_processing");
    reveal_strlit("finite_background_task");
    assert("continued_processing"@.len() != "finite_background_task"@.len());
    law_start_in_full(texts, registry, on_expiration, enabled, at_first, device);
    let request = activity.finish_request(success)->0;
    law_finish_in_full(request, registry_at_end, at_end);
    let (run, begun, next) = (FinishRunView { request, step: FinishStep::Over }).begins(
        registry_at_end,
    );
    let calls = run_finish(run, begun, next, at_end).0;
    let task = registry_at_end.tasks[texts.identifier];
    assert(calls =~= if registry_at_end.tasks.contains_key(texts.identifier) && task != 0 {
        seq![
            NativeCall::<Seq<char>>::SetTaskCompleted { task, success },
            NativeCall::Release { object: task },
        ]
    } else {
        Seq::empty()
    });
}

/// What is stated of a start, of what a flow of a beginning wants next, and of the texts of a
/// request is stated of all of it.
pub proof fn law_contents_of_a_start(
    start: Start,
    next: Next<String, Start>,
    attempted: Next<String, ContinuedOutcome<String>>,
    prepared: Next<String, Result<(), String>>,
    texts: RequestTexts,
    refusal: Refusal<String>,
)
    ensures
        match start {
            Ok((activity, report)) => start_view(start) == Ok::<
                (ActivityView, StartReportView),
                Seq<char>,
            >((activity@, report@)),
            Err(message) => start_view(start) == Err::<(ActivityView, StartReportView), Seq<char>>(
                message@,
            ),
        },
        match next {
            Next::Call(call) => start_next(next) == Next::<Seq<char>, StartView>::Call(call@),
            Next::Done(done) => start_next(next) == Next::<Seq<char>, StartView>::Done(
                start_view(done),
            ),
        },
        match attempted {
            Next::Call(call) => continued_next(attempted) == Next::<
                Seq<char>,
                ContinuedOutcome<Seq<char>>,
            >::Call(call@),
            Next::Done(Ok(())) => continued_next(attempted) == Next::<
                Seq<char>,
                ContinuedOutcome<Seq<char>>,
            >::Done(Ok(())),
            Next::Done(Err(refused)) => continued_next(attempted) == Next::<
                Seq<char>,
                ContinuedOutcome<Seq<char>>,
            >::Done(Err(refused@)),
        },
        match prepared {
            Next::Call(call) => prepare_next(prepared) == Next::<
                Seq<char>,
                Result<(), Seq<char>>,
            >::Call(call@),
            Next::Done(Ok(())) => prepare_next(prepared) == Next::<
                Seq<char>,
                Result<(), Seq<char>>,
            >::Done(Ok(())),
            Next::Done(Err(message)) => prepare_next(prepared) == Next::<
                Seq<char>,
                Result<(), Seq<char>>,
            >::Done(Err(message@)),
        },
        texts@.identifier == texts.identifier@,
        texts@.title == texts.title@,
        texts@.subtitle == texts.subtitle@,
        match refusal {
            Refusal::UnsupportedVersion(version) => refusal@ == Refusal::<
                Seq<char>,
            >::UnsupportedVersion(version),
            Refusal::Registration(error) => refusal@ == Refusal::<Seq<char>>::Registration(error),
            Refusal::Request(error) => refusal@ == Refusal::<Seq<char>>::Request(error),
            Refusal::SubmissionFailed(description) => refusal@ == Refusal::SubmissionFailed(
                description@,
            ),
            Refusal::VersionUnavailable => refusal@ is VersionUnavailable,
            Refusal::Disabled => refusal@ is Disabled,
            Refusal::RequestClassUnavailable => refusal@ is RequestClassUnavailable,
            Refusal::SchedulerClassUnavailable => refusal@ is SchedulerClassUnavailable,
            Refusal::SubmissionUnavailable => refusal@ is SubmissionUnavailable,
        },
{
}

/// What is stated of the block of a finite background task, of the attempt to begin one and of
/// a beginning is stated of the handler that they hold.
pub proof fn law_contents_of_a_beginning<H: ?Sized>(
    block: ExpirationBlock<H>,
    attempt: FiniteAttempt<H, String>,
    run: BeginRun<H>,
)
    ensures
        block@.on_expiration == block.on_expiration,
        block@.expiration == block.expiration@,
        attempt@.on_expiration == attempt.on_expiration,
        attempt@.title == attempt.title@,
        attempt@.system_version == attempt.system_version@,
        attempt@.step == attempt.step,
        match attempt.fallback_reason {
            Some(reason) => attempt@.fallback_reason == Some(reason@),
            None => attempt@.fallback_reason is None,
        },
        run@.on_expiration == run.on_expiration,
        run@.texts == run.texts@,
        run@.system_version == run.system_version@,
{
}

} // verus!
