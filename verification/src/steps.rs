//! What a single step of a flow does, whatever the registry is at that time: other flows may
//! have changed it since the step before.

use std::sync::Arc;

use vstd::prelude::*;

use crate::begin::BeginRunView;
use crate::continued::{ContinuedAttempt, ContinuedOutcome, ContinuedStep, Refusal};
use crate::finish::{FinishRequestView, FinishRunView, FinishStep};
use crate::launch::LaunchStep;
use crate::native::{NativeCall, NativeClass, NativeReply, NativeSelector, Next};
use crate::queries::ApplicationQuery;
use crate::registry::RegistryView;
use crate::request::RequestTextsView;

verus! {

/// No step of a beginning touches a launched task or the handler of another identifier.
pub proof fn law_beginning_touches_only_its_own_handler<H: ?Sized>(
    run: BeginRunView<H>,
    registry: RegistryView<Arc<H>>,
    reply: NativeReply<Seq<char>>,
    other: Seq<char>,
)
    requires
        run.awaits(reply),
        other != run.texts.identifier,
    ensures
        ({
            let after = run.after(registry, reply).1;
            &&& after.tasks == registry.tasks
            &&& after.handlers.contains_key(other) == registry.handlers.contains_key(other)
            &&& registry.handlers.contains_key(other) ==> after.handlers[other]
                == registry.handlers[other]
        }),
{
}

/// A step of an attempt puts the handler of the run under its identifier exactly when it
/// goes on to ask whether requests can be submitted. It takes the handler away when it
/// refuses for want of a submission or of a request and when a submission has failed, and
/// leaves the handlers alone in every other case.
pub proof fn law_attempt_keeps_its_handler_as_long_as_it_may_succeed<H>(
    attempt: ContinuedAttempt<H>,
    texts: RequestTextsView,
    registry: RegistryView<H>,
    reply: NativeReply<Seq<char>>,
)
    requires
        attempt.awaits(reply),
    ensures
        ({
            let (_, after, next) = attempt.after(texts, registry, reply);
            let goes_on = next matches Next::Call(call) && call matches NativeCall::ObjectResponds {
                selector: NativeSelector::SubmitTaskRequest,
                ..
            };
            let has_failed = (attempt.step matches ContinuedStep::Releasing { submitted, .. }
                && !submitted) || next == Next::<Seq<char>, ContinuedOutcome<Seq<char>>>::Done(
                Err(Refusal::SubmissionUnavailable),
            ) || (next matches Next::Done(Err(refusal)) && refusal is Request);
            &&& goes_on && (attempt.step is Scheduler || attempt.step is Registering) ==> {
                &&& after.handlers == registry.handlers.insert(texts.identifier, attempt.handler->0)
                &&& after.registered
            }
            &&& has_failed ==> after.handlers == registry.handlers.remove(texts.identifier)
            &&& !has_failed && !(attempt.step is Scheduler || attempt.step is Registering)
                ==> after.handlers == registry.handlers
            &&& !goes_on && (attempt.step is Scheduler || attempt.step is Registering)
                ==> after.handlers == registry.handlers
            &&& after.tasks == registry.tasks
        }),
{
}

/// The steps of a launch. A task is retained and takes its place under its identifier only if
/// a handler stands there when the identifier is told; a task that it takes the place of is
/// released at once, whatever has happened in between; the task is then told to invoke the
/// handler of its identifier, and its first progress is shown on the task that stands under
/// the identifier at that time.
pub proof fn law_steps_of_a_launch<H>(
    task: usize,
    identifier: Seq<char>,
    retained: usize,
    registry: RegistryView<H>,
)
    requires
        identifier.len() > 0,
    ensures
        ({
            let (step, after, next) = (LaunchStep::Identifier { task }).after(
                registry,
                NativeReply::Text(Some(identifier)),
            );
            &&& after == registry
            &&& if registry.handlers.contains_key(identifier) {
                &&& step == (LaunchStep::Retaining { task, identifier })
                &&& next == Next::<Seq<char>, ()>::Call(NativeCall::Retain { object: task })
            } else {
                &&& step is Rejecting
                &&& next == Next::<Seq<char>, ()>::Call(
                    NativeCall::SetTaskCompleted { task, success: false },
                )
            }
        }),
        ({
            let (step, after, next) = (LaunchStep::Retaining { task, identifier }).after(
                registry,
                NativeReply::Object(retained),
            );
            &&& after.tasks == registry.tasks.insert(identifier, retained)
            &&& after.handlers == registry.handlers
            &&& after.registered == registry.registered
            &&& if registry.tasks.contains_key(identifier) && registry.tasks[identifier] != 0 {
                &&& step == (LaunchStep::ReleasingPrevious { task, identifier })
                &&& next == Next::<Seq<char>, ()>::Call(
                    NativeCall::Release { object: registry.tasks[identifier] },
                )
            } else {
                &&& step == (LaunchStep::SettingHandler { identifier })
                &&& next == Next::<Seq<char>, ()>::Call(
                    NativeCall::SetExpirationHandler {
                        task,
                        identifier,
                        mode: "continued_processing"@,
                    },
                )
            }
        }),
        ({
            let (step, after, next) = (LaunchStep::ReleasingPrevious { task, identifier }).after(
                registry,
                NativeReply::Done,
            );
            &&& after == registry
            &&& step == (LaunchStep::SettingHandler { identifier })
            &&& next == Next::<Seq<char>, ()>::Call(
                NativeCall::SetExpirationHandler {
                    task,
                    identifier,
                    mode: "continued_processing"@,
                },
            )
        }),
        ({
            let (_, after, next) = (LaunchStep::SettingHandler { identifier }).after(
                registry,
                NativeReply::Done,
            );
            &&& after == registry
            &&& next == if registry.tasks.contains_key(identifier) && registry.tasks[identifier] != 0 {
                Next::<Seq<char>, ()>::Call(
                    NativeCall::ObjectResponds {
                        object: registry.tasks[identifier],
                        selector: NativeSelector::Progress,
                    },
                )
            } else {
                Next::Done(())
            }
        }),
        ({
            let (_, after, next) = LaunchStep::<Seq<char>>::Rejecting.after(
                registry,
                NativeReply::Done,
            );
            after == registry && next == Next::<Seq<char>, ()>::Done(())
        }),
{
}

/// A launch changes nothing in the registry but the task under the identifier that it was
/// told, and that only when the task has been retained.
pub proof fn law_launch_touches_only_its_own_task<H>(
    launch: LaunchStep<Seq<char>>,
    registry: RegistryView<H>,
    reply: NativeReply<Seq<char>>,
)
    requires
        launch.awaits(reply),
    ensures
        ({
            let after = launch.after(registry, reply).1;
            &&& after.handlers == registry.handlers
            &&& after.registered == registry.registered
            &&& match launch {
                LaunchStep::Retaining { identifier, .. } => after.tasks == registry.tasks.insert(
                    identifier,
                    reply->Object_0,
                ),
                _ => after.tasks == registry.tasks,
            }
        }),
{
}

/// The steps of an end. The launched task is taken out of the registry before it is
/// completed, is released once it is completed, and only then is the handler of the run taken
/// out; whatever has been put under other identifiers in between stays. After that a finite
/// background task with a valid number is ended on the application that is found.
pub proof fn law_steps_of_an_end<H>(
    request: FinishRequestView,
    registry: RegistryView<H>,
    task: usize,
    number: isize,
    object: usize,
)
    ensures
        ({
            let run = FinishRunView { request, step: FinishStep::Completing { task } };
            run.after(registry, NativeReply::Done) == (
                FinishRunView { request, step: FinishStep::Releasing },
                registry,
                Next::<Seq<char>, ()>::Call(NativeCall::Release { object: task }),
            )
        }),
        ({
            let run = FinishRunView { request, step: FinishStep::Releasing };
            let (_, after, next) = run.after(registry, NativeReply::Done);
            &&& after.tasks == registry.tasks
            &&& after.registered == registry.registered
            &&& after.handlers == match request.continued_identifier {
                Some(identifier) => registry.handlers.remove(identifier),
                None => registry.handlers,
            }
            &&& next == match request.finite_background_task {
                Some(number) if number != -1 => Next::<Seq<char>, ()>::Call(
                    NativeCall::LookupClass { class: NativeClass::Application },
                ),
                _ => Next::Done(()),
            }
        }),
        ({
            let run = FinishRunView {
                request,
                step: FinishStep::Application { task: number, query: ApplicationQuery::Class },
            };
            let (_, after, next) = run.after(registry, NativeReply::Object(object));
            &&& after == registry
            &&& next == if object == 0 {
                Next::Done(())
            } else {
                Next::<Seq<char>, ()>::Call(NativeCall::SharedApplication { class: object })
            }
        }),
        ({
            let run = FinishRunView {
                request,
                step: FinishStep::Application { task: number, query: ApplicationQuery::Instance },
            };
            let (_, after, next) = run.after(registry, NativeReply::Object(object));
            &&& after == registry
            &&& next == if object == 0 {
                Next::Done(())
            } else {
                Next::<Seq<char>, ()>::Call(
                    NativeCall::EndBackgroundTask { application: object, task: number },
                )
            }
        }),
        ({
            let run = FinishRunView { request, step: FinishStep::Ending };
            let (_, after, next) = run.after(registry, NativeReply::Done);
            after == registry && next == Next::<Seq<char>, ()>::Done(())
        }),
{
}

} // verus!
