//! What the launch of a task, a progress report and the end of an activity lead to from
//! beginning to end, on a device that replies to the calls.

use vstd::prelude::*;

use crate::activity::{ActivityView, BACKGROUND_TASK_INVALID};
use crate::finish::{FinishRequestView, FinishRunView, FinishStep};
use crate::launch::{expiration_call, launch_of, LaunchStep};
use crate::native::{
    answers, Device, NativeCall, NativeClass, NativeReply, NativeSelector, Next, Phase,
};
use crate::progress::{
    completed_units, law_progress_is_within_the_total, law_progress_of_each_status,
    law_shown_progress_is_the_nearest, progress_update, shown_completed, shown_total,
    AgentRunStatus, ProgressUpdate, LAUNCHED_UNITS, TOTAL_UNITS,
};
use crate::queries::ApplicationQuery;
use crate::registry::{entry, RegistryView};
use crate::service::{law_every_status_is_reported, progress_for, AgentBackgroundActivity};

verus! {

/// How many calls a step of a progress update leads to at most.
pub open spec fn update_calls_left(update: ProgressUpdate) -> nat {
    match update {
        ProgressUpdate::Query { .. } => 4,
        ProgressUpdate::Object { .. } => 3,
        ProgressUpdate::Total { .. } => 2,
        ProgressUpdate::Completed => 1,
    }
}

/// The calls that a progress update makes from a point on.
pub open spec fn update_calls(
    phase: Phase<ProgressUpdate, Seq<char>, ()>,
    device: Device,
) -> Seq<NativeCall<Seq<char>>>
    decreases
            (match phase {
                Phase::Ask(update, _) => update_calls_left(update),
                Phase::Done(()) => 0,
            }),
{
    match phase {
        Phase::Done(()) => Seq::empty(),
        Phase::Ask(update, call) => seq![call] + update_calls(
            update.after((device.reply)(call)),
            device,
        ),
    }
}

/// The calls that show progress on a task: the total, then the completed units, if the
/// task has a progress object.
pub open spec fn progress_calls(
    device: Device,
    task: usize,
    completed: i64,
    total: i64,
) -> Seq<NativeCall<Seq<char>>> {
    let progress = device.object(NativeCall::TaskProgress { task });
    let query = NativeCall::ObjectResponds { object: task, selector: NativeSelector::Progress };
    if task == 0 {
        Seq::empty()
    } else if !device.responds(task, NativeSelector::Progress) {
        seq![query]
    } else if progress == 0 {
        seq![query, NativeCall::TaskProgress { task }]
    } else {
        seq![
            query,
            NativeCall::TaskProgress { task },
            NativeCall::SetTotalUnitCount { progress, total: shown_total(total) },
            NativeCall::SetCompletedUnitCount {
                progress,
                completed: shown_completed(completed, total),
            },
        ]
    }
}

/// A progress report for an identifier is shown on the task that was launched under the
/// identifier; where none was, no call is made.
pub proof fn law_progress_is_shown_on_the_launched_task(
    tasks: Map<Seq<char>, usize>,
    identifier: Seq<char>,
    completed: i64,
    total: i64,
    device: Device,
)
    requires
        device.well_behaved(),
    ensures
        update_calls(progress_update(tasks, identifier, completed, total), device) == match entry(
            tasks,
            identifier,
        ) {
            Some(task) => progress_calls(device, task, completed, total),
            None => Seq::empty(),
        },
{
    reveal_with_fuel(update_calls, 6);
    let phase = progress_update(tasks, identifier, completed, total);
    match entry(tasks, identifier) {
        Some(task) => {
            assert(update_calls(phase, device) =~= progress_calls(device, task, completed, total));
        },
        None => {},
    }
}

/// A status that is reported for a run whose task has been launched and has a progress
/// object is shown there: out of all units, as many as the status stands for.
pub proof fn law_status_is_shown(
    activity: ActivityView,
    tasks: Map<Seq<char>, usize>,
    status: AgentRunStatus,
    device: Device,
)
    requires
        device.well_behaved(),
        !activity.finished,
        activity.continued_identifier is Some,
        tasks.contains_key(activity.continued_identifier->0),
        tasks[activity.continued_identifier->0] != 0,
        device.responds(tasks[activity.continued_identifier->0], NativeSelector::Progress),
        device.object(
            NativeCall::TaskProgress { task: tasks[activity.continued_identifier->0] },
        ) != 0,
    ensures
        ({
            let report = activity.progress_report(completed_units(status) as i64, TOTAL_UNITS);
            let task = tasks[activity.continued_identifier->0];
            let progress = device.object(NativeCall::TaskProgress { task });
            &&& report is Some
            &&& update_calls(
                progress_update(
                    tasks,
                    report->0.identifier,
                    report->0.completed,
                    report->0.total,
                ),
                device,
            ) == seq![
                NativeCall::<Seq<char>>::ObjectResponds {
                    object: task,
                    selector: NativeSelector::Progress,
                },
                NativeCall::TaskProgress { task },
                NativeCall::SetTotalUnitCount { progress, total: TOTAL_UNITS },
                NativeCall::SetCompletedUnitCount {
                    progress,
                    completed: completed_units(status) as i64,
                },
            ]
        }),
{
    let report = activity.progress_report(completed_units(status) as i64, TOTAL_UNITS)->0;
    law_progress_is_within_the_total(status);
    law_progress_is_shown_on_the_launched_task(
        tasks,
        report.identifier,
        report.completed,
        report.total,
        device,
    );
}

/// How many calls a step of the handling of a launch leads to at most.
pub open spec fn launch_calls_left(step: LaunchStep<Seq<char>>) -> nat {
    match step {
        LaunchStep::Identifier { .. } => 8,
        LaunchStep::Rejecting => 1,
        LaunchStep::Retaining { .. } => 7,
        LaunchStep::ReleasingPrevious { .. } => 6,
        LaunchStep::SettingHandler { .. } => 5,
        LaunchStep::Progress { update } => update_calls_left(update),
        LaunchStep::Over => 0,
    }
}

/// The calls that the handling of a launch makes from a point on, and the registry that it
/// leaves.
pub open spec fn run_launch<H>(
    step: LaunchStep<Seq<char>>,
    registry: RegistryView<H>,
    next: Next<Seq<char>, ()>,
    device: Device,
) -> (Seq<NativeCall<Seq<char>>>, RegistryView<H>)
    decreases launch_calls_left(step),
{
    match next {
        Next::Done(()) => (Seq::empty(), registry),
        Next::Call(call) => if step is Over {
            (seq![call], registry)
        } else {
            let (step, registry, next) = step.after(registry, (device.reply)(call));
            let (calls, registry) = run_launch(step, registry, next, device);
            (seq![call] + calls, registry)
        },
    }
}

/// The calls that the launch of a task leads to.
pub open spec fn launch_calls<H>(
    device: Device,
    registry: RegistryView<H>,
    task: usize,
) -> Seq<NativeCall<Seq<char>>> {
    let identifier = device.text(NativeCall::TaskIdentifier { task });
    let retained = device.object(NativeCall::Retain { object: task });
    let previous = entry(registry.tasks, identifier->0);
    if task == 0 {
        Seq::empty()
    } else if identifier is None || identifier->0.len() == 0 {
        seq![NativeCall::TaskIdentifier { task }]
    } else if !registry.handlers.contains_key(identifier->0) {
        seq![
            NativeCall::TaskIdentifier { task },
            NativeCall::SetTaskCompleted { task, success: false },
        ]
    } else {
        seq![NativeCall::TaskIdentifier { task }, NativeCall::Retain { object: task }] + (
        if previous is Some && previous->0 != 0 {
            seq![NativeCall::Release { object: previous->0 }]
        } else {
            Seq::empty()
        }) + seq![expiration_call(task, identifier->0)] + progress_calls(
            device,
            retained,
            LAUNCHED_UNITS,
            TOTAL_UNITS,
        )
    }
}

/// Whether a launched task is taken on: it has an identifier under which an expiration
/// handler stands.
pub open spec fn takes_on<H>(device: Device, registry: RegistryView<H>, task: usize) -> bool {
    let identifier = device.text(NativeCall::TaskIdentifier { task });
    &&& task != 0
    &&& identifier is Some
    &&& identifier->0.len() > 0
    &&& registry.handlers.contains_key(identifier->0)
}

/// The registry after the launch of a task.
pub open spec fn registry_after_launch<H>(
    device: Device,
    registry: RegistryView<H>,
    task: usize,
) -> RegistryView<H> {
    if takes_on(device, registry, task) {
        RegistryView {
            tasks: registry.tasks.insert(
                device.text(NativeCall::TaskIdentifier { task })->0,
                device.object(NativeCall::Retain { object: task }),
            ),
            ..registry
        }
    } else {
        registry
    }
}

proof fn lemma_run_progress<H>(
    phase: Phase<ProgressUpdate, Seq<char>, ()>,
    registry: RegistryView<H>,
    device: Device,
)
    ensures
        ({
            let (step, next) = LaunchStep::<Seq<char>>::after_progress(phase);
            run_launch(step, registry, next, device) == (update_calls(phase, device), registry)
        }),
    decreases
            (match phase {
                Phase::Ask(update, _) => update_calls_left(update),
                Phase::Done(()) => 0,
            }),
{
    match phase {
        Phase::Ask(update, call) => {
            lemma_run_progress(update.after((device.reply)(call)), registry, device);
        },
        Phase::Done(()) => {},
    }
}

proof fn lemma_run_setting_handler<H>(
    task: usize,
    identifier: Seq<char>,
    registry: RegistryView<H>,
    device: Device,
)
    requires
        device.well_behaved(),
        registry.tasks.contains_key(identifier),
    ensures
        run_launch(
            LaunchStep::SettingHandler { identifier },
            registry,
            Next::Call(expiration_call(task, identifier)),
            device,
        ) == (
            seq![expiration_call(task, identifier)] + progress_calls(
                device,
                registry.tasks[identifier],
                LAUNCHED_UNITS,
                TOTAL_UNITS,
            ),
            registry,
        ),
{
    let phase = progress_update(registry.tasks, identifier, LAUNCHED_UNITS, TOTAL_UNITS);
    lemma_run_progress(phase, registry, device);
    law_progress_is_shown_on_the_launched_task(
        registry.tasks,
        identifier,
        LAUNCHED_UNITS,
        TOTAL_UNITS,
        device,
    );
}

/// The launch of a task makes these calls and no others, and leaves this registry. A task is taken on exactly if it has an identifier under which an expiration
/// handler stands: it is retained in place of any task that stood there, it is told to
/// invoke the handler when it expires, and shows the first progress. A task under another
/// identifier is completed without success.
pub proof fn law_launch<H>(task: usize, registry: RegistryView<H>, device: Device)
    requires
        device.well_behaved(),
    ensures
        ({
            let (step, next) = launch_of(task);
            run_launch(step, registry, next, device) == (
                launch_calls(device, registry, task),
                registry_after_launch(device, registry, task),
            )
        }),
{
    let (step, next) = launch_of(task);
    if task != 0 {
        let asked = NativeCall::TaskIdentifier { task };
        let text = device.text(asked);
        let (step1, registry1, next1) = step.after(registry, (device.reply)(asked));
        assert(run_launch(step, registry, next, device).0 == seq![asked] + run_launch(
            step1,
            registry1,
            next1,
            device,
        ).0);
        if text is None || text->0.len() == 0 {
            assert(run_launch(step, registry, next, device).0 =~= seq![asked]);
        } else if !registry.handlers.contains_key(text->0) {
            let completed = NativeCall::SetTaskCompleted { task, success: false };
            let (step2, registry2, next2) = step1.after(registry1, (device.reply)(completed));
            assert(run_launch(step2, registry2, next2, device).0 =~= Seq::empty());
            assert(run_launch(step1, registry1, next1, device).0 =~= seq![completed]);
            assert(run_launch(step, registry, next, device).0 =~= seq![asked, completed]);
        } else {
            let identifier = text->0;
            let retain = NativeCall::Retain { object: task };
            let retained = device.object(retain);
            let previous = entry(registry.tasks, identifier);
            let (step2, registry2, next2) = step1.after(registry1, (device.reply)(retain));
            let last = LaunchStep::SettingHandler { identifier };
            let last_call = Next::Call(expiration_call(task, identifier));
            lemma_run_setting_handler(task, identifier, registry2, device);
            let tail = run_launch(last, registry2, last_call, device).0;
            if previous is Some && previous->0 != 0 {
                let release = NativeCall::Release { object: previous->0 };
                assert(run_launch(step2, registry2, next2, device).0 =~= seq![release] + tail);
            } else {
                assert(run_launch(step2, registry2, next2, device).0 == tail);
            }
            assert(run_launch(step, registry, next, device).0 =~= launch_calls(
                device,
                registry,
                task,
            ));
        }
    }
}

/// How many calls a step of the end leads to at most.
pub open spec fn finish_calls_left(step: FinishStep) -> nat {
    match step {
        FinishStep::Completing { .. } => 5,
        FinishStep::Releasing => 4,
        FinishStep::Application { query: ApplicationQuery::Class, .. } => 3,
        FinishStep::Application { query: ApplicationQuery::Instance, .. } => 2,
        FinishStep::Ending => 1,
        FinishStep::Over => 0,
    }
}

/// The calls that the end of an activity makes from a point on, and the registry that it
/// leaves.
pub open spec fn run_finish<H>(
    run: FinishRunView,
    registry: RegistryView<H>,
    next: Next<Seq<char>, ()>,
    device: Device,
) -> (Seq<NativeCall<Seq<char>>>, RegistryView<H>)
    decreases finish_calls_left(run.step),
{
    match next {
        Next::Done(()) => (Seq::empty(), registry),
        Next::Call(call) => if run.step is Over {
            (seq![call], registry)
        } else {
            let (run, registry, next) = run.after(registry, (device.reply)(call));
            let (calls, registry) = run_finish(run, registry, next, device);
            (seq![call] + calls, registry)
        },
    }
}

/// The calls that bring a launched task to its end.
pub open spec fn completion_calls<H>(
    registry: RegistryView<H>,
    request: FinishRequestView,
) -> Seq<NativeCall<Seq<char>>> {
    match request.continued_identifier {
        None => Seq::empty(),
        Some(identifier) => match entry(registry.tasks, identifier) {
            Some(task) if task != 0 => seq![
                NativeCall::SetTaskCompleted { task, success: request.success },
                NativeCall::Release { object: task },
            ],
            _ => Seq::empty(),
        },
    }
}

/// The calls that end a finite background task, if there is an application to end it on.
pub open spec fn ending_calls(device: Device, request: FinishRequestView) -> Seq<
    NativeCall<Seq<char>>,
> {
    let lookup = NativeCall::LookupClass { class: NativeClass::Application };
    let class = device.class(NativeClass::Application);
    let application = device.object(NativeCall::SharedApplication { class });
    match request.finite_background_task {
        Some(task) if task != BACKGROUND_TASK_INVALID => if class == 0 {
            seq![lookup]
        } else if application == 0 {
            seq![lookup, NativeCall::SharedApplication { class }]
        } else {
            seq![
                lookup,
                NativeCall::SharedApplication { class },
                NativeCall::EndBackgroundTask { application, task },
            ]
        },
        _ => Seq::empty(),
    }
}

/// The registry after the end of an activity: neither its task nor its handler is left.
pub open spec fn registry_after_finish<H>(
    registry: RegistryView<H>,
    request: FinishRequestView,
) -> RegistryView<H> {
    match request.continued_identifier {
        None => registry,
        Some(identifier) => RegistryView {
            tasks: registry.tasks.remove(identifier),
            handlers: registry.handlers.remove(identifier),
            ..registry
        },
    }
}

proof fn lemma_run_ending<H>(run: FinishRunView, registry: RegistryView<H>, device: Device)
    requires
        device.well_behaved(),
    ensures
        ({
            let (ending, next) = run.after_continued();
            run_finish(ending, registry, next, device) == (
                ending_calls(device, run.request),
                registry,
            )
        }),
{
    reveal_with_fuel(run_finish, 5);
    let (ending, next) = run.after_continued();
    assert(run_finish(ending, registry, next, device).0 =~= ending_calls(device, run.request));
}

/// The end of an activity makes these calls and no others, and leaves this registry: a launched task is completed and released, a finite background task is
/// ended, and the registry holds neither the task nor the handler of the run any more.
pub proof fn law_finish<H>(
    request: FinishRequestView,
    registry: RegistryView<H>,
    device: Device,
)
    requires
        device.well_behaved(),
    ensures
        ({
            let (run, begun, next) = (FinishRunView { request, step: FinishStep::Over }).begins(
                registry,
            );
            run_finish(run, begun, next, device) == (
                completion_calls(registry, request) + ending_calls(device, request),
                registry_after_finish(registry, request),
            )
        }),
{
    let (run, begun, next) = (FinishRunView { request, step: FinishStep::Over }).begins(registry);
    let after = registry_after_finish(registry, request);
    lemma_run_ending(run, after, device);
    lemma_run_ending(FinishRunView { request, step: FinishStep::Over }, after, device);
    lemma_run_ending(FinishRunView { request, step: FinishStep::Releasing }, after, device);
    reveal_with_fuel(run_finish, 3);
    assert(run_finish(run, begun, next, device).0 =~= completion_calls(registry, request)
        + ending_calls(device, request));
    assert(run_finish(run, begun, next, device).1 =~= after);
}

/// Neither the launch of a task nor the end of an activity makes a call twice, so that
/// nothing is lost by taking the reply to each call as fixed.
pub proof fn law_no_task_call_is_made_twice<H>(
    task: usize,
    request: FinishRequestView,
    registry: RegistryView<H>,
    device: Device,
)
    ensures
        launch_calls(device, registry, task).no_duplicates(),
        (completion_calls(registry, request) + ending_calls(device, request)).no_duplicates(),
{
}

/// The number of objects that calls retain, less the number that they release.
pub open spec fn balance(calls: Seq<NativeCall<Seq<char>>>) -> int
    decreases calls.len(),
{
    if calls.len() == 0 {
        0
    } else {
        balance(calls.drop_last()) + match calls.last() {
            NativeCall::Retain { .. } => 1,
            NativeCall::Release { .. } => -1int,
            _ => 0int,
        }
    }
}

proof fn lemma_balance_adds(first: Seq<NativeCall<Seq<char>>>, second: Seq<NativeCall<Seq<char>>>)
    ensures
        balance(first + second) == balance(first) + balance(second),
    decreases second.len(),
{
    if second.len() == 0 {
        assert(first + second =~= first);
    } else {
        lemma_balance_adds(first, second.drop_last());
        assert((first + second).drop_last() =~= first + second.drop_last());
    }
}

/// Whether calls neither retain nor release anything.
pub open spec fn is_neutral(calls: Seq<NativeCall<Seq<char>>>) -> bool {
    forall|i: int| 0 <= i < calls.len() ==> !(#[trigger] calls[i] is Retain || calls[i] is Release)
}

proof fn lemma_neutral(calls: Seq<NativeCall<Seq<char>>>)
    requires
        is_neutral(calls),
    ensures
        balance(calls) == 0,
    decreases calls.len(),
{
    if calls.len() > 0 {
        assert forall|i: int| 0 <= i < calls.drop_last().len() implies !(
        #[trigger] calls.drop_last()[i] is Retain || calls.drop_last()[i] is Release) by {
            assert(calls.drop_last()[i] == calls[i]);
        }
        lemma_neutral(calls.drop_last());
        assert(!(calls[calls.len() - 1] is Retain));
    }
}

/// Whether a registry holds finitely many tasks, none of them null.
pub open spec fn holds_tasks<H>(registry: RegistryView<H>) -> bool {
    &&& registry.tasks.dom().finite()
    &&& forall|identifier: Seq<char>| #[trigger]
        registry.tasks.contains_key(identifier) ==> registry.tasks[identifier] != 0
}

/// A launch retains exactly as many objects more than it releases as the registry holds
/// tasks more afterwards, on a device that hands back the object that it retains.
pub proof fn law_launch_balances<H>(task: usize, registry: RegistryView<H>, device: Device)
    requires
        holds_tasks(registry),
        device.object(NativeCall::Retain { object: task }) == task,
    ensures
        holds_tasks(registry_after_launch(device, registry, task)),
        balance(launch_calls(device, registry, task)) == registry_after_launch(
            device,
            registry,
            task,
        ).tasks.dom().len() - registry.tasks.dom().len(),
{
    reveal_with_fuel(balance, 4);
    if takes_on(device, registry, task) {
        let identifier = device.text(NativeCall::TaskIdentifier { task })->0;
        let previous = entry(registry.tasks, identifier);
        let head = seq![
            NativeCall::TaskIdentifier { task },
            NativeCall::<Seq<char>>::Retain { object: task },
        ];
        let released = if previous is Some && previous->0 != 0 {
            seq![NativeCall::<Seq<char>>::Release { object: previous->0 }]
        } else {
            Seq::empty()
        };
        let told = seq![expiration_call(task, identifier)];
        let shown = progress_calls(device, task, LAUNCHED_UNITS, TOTAL_UNITS);
        assert(head.drop_last() =~= seq![NativeCall::<Seq<char>>::TaskIdentifier { task }]);
        assert(head.drop_last().drop_last() =~= Seq::<NativeCall<Seq<char>>>::empty());
        assert(balance(head) == 1);
        assert(told.drop_last() =~= Seq::<NativeCall<Seq<char>>>::empty());
        assert(balance(told) == 0);
        if previous is Some {
            assert(released.drop_last() =~= Seq::<NativeCall<Seq<char>>>::empty());
            assert(balance(released) == -1);
        }
        lemma_neutral(shown);
        lemma_balance_adds(head, released);
        lemma_balance_adds(head + released, told);
        lemma_balance_adds(head + released + told, shown);
        assert(registry.tasks.insert(identifier, task).dom() =~= registry.tasks.dom().insert(
            identifier,
        ));
    } else {
        lemma_neutral(launch_calls(device, registry, task));
    }
}

/// The end of an activity releases exactly as many objects as the registry holds tasks
/// less afterwards.
pub proof fn law_finish_balances<H>(
    request: FinishRequestView,
    registry: RegistryView<H>,
    device: Device,
)
    requires
        holds_tasks(registry),
    ensures
        holds_tasks(registry_after_finish(registry, request)),
        balance(completion_calls(registry, request) + ending_calls(device, request))
            == registry_after_finish(registry, request).tasks.dom().len()
            - registry.tasks.dom().len(),
{
    let completed = completion_calls(registry, request);
    lemma_balance_adds(completed, ending_calls(device, request));
    lemma_neutral(ending_calls(device, request));
    match request.continued_identifier {
        Some(identifier) => {
            assert(registry.tasks.remove(identifier).dom() =~= registry.tasks.dom().remove(
                identifier,
            ));
            if registry.tasks.contains_key(identifier) {
                reveal_with_fuel(balance, 4);
                assert(completed.drop_last().drop_last() =~= Seq::empty());
                assert(balance(completed) == -1);
            }
        },
        None => {},
    }
}

/// Once a run has finished, a task that is launched under its identifier is completed
/// without success and is not held, and an expiration finds no handler.
pub proof fn law_finished_run_is_not_launched<H>(
    request: FinishRequestView,
    registry: RegistryView<H>,
    task: usize,
    device: Device,
)
    requires
        request.continued_identifier is Some,
        request.continued_identifier->0.len() > 0,
        task != 0,
        device.text(NativeCall::TaskIdentifier { task }) == request.continued_identifier,
    ensures
        ({
            let after = registry_after_finish(registry, request);
            &&& entry(after.handlers, request.continued_identifier->0) is None
            &&& launch_calls(device, after, task) == seq![
                NativeCall::<Seq<char>>::TaskIdentifier { task },
                NativeCall::SetTaskCompleted { task, success: false },
            ]
            &&& registry_after_launch(device, after, task) == after
        }),
{
}

/// A progress report for an identifier leads to these calls: none where no task was launched
/// under the identifier, and otherwise, if the task has a progress object, the total and then
/// the completed units, both within their bounds.
pub proof fn law_progress_reaches_the_task(
    tasks: Map<Seq<char>, usize>,
    identifier: Seq<char>,
    completed: i64,
    total: i64,
    device: Device,
)
    requires
        device.well_behaved(),
    ensures
        ({
            let calls = update_calls(
                progress_update(tasks, identifier, completed, total),
                device,
            );
            let task = tasks[identifier];
            let query = NativeCall::<Seq<char>>::ObjectResponds {
                object: task,
                selector: NativeSelector::Progress,
            };
            let progress = (device.reply)(NativeCall::TaskProgress { task })->Object_0;
            let shown_total = if total < 1 {
                1i64
            } else {
                total
            };
            let shown_completed = if completed < 0 {
                0i64
            } else if completed > shown_total {
                shown_total
            } else {
                completed
            };
            if !tasks.contains_key(identifier) || task == 0 {
                calls == Seq::<NativeCall<Seq<char>>>::empty()
            } else if (device.reply)(query) == NativeReply::<Seq<char>>::Flag(false) {
                calls == seq![query]
            } else if progress == 0 {
                calls == seq![query, NativeCall::TaskProgress { task }]
            } else {
                calls == seq![
                    query,
                    NativeCall::TaskProgress { task },
                    NativeCall::SetTotalUnitCount { progress, total: shown_total },
                    NativeCall::SetCompletedUnitCount { progress, completed: shown_completed },
                ]
            }
        }),
{
    law_progress_is_shown_on_the_launched_task(tasks, identifier, completed, total, device);
    law_shown_progress_is_the_nearest(completed, total);
    let query = NativeCall::<Seq<char>>::ObjectResponds {
        object: tasks[identifier],
        selector: NativeSelector::Progress,
    };
    assert(answers(query, (device.reply)(query)));
}

/// A status of a run that the service holds an activity of reaches the task that was launched
/// for the run: out of a hundred units, as many are shown as the status stands for.
pub proof fn law_status_reaches_the_task(
    activities: Map<Seq<char>, AgentBackgroundActivity>,
    run_id: Seq<char>,
    status: AgentRunStatus,
    tasks: Map<Seq<char>, usize>,
    device: Device,
)
    requires
        device.well_behaved(),
        activities.contains_key(run_id),
        !activities[run_id].ios@.finished,
        activities[run_id].ios@.continued_identifier is Some,
        tasks.contains_key(activities[run_id].ios@.continued_identifier->0),
        tasks[activities[run_id].ios@.continued_identifier->0] != 0,
        device.responds(
            tasks[activities[run_id].ios@.continued_identifier->0],
            NativeSelector::Progress,
        ),
        device.object(
            NativeCall::TaskProgress {
                task: tasks[activities[run_id].ios@.continued_identifier->0],
            },
        ) != 0,
    ensures
        ({
            let report = progress_for(activities, run_id, status);
            let task = tasks[activities[run_id].ios@.continued_identifier->0];
            let progress = device.object(NativeCall::TaskProgress { task });
            &&& report is Some
            &&& update_calls(
                progress_update(
                    tasks,
                    report->0.identifier,
                    report->0.completed,
                    report->0.total,
                ),
                device,
            ) == seq![
                NativeCall::<Seq<char>>::ObjectResponds {
                    object: task,
                    selector: NativeSelector::Progress,
                },
                NativeCall::TaskProgress { task },
                NativeCall::SetTotalUnitCount { progress, total: 100 },
                NativeCall::SetCompletedUnitCount {
                    progress,
                    completed: completed_units(status) as i64,
                },
            ]
        }),
{
    law_every_status_is_reported(activities, run_id, status);
    law_progress_of_each_status(status);
    let report = progress_for(activities, run_id, status)->0;
    law_progress_reaches_the_task(
        tasks,
        report.identifier,
        report.completed,
        report.total,
        device,
    );
}

/// The launch of a task, told by the replies of the device alone. A task with an identifier
/// under which a handler stands is retained and stands under that identifier from then on; a
/// task that stood there is released; the task is told to invoke the handler of its own
/// identifier in the mode `continued_processing`, and then shows one of a hundred units. A
/// task under another identifier is completed without success and not held. A task without
/// an identifier is left alone.
pub proof fn law_launch_in_full<H>(task: usize, registry: RegistryView<H>, device: Device)
    requires
        device.well_behaved(),
    ensures
        ({
            let (step, next) = launch_of(task);
            let (calls, after) = run_launch(step, registry, next, device);
            let text = (device.reply)(NativeCall::TaskIdentifier { task })->Text_0;
            let identifier = text->0;
            let retained = (device.reply)(NativeCall::Retain { object: task })->Object_0;
            let progress = (device.reply)(NativeCall::TaskProgress { task: retained })->Object_0;
            let query = NativeCall::<Seq<char>>::ObjectResponds {
                object: retained,
                selector: NativeSelector::Progress,
            };
            if task == 0 {
                calls == Seq::<NativeCall<Seq<char>>>::empty() && after == registry
            } else if text is None || identifier.len() == 0 {
                &&& calls == seq![NativeCall::<Seq<char>>::TaskIdentifier { task }]
                &&& after == registry
            } else if !registry.handlers.contains_key(identifier) {
                &&& calls == seq![
                    NativeCall::<Seq<char>>::TaskIdentifier { task },
                    NativeCall::SetTaskCompleted { task, success: false },
                ]
                &&& after == registry
            } else {
                &&& after.handlers == registry.handlers
                &&& after.registered == registry.registered
                &&& after.tasks == registry.tasks.insert(identifier, retained)
                &&& calls == seq![
                    NativeCall::<Seq<char>>::TaskIdentifier { task },
                    NativeCall::Retain { object: task },
                ] + (if registry.tasks.contains_key(identifier) && registry.tasks[identifier] != 0 {
                    seq![NativeCall::<Seq<char>>::Release { object: registry.tasks[identifier] }]
                } else {
                    Seq::empty()
                }) + seq![
                    NativeCall::SetExpirationHandler {
                        task,
                        identifier,
                        mode: "continued_processing"@,
                    },
                ] + (if retained == 0 {
                    Seq::empty()
                } else if (device.reply)(query) == NativeReply::<Seq<char>>::Flag(false) {
                    seq![query]
                } else if progress == 0 {
                    seq![query, NativeCall::TaskProgress { task: retained }]
                } else {
                    seq![
                        query,
                        NativeCall::TaskProgress { task: retained },
                        NativeCall::SetTotalUnitCount { progress, total: 100 },
                        NativeCall::SetCompletedUnitCount { progress, completed: 1 },
                    ]
                })
            }
        }),
{
    law_launch(task, registry, device);
    let retained = (device.reply)(NativeCall::Retain { object: task })->Object_0;
    let query = NativeCall::<Seq<char>>::ObjectResponds {
        object: retained,
        selector: NativeSelector::Progress,
    };
    assert(answers(query, (device.reply)(query)));
}

/// The end of an activity, told by the replies of the device alone. A task that was launched
/// for the run is completed with the success of the run and then released, once each; the
/// finite background task of the run is ended, if it has a valid number and there is an
/// application to end it on; and neither the task nor the handler of the run is left, while
/// everything else in the registry stays.
pub proof fn law_finish_in_full<H>(
    request: FinishRequestView,
    registry: RegistryView<H>,
    device: Device,
)
    requires
        device.well_behaved(),
    ensures
        ({
            let (run, begun, next) = (FinishRunView { request, step: FinishStep::Over }).begins(
                registry,
            );
            let (calls, after) = run_finish(run, begun, next, device);
            let identifier = request.continued_identifier->0;
            let task = registry.tasks[identifier];
            let number = request.finite_background_task->0;
            let lookup = NativeCall::<Seq<char>>::LookupClass { class: NativeClass::Application };
            let class = (device.reply)(lookup)->Object_0;
            let application = (device.reply)(NativeCall::SharedApplication { class })->Object_0;
            &&& after.registered == registry.registered
            &&& if request.continued_identifier is Some {
                &&& after.tasks == registry.tasks.remove(identifier)
                &&& after.handlers == registry.handlers.remove(identifier)
            } else {
                after.tasks == registry.tasks && after.handlers == registry.handlers
            }
            &&& calls == (if request.continued_identifier is Some && registry.tasks.contains_key(
                identifier,
            ) && task != 0 {
                seq![
                    NativeCall::<Seq<char>>::SetTaskCompleted { task, success: request.success },
                    NativeCall::Release { object: task },
                ]
            } else {
                Seq::empty()
            }) + (if request.finite_background_task is None || number == -1 {
                Seq::empty()
            } else if class == 0 {
                seq![lookup]
            } else if application == 0 {
                seq![lookup, NativeCall::SharedApplication { class }]
            } else {
                seq![
                    lookup,
                    NativeCall::SharedApplication { class },
                    NativeCall::EndBackgroundTask { application, task: number },
                ]
            })
        }),
{
    law_finish(request, registry, device);
}

} // verus!
