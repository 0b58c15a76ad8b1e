//! The launch of a continued-processing task by the system.

use vstd::prelude::*;

use crate::activity::CONTINUED_PROCESSING_MODE;
use crate::native::{answers, optional_text, NativeCall, NativeReply, Next, Phase};
use crate::progress::{
    progress_update, update_continued_processing_progress, ProgressUpdate, LAUNCHED_UNITS,
    TOTAL_UNITS,
};
use crate::registry::{
    entry, has_expiration_handler, retain_continued_processing_task, BackgroundRegistry,
    RegistryView,
};

verus! {

/// How far the handling of a launch has come.
#[derive(Debug, PartialEq)]
pub enum LaunchStep<S> {
    /// The identifier of the task has been asked for.
    Identifier { task: usize },
    /// The task of a run that is not waiting for it is being completed.
    Rejecting,
    /// The task is being retained.
    Retaining { task: usize, identifier: S },
    /// The task that stood under the identifier before is being released.
    ReleasingPrevious { task: usize, identifier: S },
    /// The task is being told what to do when it expires.
    SettingHandler { identifier: S },
    /// The first progress is being shown.
    Progress { update: ProgressUpdate },
    /// The launch is handled.
    Over,
}

/// The handling of a launch.
#[derive(Debug, PartialEq)]
pub struct LaunchRun {
    pub step: LaunchStep<String>,
}

impl View for LaunchRun {
    type V = LaunchStep<Seq<char>>;

    open spec fn view(&self) -> LaunchStep<Seq<char>> {
        match self.step {
            LaunchStep::Identifier { task } => LaunchStep::Identifier { task },
            LaunchStep::Rejecting => LaunchStep::Rejecting,
            LaunchStep::Retaining { task, identifier } =>
                LaunchStep::Retaining { task, identifier: identifier@ },
            LaunchStep::ReleasingPrevious { task, identifier } =>
                LaunchStep::ReleasingPrevious { task, identifier: identifier@ },
            LaunchStep::SettingHandler { identifier } =>
                LaunchStep::SettingHandler { identifier: identifier@ },
            LaunchStep::Progress { update } => LaunchStep::Progress { update },
            LaunchStep::Over => LaunchStep::Over,
        }
    }
}

/// The handling of a launch, the registry, and what the handling wants next.
pub type LaunchTransition<H> = (LaunchStep<Seq<char>>, RegistryView<H>, Next<Seq<char>, ()>);

/// How the handling of a launch begins: without a task there is nothing to handle.
pub open spec fn launch_of(task: usize) -> (LaunchStep<Seq<char>>, Next<Seq<char>, ()>) {
    if task == 0 {
        (LaunchStep::Over, Next::Done(()))
    } else {
        (LaunchStep::Identifier { task }, Next::Call(NativeCall::TaskIdentifier { task }))
    }
}

/// The call that tells a task what to do when it expires.
pub open spec fn expiration_call(task: usize, identifier: Seq<char>) -> NativeCall<Seq<char>> {
    NativeCall::SetExpirationHandler { task, identifier, mode: CONTINUED_PROCESSING_MODE@ }
}

impl LaunchStep<Seq<char>> {
    /// Whether the handling can go on with a reply.
    pub open spec fn awaits(self, reply: NativeReply<Seq<char>>) -> bool {
        match self {
            LaunchStep::Identifier { .. } => reply is Text,
            LaunchStep::Rejecting => reply is Done,
            LaunchStep::Retaining { .. } => reply is Object,
            LaunchStep::ReleasingPrevious { .. } => reply is Done,
            LaunchStep::SettingHandler { .. } => reply is Done,
            LaunchStep::Progress { update } => update.awaits(reply),
            LaunchStep::Over => false,
        }
    }

    /// How the handling goes on once the identifier is told: a task without one is left
    /// alone, the task of a run that has no handler is completed without success, and
    /// any other task is retained.
    pub open spec fn after_identifier<H>(
        task: usize,
        registry: RegistryView<H>,
        identifier: Option<Seq<char>>,
    ) -> LaunchTransition<H> {
        if identifier is None || identifier->0.len() == 0 {
            (LaunchStep::Over, registry, Next::Done(()))
        } else if !registry.handlers.contains_key(identifier->0) {
            (
                LaunchStep::Rejecting,
                registry,
                Next::Call(NativeCall::SetTaskCompleted { task, success: false }),
            )
        } else {
            (
                LaunchStep::Retaining { task, identifier: identifier->0 },
                registry,
                Next::Call(NativeCall::Retain { object: task }),
            )
        }
    }

    /// How the handling goes on once the task is retained: it stands under its identifier,
    /// and a task that it took the place of is released.
    pub open spec fn after_retaining<H>(
        task: usize,
        identifier: Seq<char>,
        registry: RegistryView<H>,
        retained: usize,
    ) -> LaunchTransition<H> {
        let previous = entry(registry.tasks, identifier);
        let registry = RegistryView {
            tasks: registry.tasks.insert(identifier, retained),
            ..registry
        };
        if previous is Some && previous->0 != 0 {
            (
                LaunchStep::ReleasingPrevious { task, identifier },
                registry,
                Next::Call(NativeCall::Release { object: previous->0 }),
            )
        } else {
            (
                LaunchStep::SettingHandler { identifier },
                registry,
                Next::Call(expiration_call(task, identifier)),
            )
        }
    }

    /// How the handling goes on from a phase of showing progress.
    pub open spec fn after_progress(phase: Phase<ProgressUpdate, Seq<char>, ()>) -> (
        LaunchStep<Seq<char>>,
        Next<Seq<char>, ()>,
    ) {
        match phase {
            Phase::Ask(update, call) => (LaunchStep::Progress { update }, Next::Call(call)),
            Phase::Done(()) => (LaunchStep::Over, Next::Done(())),
        }
    }

    /// How the handling goes on with a reply.
    pub open spec fn after<H>(
        self,
        registry: RegistryView<H>,
        reply: NativeReply<Seq<char>>,
    ) -> LaunchTransition<H> {
        match self {
            LaunchStep::Identifier { task } => Self::after_identifier(
                task,
                registry,
                reply->Text_0,
            ),
            LaunchStep::Rejecting => (LaunchStep::Over, registry, Next::Done(())),
            LaunchStep::Retaining { task, identifier } => Self::after_retaining(
                task,
                identifier,
                registry,
                reply->Object_0,
            ),
            LaunchStep::ReleasingPrevious { task, identifier } => (
                LaunchStep::SettingHandler { identifier },
                registry,
                Next::Call(expiration_call(task, identifier)),
            ),
            LaunchStep::SettingHandler { identifier } => {
                let (step, next) = Self::after_progress(
                    progress_update(registry.tasks, identifier, LAUNCHED_UNITS, TOTAL_UNITS),
                );
                (step, registry, next)
            },
            LaunchStep::Progress { update } => {
                let (step, next) = Self::after_progress(update.after(reply));
                (step, registry, next)
            },
            LaunchStep::Over => arbitrary(),
        }
    }
}

impl LaunchRun {
    fn set_handler(&mut self, task: usize, identifier: String) -> (next: Next<String, ()>)
        ensures
            final(self)@ == (LaunchStep::<Seq<char>>::SettingHandler { identifier: identifier@ }),
            next@ == Next::<Seq<char>, ()>::Call(expiration_call(task, identifier@)),
    {
        let call = NativeCall::SetExpirationHandler {
            task,
            identifier: identifier.clone(),
            mode: CONTINUED_PROCESSING_MODE.to_string(),
        };
        self.step = LaunchStep::SettingHandler { identifier };
        Next::Call(call)
    }

    fn show_progress(&mut self, phase: Phase<ProgressUpdate, String, ()>) -> (next: Next<
        String,
        (),
    >)
        ensures
            (final(self)@, next@) == LaunchStep::<Seq<char>>::after_progress(phase@),
    {
        match phase {
            Phase::Ask(update, call) => {
                self.step = LaunchStep::Progress { update };
                Next::Call(call)
            },
            Phase::Done(()) => {
                self.step = LaunchStep::Over;
                Next::Done(())
            },
        }
    }

    fn resume_after_identifier<H>(
        &mut self,
        task: usize,
        registry: &BackgroundRegistry<H>,
        identifier: Option<String>,
    ) -> (next: Next<String, ()>)
        ensures
            (final(self)@, registry@, next@) == LaunchStep::<Seq<char>>::after_identifier(
                task,
                registry@,
                optional_text(identifier),
            ),
    {
        match identifier {
            None => {
                self.step = LaunchStep::Over;
                Next::Done(())
            },
            Some(identifier) => if identifier.as_str().is_empty() {
                self.step = LaunchStep::Over;
                Next::Done(())
            } else if !has_expiration_handler(&registry.handlers, identifier.as_str()) {
                self.step = LaunchStep::Rejecting;
                Next::Call(NativeCall::SetTaskCompleted { task, success: false })
            } else {
                self.step = LaunchStep::Retaining { task, identifier };
                Next::Call(NativeCall::Retain { object: task })
            },
        }
    }

    /// Goes on with the reply to the call that was handed out last.
    pub fn resume<H>(
        &mut self,
        registry: &mut BackgroundRegistry<H>,
        reply: NativeReply<String>,
    ) -> (next: Next<String, ()>)
        requires
            old(self)@.awaits(reply@),
        ensures
            (final(self)@, final(registry)@, next@) == old(self)@.after(old(registry)@, reply@),
            next matches Next::Call(call) ==> forall|later: NativeReply<Seq<char>>|
                answers(call@, later) ==> final(self)@.awaits(later),
    {
        let mut step: LaunchStep<String> = LaunchStep::Over;
        core::mem::swap(&mut self.step, &mut step);
        match step {
            LaunchStep::Identifier { task } => self.resume_after_identifier(
                task,
                registry,
                reply.into_text(),
            ),
            LaunchStep::Rejecting => Next::Done(()),
            LaunchStep::Retaining { task, identifier } => {
                let previous: Option<usize> = retain_continued_processing_task(
                    &mut registry.tasks,
                    identifier.as_str(),
                    reply.into_object(),
                );
                match previous {
                    Some(previous) if previous != 0 => {
                        self.step = LaunchStep::ReleasingPrevious { task, identifier };
                        Next::Call(NativeCall::Release { object: previous })
                    },
                    _ => self.set_handler(task, identifier),
                }
            },
            LaunchStep::ReleasingPrevious { task, identifier } => self.set_handler(
                task,
                identifier,
            ),
            LaunchStep::SettingHandler { identifier } => {
                let phase = update_continued_processing_progress(
                    &registry.tasks,
                    identifier.as_str(),
                    LAUNCHED_UNITS,
                    TOTAL_UNITS,
                );
                self.show_progress(phase)
            },
            LaunchStep::Progress { update } => self.show_progress(update.resume(reply)),
            LaunchStep::Over => Next::Done(()),
        }
    }
}

/// Begins to handle the launch of a task.
pub fn handle_continued_processing_task(task: usize) -> (begun: (LaunchRun, Next<String, ()>))
    ensures
        (begun.0@, begun.1@) == launch_of(task),
        begun.1 matches Next::Call(call) ==> forall|reply: NativeReply<Seq<char>>|
            answers(call@, reply) ==> begun.0@.awaits(reply),
{
    if task == 0 {
        (LaunchRun { step: LaunchStep::Over }, Next::Done(()))
    } else {
        (
            LaunchRun { step: LaunchStep::Identifier { task } },
            Next::Call(NativeCall::TaskIdentifier { task }),
        )
    }
}

} // verus!
