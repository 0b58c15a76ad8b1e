//! The end of a run's background activity.

use vstd::prelude::*;

use crate::activity::BACKGROUND_TASK_INVALID;
use crate::native::{answers, optional_text, NativeCall, NativeReply, Next, Phase};
use crate::queries::{
    application_query, shared_application, ApplicationError, ApplicationQuery,
};
use crate::registry::{
    entry, remove_expiration_handler, take_continued_processing_task, BackgroundRegistry,
    RegistryView,
};

verus! {

/// What has to be brought to an end for a run.
#[derive(Debug, PartialEq)]
pub struct FinishRequest {
    /// The identifier of its continued-processing task, if it has one.
    pub continued_identifier: Option<String>,
    /// The number of its finite background task, if it has one.
    pub finite_background_task: Option<isize>,
    /// Whether the run has succeeded.
    pub success: bool,
}

/// The contents of a request.
pub struct FinishRequestView {
    pub continued_identifier: Option<Seq<char>>,
    pub finite_background_task: Option<isize>,
    pub success: bool,
}

impl View for FinishRequest {
    type V = FinishRequestView;

    open spec fn view(&self) -> FinishRequestView {
        FinishRequestView {
            continued_identifier: optional_text(self.continued_identifier),
            finite_background_task: self.finite_background_task,
            success: self.success,
        }
    }
}

/// How far the end has come.
#[derive(Debug, Clone, Copy, PartialEq, Eq, Structural)]
pub enum FinishStep {
    /// The launched task is being completed.
    Completing { task: usize },
    /// The launched task is being released.
    Releasing,
    /// The application is being asked for, to end a finite background task on it.
    Application { task: isize, query: ApplicationQuery },
    /// The finite background task is being ended.
    Ending,
    /// The activity has ended.
    Over,
}

/// The end of a run's background activity.
#[derive(Debug, PartialEq)]
pub struct FinishRun {
    pub request: FinishRequest,
    pub step: FinishStep,
}

/// The contents of an end.
pub struct FinishRunView {
    pub request: FinishRequestView,
    pub step: FinishStep,
}

impl View for FinishRun {
    type V = FinishRunView;

    open spec fn view(&self) -> FinishRunView {
        FinishRunView { request: self.request@, step: self.step }
    }
}

/// An end, the registry, and what the end wants next.
pub type FinishTransition<H> = (FinishRunView, RegistryView<H>, Next<Seq<char>, ()>);

impl FinishRunView {
    /// The end at a step, with the call whose reply it waits for there.
    pub open spec fn asks(self, step: FinishStep, call: NativeCall<Seq<char>>) -> (
        FinishRunView,
        Next<Seq<char>, ()>,
    ) {
        (FinishRunView { step, ..self }, Next::Call(call))
    }

    /// The end, come to its end.
    pub open spec fn ends(self) -> (FinishRunView, Next<Seq<char>, ()>) {
        (FinishRunView { step: FinishStep::Over, ..self }, Next::Done(()))
    }

    /// Whether the end can go on with a reply.
    pub open spec fn awaits(self, reply: NativeReply<Seq<char>>) -> bool {
        match self.step {
            FinishStep::Completing { .. } => reply is Done,
            FinishStep::Releasing => reply is Done,
            FinishStep::Application { query, .. } => query.awaits(reply),
            FinishStep::Ending => reply is Done,
            FinishStep::Over => false,
        }
    }

    /// How the end goes on from a phase of the question for the application: without an
    /// application there is nothing to end the task on.
    pub open spec fn after_application(
        self,
        task: isize,
        phase: Phase<ApplicationQuery, Seq<char>, Result<usize, ApplicationError>>,
    ) -> (FinishRunView, Next<Seq<char>, ()>) {
        match phase {
            Phase::Ask(query, call) => self.asks(FinishStep::Application { task, query }, call),
            Phase::Done(Ok(application)) => self.asks(
                FinishStep::Ending,
                NativeCall::EndBackgroundTask { application, task },
            ),
            Phase::Done(Err(_)) => self.ends(),
        }
    }

    /// How the end goes on once the continued-processing task is dealt with: a finite
    /// background task that has begun is ended.
    pub open spec fn after_continued(self) -> (FinishRunView, Next<Seq<char>, ()>) {
        match self.request.finite_background_task {
            Some(task) => if task == BACKGROUND_TASK_INVALID {
                self.ends()
            } else {
                self.after_application(task, application_query())
            },
            None => self.ends(),
        }
    }

    /// How the end begins: the launched task is taken out of the registry and completed.
    /// Where there is none, the expiration handler is taken out at once.
    pub open spec fn begins<H>(self, registry: RegistryView<H>) -> FinishTransition<H> {
        match self.request.continued_identifier {
            Some(identifier) => {
                let task = entry(registry.tasks, identifier);
                let registry = RegistryView {
                    tasks: registry.tasks.remove(identifier),
                    ..registry
                };
                if task is Some && task->0 != 0 {
                    let (run, next) = self.asks(
                        FinishStep::Completing { task: task->0 },
                        NativeCall::SetTaskCompleted {
                            task: task->0,
                            success: self.request.success,
                        },
                    );
                    (run, registry, next)
                } else {
                    let (run, next) = self.after_continued();
                    (run, registry.without_handler(identifier), next)
                }
            },
            None => {
                let (run, next) = self.after_continued();
                (run, registry, next)
            },
        }
    }

    /// How the end goes on with a reply. Once the launched task is released, the
    /// expiration handler is taken out of the registry.
    pub open spec fn after<H>(
        self,
        registry: RegistryView<H>,
        reply: NativeReply<Seq<char>>,
    ) -> FinishTransition<H> {
        match self.step {
            FinishStep::Completing { task } => {
                let (run, next) = self.asks(
                    FinishStep::Releasing,
                    NativeCall::Release { object: task },
                );
                (run, registry, next)
            },
            FinishStep::Releasing => {
                let (run, next) = self.after_continued();
                match self.request.continued_identifier {
                    Some(identifier) => (run, registry.without_handler(identifier), next),
                    None => (run, registry, next),
                }
            },
            FinishStep::Application { task, query } => {
                let (run, next) = self.after_application(task, query.after(reply));
                (run, registry, next)
            },
            FinishStep::Ending => {
                let (run, next) = self.ends();
                (run, registry, next)
            },
            FinishStep::Over => arbitrary(),
        }
    }
}

impl FinishRun {
    fn ask(&mut self, step: FinishStep, call: NativeCall<String>) -> (next: Next<String, ()>)
        ensures
            (final(self)@, next@) == old(self)@.asks(step, call@),
    {
        self.step = step;
        Next::Call(call)
    }

    fn end(&mut self) -> (next: Next<String, ()>)
        ensures
            (final(self)@, next@) == old(self)@.ends(),
    {
        self.step = FinishStep::Over;
        Next::Done(())
    }

    fn resume_after_application(
        &mut self,
        task: isize,
        phase: Phase<ApplicationQuery, String, Result<usize, ApplicationError>>,
    ) -> (next: Next<String, ()>)
        ensures
            (final(self)@, next@) == old(self)@.after_application(task, phase@),
    {
        match phase {
            Phase::Ask(query, call) => self.ask(FinishStep::Application { task, query }, call),
            Phase::Done(Ok(application)) => self.ask(
                FinishStep::Ending,
                NativeCall::EndBackgroundTask { application, task },
            ),
            Phase::Done(Err(_)) => self.end(),
        }
    }

    /// Ends the finite background task of the run, if it has one.
    fn end_finite_background_task(&mut self) -> (next: Next<String, ()>)
        ensures
            (final(self)@, next@) == old(self)@.after_continued(),
    {
        match self.request.finite_background_task {
            Some(task) => if task == BACKGROUND_TASK_INVALID {
                self.end()
            } else {
                self.resume_after_application(task, shared_application())
            },
            None => self.end(),
        }
    }

    /// Completes the launched task of the run, if there is one.
    fn complete_continued_processing_task<H>(
        &mut self,
        registry: &mut BackgroundRegistry<H>,
    ) -> (next: Next<String, ()>)
        ensures
            (final(self)@, final(registry)@, next@) == old(self)@.begins(old(registry)@),
    {
        match &self.request.continued_identifier {
            Some(identifier) => {
                let task: Option<usize> = take_continued_processing_task(
                    &mut registry.tasks,
                    identifier.as_str(),
                );
                match task {
                    Some(task) if task != 0 => {
                        let success: bool = self.request.success;
                        self.ask(
                            FinishStep::Completing { task },
                            NativeCall::SetTaskCompleted { task, success },
                        )
                    },
                    _ => {
                        remove_expiration_handler(&mut registry.handlers, identifier.as_str());
                        self.end_finite_background_task()
                    },
                }
            },
            None => self.end_finite_background_task(),
        }
    }

    /// Goes on with the reply to the call that was handed out last.
    pub fn resume<H>(
        &mut self,
        registry: &mut BackgroundRegistry<H>,
        reply: NativeReply<String>,
    ) -> (next: Next<String, ()>)
        requires
            old(self)@.awaits(reply@),
        ensures
            (final(self)@, final(registry)@, next@) == old(self)@.after(old(registry)@, reply@),
            next matches Next::Call(call) ==> forall|later: NativeReply<Seq<char>>|
                answers(call@, later) ==> final(self)@.awaits(later),
    {
        match self.step {
            FinishStep::Completing { task } => self.ask(
                FinishStep::Releasing,
                NativeCall::Release { object: task },
            ),
            FinishStep::Releasing => {
                if let Some(identifier) = &self.request.continued_identifier {
                    remove_expiration_handler(&mut registry.handlers, identifier.as_str());
                }
                self.end_finite_background_task()
            },
            FinishStep::Application { task, query } => {
                let phase = query.resume(reply);
                self.resume_after_application(task, phase)
            },
            FinishStep::Ending => self.end(),
            FinishStep::Over => Next::Done(()),
        }
    }
}

/// Begins to bring a run's activity to its end on the main thread.
pub fn finish_on_main_thread<H>(
    request: FinishRequest,
    registry: &mut BackgroundRegistry<H>,
) -> (begun: (FinishRun, Next<String, ()>))
    ensures
        (begun.0@, final(registry)@, begun.1@) == (FinishRunView {
            request: request@,
            step: FinishStep::Over,
        }).begins(old(registry)@),
        begun.1 matches Next::Call(call) ==> forall|reply: NativeReply<Seq<char>>|
            answers(call@, reply) ==> begun.0@.awaits(reply),
{
    let mut run = FinishRun { request, step: FinishStep::Over };
    let next = run.complete_continued_processing_task(registry);
    (run, next)
}

} // verus!
