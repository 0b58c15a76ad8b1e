//! The attempt to keep a run alive by a finite background task.

use std::sync::Arc;

use vstd::prelude::*;

use crate::activity::{
    ActivityView, ExpirationView, IosAgentBackgroundActivity, IosAgentBackgroundExpiration,
    IosAgentBackgroundStartReport, StartReportView, BACKGROUND_TASK_INVALID,
    FINITE_BACKGROUND_TASK_MODE,
};
use crate::begin::{start_next, Start, StartView};
use crate::native::{
    answers, optional_text, Device, NativeCall, NativeClass, NativeReply, Next, Phase,
};
use crate::queries::{
    application_error_text, application_of, ApplicationError, ApplicationQuery,
};

verus! {

/// Why no finite background task began.
#[derive(Debug, Clone, Copy, PartialEq, Eq, Structural)]
pub enum FiniteTaskError {
    /// There is no application.
    Application(ApplicationError),
    /// The system did not begin the task.
    InvalidTask,
}

/// The text of an error.
pub open spec fn finite_task_error_text(error: FiniteTaskError) -> Seq<char> {
    match error {
        FiniteTaskError::Application(error) => application_error_text(error),
        FiniteTaskError::InvalidTask =>
            "UIApplication.beginBackgroundTask returned invalid identifier"@,
    }
}

impl FiniteTaskError {
    /// The text of the error.
    pub fn message(&self) -> (message: String)
        ensures
            message@ == finite_task_error_text(*self),
    {
        match self {
            FiniteTaskError::Application(error) => error.message(),
            FiniteTaskError::InvalidTask =>
                "UIApplication.beginBackgroundTask returned invalid identifier".to_string(),
        }
    }
}

/// What the system is given to fire when a finite background task expires: the handler that
/// is called each time, and what the handler is told.
pub struct ExpirationBlock<H: ?Sized> {
    pub on_expiration: Arc<H>,
    pub expiration: IosAgentBackgroundExpiration,
}

/// The contents of a block.
pub struct ExpirationBlockView<H: ?Sized> {
    pub on_expiration: Arc<H>,
    pub expiration: ExpirationView,
}

impl<H: ?Sized> View for ExpirationBlock<H> {
    type V = ExpirationBlockView<H>;

    open spec fn view(&self) -> ExpirationBlockView<H> {
        ExpirationBlockView {
            on_expiration: self.on_expiration,
            expiration: self.expiration@,
        }
    }
}

impl<H: ?Sized> ExpirationBlock<H> {
    /// The one call that is to be made each time the system fires the block: the handler
    /// to call, and what to call it with.
    pub fn fire(&self) -> (invocation: (Arc<H>, IosAgentBackgroundExpiration))
        ensures
            invocation.0 == self@.on_expiration,
            invocation.1@ == self@.expiration,
    {
        let identifier: Option<String> = match &self.expiration.identifier {
            Some(identifier) => Some(identifier.clone()),
            None => None,
        };
        let expiration = IosAgentBackgroundExpiration {
            mode: self.expiration.mode.clone(),
            identifier,
        };
        (self.on_expiration.clone(), expiration)
    }
}

/// The block of a finite background task: it calls the given handler, and tells it the mode
/// and no identifier.
pub open spec fn finite_block<H: ?Sized>(on_expiration: Arc<H>) -> ExpirationBlockView<H> {
    ExpirationBlockView {
        on_expiration,
        expiration: ExpirationView { mode: FINITE_BACKGROUND_TASK_MODE@, identifier: None },
    }
}

/// The call that begins a finite background task.
pub open spec fn begin_task_call(application: usize, title: Seq<char>) -> NativeCall<Seq<char>> {
    NativeCall::BeginBackgroundTask {
        application,
        name: title,
        expiration_mode: FINITE_BACKGROUND_TASK_MODE@,
        expiration_identifier: None,
    }
}

/// The start of a run whose finite background task has begun.
pub open spec fn finite_start(
    task: isize,
    system_version: Seq<char>,
    fallback_reason: Option<Seq<char>>,
) -> (ActivityView, StartReportView) {
    (
        ActivityView {
            mode: FINITE_BACKGROUND_TASK_MODE@,
            continued_identifier: None,
            finite_background_task: Some(task),
            finished: false,
        },
        StartReportView {
            mode: FINITE_BACKGROUND_TASK_MODE@,
            identifier: None,
            system_version,
            continued_processing_available: false,
            fallback_reason,
        },
    )
}

/// The finite background task that a device begins, or why it begins none.
pub open spec fn finite_task_on(device: Device, title: Seq<char>) -> Result<
    isize,
    FiniteTaskError,
> {
    match application_of(device) {
        Err(error) => Err(FiniteTaskError::Application(error)),
        Ok(application) => {
            let task = (device.reply)(begin_task_call(application, title))->Task_0;
            if task == BACKGROUND_TASK_INVALID {
                Err(FiniteTaskError::InvalidTask)
            } else {
                Ok(task)
            }
        },
    }
}

/// How far an attempt has come.
#[derive(Debug, Clone, Copy, PartialEq, Eq, Structural)]
pub enum FiniteStep {
    /// The shared application is being asked for.
    Application(ApplicationQuery),
    /// The task is being begun.
    Task,
    /// The attempt is over.
    Over,
}

/// The attempt to begin a finite background task. Texts are of type `S`.
pub struct FiniteAttempt<H: ?Sized, S> {
    /// The name of the task.
    pub title: S,
    /// The handler that is called when the task expires.
    pub on_expiration: Arc<H>,
    /// The version of the system, for the report.
    pub system_version: S,
    /// Why there is no continued-processing task, for the report.
    pub fallback_reason: Option<S>,
    /// How far the attempt has come.
    pub step: FiniteStep,
}

impl<H: ?Sized> View for FiniteAttempt<H, String> {
    type V = FiniteAttempt<H, Seq<char>>;

    open spec fn view(&self) -> FiniteAttempt<H, Seq<char>> {
        FiniteAttempt {
            title: self.title@,
            on_expiration: self.on_expiration,
            system_version: self.system_version@,
            fallback_reason: optional_text(self.fallback_reason),
            step: self.step,
        }
    }
}

/// How an attempt begins.
pub open spec fn finite_attempt<H: ?Sized>(
    title: Seq<char>,
    on_expiration: Arc<H>,
    system_version: Seq<char>,
    fallback_reason: Option<Seq<char>>,
) -> FiniteAttempt<H, Seq<char>> {
    FiniteAttempt {
        title,
        on_expiration,
        system_version,
        fallback_reason,
        step: FiniteStep::Application(ApplicationQuery::Class),
    }
}

/// An attempt, and what it wants next.
pub type FiniteTransition<H> = (FiniteAttempt<H, Seq<char>>, Next<Seq<char>, StartView>);

impl<H: ?Sized> FiniteAttempt<H, Seq<char>> {
    /// The attempt at another step.
    pub open spec fn at(self, step: FiniteStep) -> FiniteAttempt<H, Seq<char>> {
        FiniteAttempt { step, ..self }
    }

    /// Whether the attempt can go on with a reply.
    pub open spec fn awaits(self, reply: NativeReply<Seq<char>>) -> bool {
        match self.step {
            FiniteStep::Application(query) => query.awaits(reply),
            FiniteStep::Task => reply is Task,
            FiniteStep::Over => false,
        }
    }

    /// The block that the task is begun with, while the task is being begun: it calls the
    /// handler of the attempt.
    pub open spec fn block(self) -> Option<ExpirationBlockView<H>> {
        if self.step is Task {
            Some(finite_block(self.on_expiration))
        } else {
            None
        }
    }

    /// How the attempt goes on from a phase of the question for the application.
    pub open spec fn after_application(
        self,
        phase: Phase<ApplicationQuery, Seq<char>, Result<usize, ApplicationError>>,
    ) -> FiniteTransition<H> {
        match phase {
            Phase::Ask(query, call) => (
                self.at(FiniteStep::Application(query)),
                Next::Call(call),
            ),
            Phase::Done(Err(error)) => (
                self.at(FiniteStep::Over),
                Next::Done(Err(finite_task_error_text(FiniteTaskError::Application(error)))),
            ),
            Phase::Done(Ok(application)) => (
                self.at(FiniteStep::Task),
                Next::Call(begin_task_call(application, self.title)),
            ),
        }
    }

    /// How the attempt goes on with a reply.
    pub open spec fn after(self, reply: NativeReply<Seq<char>>) -> FiniteTransition<H> {
        match self.step {
            FiniteStep::Application(query) => self.after_application(query.after(reply)),
            FiniteStep::Task => (
                self.at(FiniteStep::Over),
                Next::Done(
                    if reply->Task_0 == BACKGROUND_TASK_INVALID {
                        Err(finite_task_error_text(FiniteTaskError::InvalidTask))
                    } else {
                        Ok(
                            finite_start(
                                reply->Task_0,
                                self.system_version,
                                self.fallback_reason,
                            ),
                        )
                    },
                ),
            ),
            FiniteStep::Over => arbitrary(),
        }
    }
}

impl<H: ?Sized> FiniteAttempt<H, String> {
    fn resume_after_application(
        &mut self,
        phase: Phase<ApplicationQuery, String, Result<usize, ApplicationError>>,
    ) -> (next: Next<String, Start>)
        ensures
            (final(self)@, start_next(next)) == old(self)@.after_application(phase@),
    {
        match phase {
            Phase::Ask(query, call) => {
                self.step = FiniteStep::Application(query);
                Next::Call(call)
            },
            Phase::Done(Err(error)) => {
                self.step = FiniteStep::Over;
                Next::Done(Err(FiniteTaskError::Application(error).message()))
            },
            Phase::Done(Ok(application)) => {
                self.step = FiniteStep::Task;
                Next::Call(
                    NativeCall::BeginBackgroundTask {
                        application,
                        name: self.title.clone(),
                        expiration_mode: FINITE_BACKGROUND_TASK_MODE.to_string(),
                        expiration_identifier: None,
                    },
                )
            },
        }
    }

    fn started(&self, task: isize) -> (start: Start)
        ensures
            start matches Ok((activity, report)) && (activity@, report@) == finite_start(
                task,
                self@.system_version,
                self@.fallback_reason,
            ),
    {
        let fallback_reason: Option<String> = match &self.fallback_reason {
            Some(reason) => Some(reason.clone()),
            None => None,
        };
        let activity = IosAgentBackgroundActivity {
            mode: FINITE_BACKGROUND_TASK_MODE.to_string(),
            continued_identifier: None,
            finite_background_task: Some(task),
            finished: false,
        };
        let report = IosAgentBackgroundStartReport {
            mode: FINITE_BACKGROUND_TASK_MODE.to_string(),
            identifier: None,
            system_version: self.system_version.clone(),
            continued_processing_available: false,
            fallback_reason,
        };
        Ok((activity, report))
    }

    /// The block that the task has to be begun with, while the task is being begun.
    pub fn expiration_block(&self) -> (block: Option<ExpirationBlock<H>>)
        ensures
            match block {
                Some(block) => self@.block() == Some(block@),
                None => self@.block() is None,
            },
    {
        match self.step {
            FiniteStep::Task => Some(
                ExpirationBlock {
                    on_expiration: self.on_expiration.clone(),
                    expiration: IosAgentBackgroundExpiration {
                        mode: FINITE_BACKGROUND_TASK_MODE.to_string(),
                        identifier: None,
                    },
                },
            ),
            _ => None,
        }
    }

    /// Goes on with the reply to the call that was handed out last. The call that begins
    /// the task is handed out together with the block that calls the handler of the attempt.
    pub fn resume(&mut self, reply: NativeReply<String>) -> (next: Next<String, Start>)
        requires
            old(self)@.awaits(reply@),
        ensures
            (final(self)@, start_next(next)) == old(self)@.after(reply@),
            next matches Next::Call(call) ==> forall|later: NativeReply<Seq<char>>|
                answers(call@, later) ==> final(self)@.awaits(later),
            next matches Next::Call(call) ==> final(self)@.block() == (
            if call@ is BeginBackgroundTask {
                Some(finite_block(old(self)@.on_expiration))
            } else {
                None
            }),
    {
        match (self.step, reply) {
            (FiniteStep::Application(query), reply) => self.resume_after_application(
                query.resume(reply),
            ),
            (FiniteStep::Task, NativeReply::Task(task)) => {
                self.step = FiniteStep::Over;
                if task == BACKGROUND_TASK_INVALID {
                    Next::Done(Err(FiniteTaskError::InvalidTask.message()))
                } else {
                    Next::Done(self.started(task))
                }
            },
            _ => Next::Done(Err(String::new())),
        }
    }
}

/// Begins an attempt. The first reply is awaited for the call that is returned.
pub fn begin_finite_background_task<H: ?Sized>(
    title: String,
    on_expiration: Arc<H>,
    system_version: String,
    fallback_reason: Option<String>,
) -> (begun: (FiniteAttempt<H, String>, NativeCall<String>))
    ensures
        begun.0@ == finite_attempt(
            title@,
            on_expiration,
            system_version@,
            optional_text(fallback_reason),
        ),
        begun.1@ == (NativeCall::<Seq<char>>::LookupClass { class: NativeClass::Application }),
        forall|reply: NativeReply<Seq<char>>|
            answers(begun.1@, reply) ==> begun.0@.awaits(reply),
{
    let attempt = FiniteAttempt {
        title,
        on_expiration,
        system_version,
        fallback_reason,
        step: FiniteStep::Application(ApplicationQuery::Class),
    };
    (attempt, NativeCall::LookupClass { class: NativeClass::Application })
}

/// An attempt to begin a finite background task asks for the application, begins the task
/// under the given title, and starts with the number that the system gives for it: the report
/// passes the version and the reason through. It fails exactly without an application or with
/// the number -1. While the task is being begun, its block calls the handler of the attempt
/// and tells it the mode `finite_background_task` and no identifier.
pub proof fn law_finite_attempt_in_full<H: ?Sized>(
    title: Seq<char>,
    on_expiration: Arc<H>,
    system_version: Seq<char>,
    fallback_reason: Option<Seq<char>>,
    class: usize,
    application: usize,
    number: isize,
)
    ensures
        ({
            let asked = finite_attempt(title, on_expiration, system_version, fallback_reason);
            let (asking, next) = asked.after(NativeReply::Object(class));
            let (beginning, later) = asking.after(NativeReply::Object(application));
            let (_, last) = beginning.after(NativeReply::Task(number));
            &&& asked.block() is None
            &&& class == 0 ==> next == Next::<Seq<char>, StartView>::Done(
                Err("UIApplication class is unavailable"@),
            )
            &&& class != 0 ==> {
                &&& next == Next::<Seq<char>, StartView>::Call(
                    NativeCall::SharedApplication { class },
                )
                &&& asking.block() is None
                &&& application == 0 ==> later == Next::<Seq<char>, StartView>::Done(
                    Err("UIApplication.sharedApplication returned null"@),
                )
                &&& application != 0 ==> {
                    &&& later == Next::<Seq<char>, StartView>::Call(
                        NativeCall::BeginBackgroundTask {
                            application,
                            name: title,
                            expiration_mode: "finite_background_task"@,
                            expiration_identifier: None,
                        },
                    )
                    &&& beginning.block() is Some
                    &&& beginning.block()->0.on_expiration == on_expiration
                    &&& beginning.block()->0.expiration.mode == "finite_background_task"@
                    &&& beginning.block()->0.expiration.identifier is None
                    &&& last == Next::<Seq<char>, StartView>::Done(
                        if number == -1 {
                            Err("UIApplication.beginBackgroundTask returned invalid identifier"@)
                        } else {
                            Ok(
                                (
                                    ActivityView {
                                        mode: "finite_background_task"@,
                                        continued_identifier: None,
                                        finite_background_task: Some(number),
                                        finished: false,
                                    },
                                    StartReportView {
                                        mode: "finite_background_task"@,
                                        identifier: None,
                                        system_version,
                                        continued_processing_available: false,
                                        fallback_reason,
                                    },
                                ),
                            )
                        },
                    )
                }
            }
        }),
{
}

} // verus!
