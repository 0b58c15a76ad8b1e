//! The attempt to keep a run alive by a continued-processing task.

use vstd::prelude::*;

use crate::native::{
    answers, NativeCall, NativeClass, NativeReply, NativeSelector, Next, Phase,
};
use crate::queries::{operating_system_version, VersionQuery};
use crate::registration::{
    ensure_continued_processing_registered, registration, registration_error_text, Registration,
    RegistrationError,
};
use crate::registry::{
    insert_expiration_handler, remove_expiration_handler, BackgroundRegistry, RegistryView,
};
use crate::request::{
    create_continued_processing_request, request_creation, request_error_text, RequestCreation,
    RequestError, RequestTexts, RequestTextsView,
};
use crate::version::{
    offers_continued_processing, unsupported_version_message, unsupported_version_text,
    OperatingSystemVersion, FIRST_CONTINUED_PROCESSING_MAJOR_VERSION,
};

verus! {

/// The description used when the system does not describe why it refused a request.
pub const UNKNOWN_SUBMISSION_ERROR: &'static str = "unknown error";

/// Why no continued-processing task was requested.
#[derive(Debug, PartialEq)]
pub enum Refusal<S> {
    /// The system does not tell its version.
    VersionUnavailable,
    /// The system is too old.
    UnsupportedVersion(OperatingSystemVersion),
    /// The build does not use continued processing.
    Disabled,
    /// The class of requests is missing.
    RequestClassUnavailable,
    /// The class of the scheduler is missing.
    SchedulerClassUnavailable,
    /// The launch handler could not be registered.
    Registration(RegistrationError),
    /// The scheduler has no method to submit a request.
    SubmissionUnavailable,
    /// The request could not be created.
    Request(RequestError),
    /// The scheduler refused the request, for the given reason.
    SubmissionFailed(S),
}

impl View for Refusal<String> {
    type V = Refusal<Seq<char>>;

    open spec fn view(&self) -> Refusal<Seq<char>> {
        match *self {
            Refusal::VersionUnavailable => Refusal::VersionUnavailable,
            Refusal::UnsupportedVersion(version) => Refusal::UnsupportedVersion(version),
            Refusal::Disabled => Refusal::Disabled,
            Refusal::RequestClassUnavailable => Refusal::RequestClassUnavailable,
            Refusal::SchedulerClassUnavailable => Refusal::SchedulerClassUnavailable,
            Refusal::Registration(error) => Refusal::Registration(error),
            Refusal::SubmissionUnavailable => Refusal::SubmissionUnavailable,
            Refusal::Request(error) => Refusal::Request(error),
            Refusal::SubmissionFailed(description) => Refusal::SubmissionFailed(description@),
        }
    }
}

/// The text of a refusal.
pub open spec fn refusal_text(refusal: Refusal<Seq<char>>) -> Seq<char> {
    match refusal {
        Refusal::VersionUnavailable => "NSProcessInfo operatingSystemVersion is unavailable"@,
        Refusal::UnsupportedVersion(version) => unsupported_version_text(version),
        Refusal::Disabled => "ios-bg-continued-processing is disabled in this build"@,
        Refusal::RequestClassUnavailable =>
            "BGContinuedProcessingTaskRequest class is unavailable"@,
        Refusal::SchedulerClassUnavailable => "BGTaskScheduler class is unavailable"@,
        Refusal::Registration(error) => registration_error_text(error),
        Refusal::SubmissionUnavailable =>
            "BGTaskScheduler submitTaskRequest:error: is unavailable"@,
        Refusal::Request(error) => request_error_text(error),
        Refusal::SubmissionFailed(description) =>
            "BGContinuedProcessingTaskRequest submission failed: "@ + description,
    }
}

impl Refusal<String> {
    /// The text of the refusal.
    pub fn message(&self) -> (message: String)
        ensures
            message@ == refusal_text(self@),
    {
        match self {
            Refusal::VersionUnavailable =>
                "NSProcessInfo operatingSystemVersion is unavailable".to_string(),
            Refusal::UnsupportedVersion(version) => unsupported_version_message(*version),
            Refusal::Disabled => "ios-bg-continued-processing is disabled in this build".to_string(),
            Refusal::RequestClassUnavailable =>
                "BGContinuedProcessingTaskRequest class is unavailable".to_string(),
            Refusal::SchedulerClassUnavailable =>
                "BGTaskScheduler class is unavailable".to_string(),
            Refusal::Registration(error) => error.message(),
            Refusal::SubmissionUnavailable =>
                "BGTaskScheduler submitTaskRequest:error: is unavailable".to_string(),
            Refusal::Request(error) => error.message(),
            Refusal::SubmissionFailed(description) => {
                let mut message: String =
                    "BGContinuedProcessingTaskRequest submission failed: ".to_string();
                message.append(description.as_str());
                message
            },
        }
    }
}

/// How far an attempt has come.
#[derive(Debug, Clone, Copy, PartialEq, Eq, Structural)]
pub enum ContinuedStep {
    /// The version of the system is being asked for.
    Version(VersionQuery),
    /// The class of requests has been asked for.
    RequestClass,
    /// The class of the scheduler has been asked for.
    SchedulerClass { request_class: usize },
    /// The shared scheduler has been asked for.
    Scheduler { request_class: usize },
    /// The launch handler is being registered.
    Registering { request_class: usize, scheduler: usize, registration: Registration },
    /// The scheduler has been asked whether requests can be submitted to it.
    SubmitQuery { request_class: usize, scheduler: usize },
    /// The request is being created.
    Creating { scheduler: usize, creation: RequestCreation },
    /// The request has been submitted.
    Submitting { request: usize },
    /// The request is being released.
    Releasing { submitted: bool, error: usize },
    /// The description of the error has been asked for.
    Describing,
    /// The attempt is over.
    Over,
}

/// The attempt to keep a run alive by a continued-processing task.
pub struct ContinuedAttempt<H> {
    /// Whether the build uses continued processing.
    pub enabled: bool,
    /// The expiration handler of the run, until it stands in the registry.
    pub handler: Option<H>,
    /// How far the attempt has come.
    pub step: ContinuedStep,
}

/// The outcome of an attempt: a task was requested, or why none was.
pub type ContinuedOutcome<S> = Result<(), Refusal<S>>;

/// The contents of what an attempt wants next.
pub open spec fn continued_next(next: Next<String, ContinuedOutcome<String>>) -> Next<
    Seq<char>,
    ContinuedOutcome<Seq<char>>,
> {
    match next {
        Next::Call(call) => Next::Call(call@),
        Next::Done(Ok(())) => Next::Done(Ok(())),
        Next::Done(Err(refusal)) => Next::Done(Err(refusal@)),
    }
}

/// An attempt, the registry, and what the attempt wants next.
pub type ContinuedTransition<H> = (
    ContinuedAttempt<H>,
    RegistryView<H>,
    Next<Seq<char>, ContinuedOutcome<Seq<char>>>,
);

/// How an attempt begins.
pub open spec fn continued_attempt<H>(enabled: bool, handler: H) -> ContinuedAttempt<H> {
    ContinuedAttempt {
        enabled,
        handler: Some(handler),
        step: ContinuedStep::Version(VersionQuery::Class),
    }
}

impl<H> ContinuedAttempt<H> {
    /// Whether the attempt can go on with a reply.
    pub open spec fn awaits(self, reply: NativeReply<Seq<char>>) -> bool {
        match self.step {
            ContinuedStep::Version(query) => self.handler is Some && query.awaits(reply),
            ContinuedStep::RequestClass => self.handler is Some && reply is Object,
            ContinuedStep::SchedulerClass { .. } => self.handler is Some && reply is Object,
            ContinuedStep::Scheduler { .. } => self.handler is Some && reply is Object,
            ContinuedStep::Registering { registration, .. } => self.handler is Some
                && registration.awaits(reply),
            ContinuedStep::SubmitQuery { .. } => reply is Flag,
            ContinuedStep::Creating { creation, .. } => creation.awaits(reply),
            ContinuedStep::Submitting { .. } => reply is Submission,
            ContinuedStep::Releasing { .. } => reply is Done,
            ContinuedStep::Describing => reply is Text,
            ContinuedStep::Over => false,
        }
    }

    /// The attempt at a step, with the call whose reply it waits for there.
    pub open spec fn asks(
        self,
        registry: RegistryView<H>,
        step: ContinuedStep,
        call: NativeCall<Seq<char>>,
    ) -> ContinuedTransition<H> {
        (ContinuedAttempt { step, ..self }, registry, Next::Call(call))
    }

    /// The attempt at its end.
    pub open spec fn ends(
        self,
        registry: RegistryView<H>,
        outcome: ContinuedOutcome<Seq<char>>,
    ) -> ContinuedTransition<H> {
        (
            ContinuedAttempt { step: ContinuedStep::Over, ..self },
            registry,
            Next::Done(outcome),
        )
    }

    /// How the attempt goes on once the version is told: a system that offers continued
    /// processing goes on if the build uses it.
    pub open spec fn after_version(
        self,
        registry: RegistryView<H>,
        version: Option<OperatingSystemVersion>,
    ) -> ContinuedTransition<H> {
        match version {
            None => self.ends(registry, Err(Refusal::VersionUnavailable)),
            Some(version) => if !offers_continued_processing(version) {
                self.ends(registry, Err(Refusal::UnsupportedVersion(version)))
            } else if !self.enabled {
                self.ends(registry, Err(Refusal::Disabled))
            } else {
                self.asks(
                    registry,
                    ContinuedStep::RequestClass,
                    NativeCall::LookupClass { class: NativeClass::ContinuedProcessingTaskRequest },
                )
            },
        }
    }

    /// How the attempt goes on from a phase of the registration: once the launch handler
    /// is registered, the expiration handler of the run is put into the registry.
    pub open spec fn after_registration(
        self,
        registry: RegistryView<H>,
        identifier: Seq<char>,
        request_class: usize,
        scheduler: usize,
        phase: Phase<Registration, Seq<char>, Result<(), RegistrationError>>,
    ) -> ContinuedTransition<H> {
        match phase {
            Phase::Ask(registration, call) => self.asks(
                registry,
                ContinuedStep::Registering { request_class, scheduler, registration },
                call,
            ),
            Phase::Done(Err(error)) => self.ends(registry, Err(Refusal::Registration(error))),
            Phase::Done(Ok(())) => (ContinuedAttempt { handler: None, ..self }).asks(
                RegistryView {
                    handlers: registry.handlers.insert(identifier, self.handler->0),
                    registered: true,
                    ..registry
                },
                ContinuedStep::SubmitQuery { request_class, scheduler },
                NativeCall::ObjectResponds {
                    object: scheduler,
                    selector: NativeSelector::SubmitTaskRequest,
                },
            ),
        }
    }

    /// How the attempt goes on from a phase of the creation of the request: where it
    /// fails, the expiration handler is taken out of the registry.
    pub open spec fn after_creation(
        self,
        registry: RegistryView<H>,
        identifier: Seq<char>,
        scheduler: usize,
        phase: Phase<RequestCreation, Seq<char>, Result<usize, RequestError>>,
    ) -> ContinuedTransition<H> {
        match phase {
            Phase::Ask(creation, call) => self.asks(
                registry,
                ContinuedStep::Creating { scheduler, creation },
                call,
            ),
            Phase::Done(Err(error)) => self.ends(
                registry.without_handler(identifier),
                Err(Refusal::Request(error)),
            ),
            Phase::Done(Ok(request)) => self.asks(
                registry,
                ContinuedStep::Submitting { request },
                NativeCall::SubmitRequest { scheduler, request },
            ),
        }
    }

    /// How the attempt goes on with a reply.
    pub open spec fn after(
        self,
        texts: RequestTextsView,
        registry: RegistryView<H>,
        reply: NativeReply<Seq<char>>,
    ) -> ContinuedTransition<H> {
        match self.step {
            ContinuedStep::Version(query) => match query.after(reply) {
                Phase::Ask(query, call) => self.asks(registry, ContinuedStep::Version(query), call),
                Phase::Done(version) => self.after_version(registry, version),
            },
            ContinuedStep::RequestClass => if reply->Object_0 == 0 {
                self.ends(registry, Err(Refusal::RequestClassUnavailable))
            } else {
                self.asks(
                    registry,
                    ContinuedStep::SchedulerClass { request_class: reply->Object_0 },
                    NativeCall::LookupClass { class: NativeClass::TaskScheduler },
                )
            },
            ContinuedStep::SchedulerClass { request_class } => if reply->Object_0 == 0 {
                self.ends(registry, Err(Refusal::SchedulerClassUnavailable))
            } else {
                self.asks(
                    registry,
                    ContinuedStep::Scheduler { request_class },
                    NativeCall::SharedScheduler { class: reply->Object_0 },
                )
            },
            ContinuedStep::Scheduler { request_class } => self.after_registration(
                registry,
                texts.identifier,
                request_class,
                reply->Object_0,
                registration(registry.registered, reply->Object_0),
            ),
            ContinuedStep::Registering { request_class, scheduler, registration } =>
                self.after_registration(
                    registry,
                    texts.identifier,
                    request_class,
                    scheduler,
                    registration.after(reply),
                ),
            ContinuedStep::SubmitQuery { request_class, scheduler } => if reply->Flag_0 {
                self.after_creation(
                    registry,
                    texts.identifier,
                    scheduler,
                    request_creation(request_class),
                )
            } else {
                self.ends(
                    registry.without_handler(texts.identifier),
                    Err(Refusal::SubmissionUnavailable),
                )
            },
            ContinuedStep::Creating { scheduler, creation } => self.after_creation(
                registry,
                texts.identifier,
                scheduler,
                creation.after(texts, reply),
            ),
            ContinuedStep::Submitting { request } => self.asks(
                registry,
                ContinuedStep::Releasing {
                    submitted: reply->submitted,
                    error: reply->error,
                },
                NativeCall::Release { object: request },
            ),
            ContinuedStep::Releasing { submitted, error } => if submitted {
                self.ends(registry, Ok(()))
            } else if error == 0 {
                self.ends(
                    registry.without_handler(texts.identifier),
                    Err(Refusal::SubmissionFailed(UNKNOWN_SUBMISSION_ERROR@)),
                )
            } else {
                self.asks(
                    registry.without_handler(texts.identifier),
                    ContinuedStep::Describing,
                    NativeCall::ErrorDescription { error },
                )
            },
            ContinuedStep::Describing => self.ends(
                registry,
                Err(Refusal::SubmissionFailed(submission_error_text(reply->Text_0))),
            ),
            ContinuedStep::Over => arbitrary(),
        }
    }
}

impl<H> ContinuedAttempt<H> {
    pub(crate) proof fn lemma_awaits(
        self,
        texts: RequestTextsView,
        registry: RegistryView<H>,
        reply: NativeReply<Seq<char>>,
    )
        requires
            self.awaits(reply),
        ensures
            self.after(texts, registry, reply).2 matches Next::Call(call) ==> forall|
                later: NativeReply<Seq<char>>,
            |
                answers(call, later) ==> self.after(texts, registry, reply).0.awaits(later),
    {
    }
}

/// The description of an error, where the system gives one.
pub open spec fn submission_error_text(description: Option<Seq<char>>) -> Seq<char> {
    match description {
        Some(description) => description,
        None => UNKNOWN_SUBMISSION_ERROR@,
    }
}

impl<H> ContinuedAttempt<H> {
    fn ask(&mut self, step: ContinuedStep, call: NativeCall<String>) -> (next: Next<
        String,
        ContinuedOutcome<String>,
    >)
        ensures
            *final(self) == (ContinuedAttempt { step, ..*old(self) }),
            continued_next(next) == Next::<Seq<char>, ContinuedOutcome<Seq<char>>>::Call(call@),
    {
        self.step = step;
        Next::Call(call)
    }

    fn refuse(&mut self, refusal: Refusal<String>) -> (next: Next<
        String,
        ContinuedOutcome<String>,
    >)
        ensures
            *final(self) == (ContinuedAttempt { step: ContinuedStep::Over, ..*old(self) }),
            continued_next(next) == Next::<Seq<char>, ContinuedOutcome<Seq<char>>>::Done(
                Err(refusal@),
            ),
    {
        self.step = ContinuedStep::Over;
        Next::Done(Err(refusal))
    }

    fn resume_after_version(&mut self, version: Option<OperatingSystemVersion>) -> (next: Next<
        String,
        ContinuedOutcome<String>,
    >)
        ensures
            forall|registry: RegistryView<H>|
                (*final(self), registry, continued_next(next)) == #[trigger] old(
                    self,
                ).after_version(registry, version),
    {
        match version {
            None => self.refuse(Refusal::VersionUnavailable),
            Some(version) => if version.major_version < FIRST_CONTINUED_PROCESSING_MAJOR_VERSION {
                self.refuse(Refusal::UnsupportedVersion(version))
            } else if !self.enabled {
                self.refuse(Refusal::Disabled)
            } else {
                self.ask(
                    ContinuedStep::RequestClass,
                    NativeCall::LookupClass { class: NativeClass::ContinuedProcessingTaskRequest },
                )
            },
        }
    }

    fn resume_after_registration(
        &mut self,
        texts: &RequestTexts,
        registry: &mut BackgroundRegistry<H>,
        request_class: usize,
        scheduler: usize,
        phase: Phase<Registration, String, Result<(), RegistrationError>>,
    ) -> (next: Next<String, ContinuedOutcome<String>>)
        requires
            old(self).handler is Some,
        ensures
            (*final(self), final(registry)@, continued_next(next)) == old(self).after_registration(
                old(registry)@,
                texts@.identifier,
                request_class,
                scheduler,
                phase@,
            ),
    {
        match phase {
            Phase::Ask(registration, call) => self.ask(
                ContinuedStep::Registering { request_class, scheduler, registration },
                call,
            ),
            Phase::Done(Err(error)) => self.refuse(Refusal::Registration(error)),
            Phase::Done(Ok(())) => {
                registry.registered = true;
                if let Some(handler) = self.handler.take() {
                    insert_expiration_handler(
                        &mut registry.handlers,
                        texts.identifier.as_str(),
                        handler,
                    );
                }
                self.ask(
                    ContinuedStep::SubmitQuery { request_class, scheduler },
                    NativeCall::ObjectResponds {
                        object: scheduler,
                        selector: NativeSelector::SubmitTaskRequest,
                    },
                )
            },
        }
    }

    fn resume_after_creation(
        &mut self,
        texts: &RequestTexts,
        registry: &mut BackgroundRegistry<H>,
        scheduler: usize,
        phase: Phase<RequestCreation, String, Result<usize, RequestError>>,
    ) -> (next: Next<String, ContinuedOutcome<String>>)
        ensures
            (*final(self), final(registry)@, continued_next(next)) == old(self).after_creation(
                old(registry)@,
                texts@.identifier,
                scheduler,
                phase@,
            ),
    {
        match phase {
            Phase::Ask(creation, call) => self.ask(
                ContinuedStep::Creating { scheduler, creation },
                call,
            ),
            Phase::Done(Err(error)) => {
                remove_expiration_handler(&mut registry.handlers, texts.identifier.as_str());
                self.refuse(Refusal::Request(error))
            },
            Phase::Done(Ok(request)) => self.ask(
                ContinuedStep::Submitting { request },
                NativeCall::SubmitRequest { scheduler, request },
            ),
        }
    }

    /// Goes on with a reply.
    pub fn resume(
        &mut self,
        texts: &RequestTexts,
        registry: &mut BackgroundRegistry<H>,
        reply: NativeReply<String>,
    ) -> (next: Next<String, ContinuedOutcome<String>>)
        requires
            old(self).awaits(reply@),
        ensures
            (*final(self), final(registry)@, continued_next(next)) == old(self).after(
                texts@,
                old(registry)@,
                reply@,
            ),
    {
        match self.step {
            ContinuedStep::Version(query) => match query.resume(reply) {
                Phase::Ask(query, call) => self.ask(ContinuedStep::Version(query), call),
                Phase::Done(version) => self.resume_after_version(version),
            },
            ContinuedStep::RequestClass => {
                let request_class: usize = reply.into_object();
                if request_class == 0 {
                    self.refuse(Refusal::RequestClassUnavailable)
                } else {
                    self.ask(
                        ContinuedStep::SchedulerClass { request_class },
                        NativeCall::LookupClass { class: NativeClass::TaskScheduler },
                    )
                }
            },
            ContinuedStep::SchedulerClass { request_class } => {
                let class: usize = reply.into_object();
                if class == 0 {
                    self.refuse(Refusal::SchedulerClassUnavailable)
                } else {
                    self.ask(
                        ContinuedStep::Scheduler { request_class },
                        NativeCall::SharedScheduler { class },
                    )
                }
            },
            ContinuedStep::Scheduler { request_class } => {
                let scheduler: usize = reply.into_object();
                let phase = ensure_continued_processing_registered(registry.registered, scheduler);
                self.resume_after_registration(texts, registry, request_class, scheduler, phase)
            },
            ContinuedStep::Registering { request_class, scheduler, registration } => {
                let phase = registration.resume(reply);
                self.resume_after_registration(texts, registry, request_class, scheduler, phase)
            },
            ContinuedStep::SubmitQuery { request_class, scheduler } => if reply.into_flag() {
                let phase = create_continued_processing_request(request_class);
                self.resume_after_creation(texts, registry, scheduler, phase)
            } else {
                remove_expiration_handler(&mut registry.handlers, texts.identifier.as_str());
                self.refuse(Refusal::SubmissionUnavailable)
            },
            ContinuedStep::Creating { scheduler, creation } => {
                let phase = creation.resume(texts, reply);
                self.resume_after_creation(texts, registry, scheduler, phase)
            },
            ContinuedStep::Submitting { request } => {
                let (submitted, error): (bool, usize) = match reply {
                    NativeReply::Submission { submitted, error } => (submitted, error),
                    _ => (false, 0),
                };
                self.ask(
                    ContinuedStep::Releasing { submitted, error },
                    NativeCall::Release { object: request },
                )
            },
            ContinuedStep::Releasing { submitted, error } => if submitted {
                self.step = ContinuedStep::Over;
                Next::Done(Ok(()))
            } else {
                remove_expiration_handler(&mut registry.handlers, texts.identifier.as_str());
                if error == 0 {
                    self.refuse(Refusal::SubmissionFailed(UNKNOWN_SUBMISSION_ERROR.to_string()))
                } else {
                    self.ask(ContinuedStep::Describing, NativeCall::ErrorDescription { error })
                }
            },
            ContinuedStep::Describing => {
                let description: String = match reply.into_text() {
                    Some(description) => description,
                    None => UNKNOWN_SUBMISSION_ERROR.to_string(),
                };
                self.refuse(Refusal::SubmissionFailed(description))
            },
            ContinuedStep::Over => Next::Done(Ok(())),
        }
    }
}

/// Begins an attempt for a run.
pub fn try_begin_continued_processing<H>(enabled: bool, handler: H) -> (begun: (
    ContinuedAttempt<H>,
    NativeCall<String>,
))
    ensures
        begun.0 == continued_attempt(enabled, handler),
        begun.1@ == (NativeCall::<Seq<char>>::LookupClass { class: NativeClass::ProcessInfo }),
{
    let (query, call) = operating_system_version();
    let attempt = ContinuedAttempt {
        enabled,
        handler: Some(handler),
        step: ContinuedStep::Version(query),
    };
    (attempt, call)
}

} // verus!
