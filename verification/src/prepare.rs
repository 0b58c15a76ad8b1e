//! The preparation at app start: the launch handler is registered before any run
//! submits a request.

use vstd::prelude::*;

use crate::continued::{refusal_text, Refusal};
use crate::native::{answers, NativeCall, NativeClass, NativeReply, Next, Phase};
use crate::queries::{operating_system_version, VersionQuery};
use crate::registration::{
    ensure_continued_processing_registered, registration, Registration, RegistrationError,
};
use crate::registry::{BackgroundRegistry, RegistryView};
use crate::version::{
    offers_continued_processing, OperatingSystemVersion,
    FIRST_CONTINUED_PROCESSING_MAJOR_VERSION,
};

verus! {

/// How far a preparation has come.
#[derive(Debug, Clone, Copy, PartialEq, Eq, Structural)]
pub enum PrepareStep {
    /// The version of the system is being asked for.
    Version(VersionQuery),
    /// The class of the scheduler has been asked for.
    SchedulerClass,
    /// The shared scheduler has been asked for.
    Scheduler,
    /// The launch handler is being registered.
    Registering(Registration),
    /// The preparation is over.
    Over,
}

/// The preparation at app start.
#[derive(Debug, Clone, Copy, PartialEq, Eq, Structural)]
pub struct Preparation {
    /// Whether the build uses continued processing.
    pub enabled: bool,
    /// How far the preparation has come.
    pub step: PrepareStep,
}

/// The contents of what a preparation wants next.
pub open spec fn prepare_next(next: Next<String, Result<(), String>>) -> Next<
    Seq<char>,
    Result<(), Seq<char>>,
> {
    match next {
        Next::Call(call) => Next::Call(call@),
        Next::Done(Ok(())) => Next::Done(Ok(())),
        Next::Done(Err(message)) => Next::Done(Err(message@)),
    }
}

/// A preparation, whether the launch handler is registered, and what the preparation
/// wants next.
pub type PrepareTransition = (Preparation, bool, Next<Seq<char>, Result<(), Seq<char>>>);

impl Preparation {
    /// Whether the preparation can go on with a reply.
    pub open spec fn awaits(self, reply: NativeReply<Seq<char>>) -> bool {
        match self.step {
            PrepareStep::Version(query) => query.awaits(reply),
            PrepareStep::SchedulerClass => reply is Object,
            PrepareStep::Scheduler => reply is Object,
            PrepareStep::Registering(registration) => registration.awaits(reply),
            PrepareStep::Over => false,
        }
    }

    /// The preparation at a step, with the call whose reply it waits for there.
    pub open spec fn asks(
        self,
        registered: bool,
        step: PrepareStep,
        call: NativeCall<Seq<char>>,
    ) -> PrepareTransition {
        (Preparation { step, ..self }, registered, Next::Call(call))
    }

    /// The preparation at its end.
    pub open spec fn ends(
        self,
        registered: bool,
        result: Result<(), Refusal<Seq<char>>>,
    ) -> PrepareTransition {
        (
            Preparation { step: PrepareStep::Over, ..self },
            registered,
            Next::Done(
                match result {
                    Ok(()) => Ok(()),
                    Err(refusal) => Err(refusal_text(refusal)),
                },
            ),
        )
    }

    /// How the preparation goes on once the version is told: there is nothing to prepare
    /// on a system without continued processing or in a build that does not use it.
    pub open spec fn after_version(
        self,
        registered: bool,
        version: Option<OperatingSystemVersion>,
    ) -> PrepareTransition {
        match version {
            None => self.ends(registered, Err(Refusal::VersionUnavailable)),
            Some(version) => if !offers_continued_processing(version) || !self.enabled {
                self.ends(registered, Ok(()))
            } else {
                self.asks(
                    registered,
                    PrepareStep::SchedulerClass,
                    NativeCall::LookupClass { class: NativeClass::TaskScheduler },
                )
            },
        }
    }

    /// How the preparation goes on from a phase of the registration.
    pub open spec fn after_registration(
        self,
        registered: bool,
        phase: Phase<Registration, Seq<char>, Result<(), RegistrationError>>,
    ) -> PrepareTransition {
        match phase {
            Phase::Ask(registration, call) => self.asks(
                registered,
                PrepareStep::Registering(registration),
                call,
            ),
            Phase::Done(Ok(())) => self.ends(true, Ok(())),
            Phase::Done(Err(error)) => self.ends(registered, Err(Refusal::Registration(error))),
        }
    }

    /// How the preparation goes on with a reply.
    pub open spec fn after(
        self,
        registered: bool,
        reply: NativeReply<Seq<char>>,
    ) -> PrepareTransition {
        match self.step {
            PrepareStep::Version(query) => match query.after(reply) {
                Phase::Ask(query, call) => self.asks(registered, PrepareStep::Version(query), call),
                Phase::Done(version) => self.after_version(registered, version),
            },
            PrepareStep::SchedulerClass => if reply->Object_0 == 0 {
                self.ends(registered, Err(Refusal::SchedulerClassUnavailable))
            } else {
                self.asks(
                    registered,
                    PrepareStep::Scheduler,
                    NativeCall::SharedScheduler { class: reply->Object_0 },
                )
            },
            PrepareStep::Scheduler => self.after_registration(
                registered,
                registration(registered, reply->Object_0),
            ),
            PrepareStep::Registering(registration) => self.after_registration(
                registered,
                registration.after(reply),
            ),
            PrepareStep::Over => arbitrary(),
        }
    }

    fn ask(&mut self, step: PrepareStep, call: NativeCall<String>) -> (next: Next<
        String,
        Result<(), String>,
    >)
        ensures
            *final(self) == (Preparation { step, ..*old(self) }),
            prepare_next(next) == Next::<Seq<char>, Result<(), Seq<char>>>::Call(call@),
    {
        self.step = step;
        Next::Call(call)
    }

    fn refuse(&mut self, refusal: Refusal<String>) -> (next: Next<String, Result<(), String>>)
        ensures
            *final(self) == (Preparation { step: PrepareStep::Over, ..*old(self) }),
            prepare_next(next) == Next::<Seq<char>, Result<(), Seq<char>>>::Done(
                Err(refusal_text(refusal@)),
            ),
    {
        self.step = PrepareStep::Over;
        Next::Done(Err(refusal.message()))
    }

    fn resume_after_registration<H>(
        &mut self,
        registry: &mut BackgroundRegistry<H>,
        phase: Phase<Registration, String, Result<(), RegistrationError>>,
    ) -> (next: Next<String, Result<(), String>>)
        ensures
            (*final(self), final(registry)@.registered, prepare_next(next)) == old(
                self,
            ).after_registration(old(registry)@.registered, phase@),
            final(registry)@ == (RegistryView {
                registered: final(registry)@.registered,
                ..old(registry)@
            }),
    {
        match phase {
            Phase::Ask(registration, call) => self.ask(
                PrepareStep::Registering(registration),
                call,
            ),
            Phase::Done(Ok(())) => {
                registry.registered = true;
                self.step = PrepareStep::Over;
                Next::Done(Ok(()))
            },
            Phase::Done(Err(error)) => self.refuse(Refusal::Registration(error)),
        }
    }

    /// Goes on with the reply to the call that was handed out last.
    pub fn resume<H>(
        &mut self,
        registry: &mut BackgroundRegistry<H>,
        reply: NativeReply<String>,
    ) -> (next: Next<String, Result<(), String>>)
        requires
            old(self).awaits(reply@),
        ensures
            (*final(self), final(registry)@.registered, prepare_next(next)) == old(self).after(
                old(registry)@.registered,
                reply@,
            ),
            final(registry)@ == (RegistryView {
                registered: final(registry)@.registered,
                ..old(registry)@
            }),
            next matches Next::Call(call) ==> forall|later: NativeReply<Seq<char>>|
                answers(call@, later) ==> final(self).awaits(later),
    {
        match self.step {
            PrepareStep::Version(query) => match query.resume(reply) {
                Phase::Ask(query, call) => self.ask(PrepareStep::Version(query), call),
                Phase::Done(None) => self.refuse(Refusal::VersionUnavailable),
                Phase::Done(Some(version)) => if version.major_version
                    < FIRST_CONTINUED_PROCESSING_MAJOR_VERSION || !self.enabled {
                    self.step = PrepareStep::Over;
                    Next::Done(Ok(()))
                } else {
                    self.ask(
                        PrepareStep::SchedulerClass,
                        NativeCall::LookupClass { class: NativeClass::TaskScheduler },
                    )
                },
            },
            PrepareStep::SchedulerClass => {
                let class: usize = reply.into_object();
                if class == 0 {
                    self.refuse(Refusal::SchedulerClassUnavailable)
                } else {
                    self.ask(PrepareStep::Scheduler, NativeCall::SharedScheduler { class })
                }
            },
            PrepareStep::Scheduler => {
                let phase = ensure_continued_processing_registered(
                    registry.registered,
                    reply.into_object(),
                );
                self.resume_after_registration(registry, phase)
            },
            PrepareStep::Registering(registration) => {
                let phase = registration.resume(reply);
                self.resume_after_registration(registry, phase)
            },
            PrepareStep::Over => Next::Done(Ok(())),
        }
    }
}

/// Begins the preparation at app start. The first reply is awaited for the call that is
/// returned.
pub fn prepare_agent_background_handlers(continued_processing_enabled: bool) -> (begun: (
    Preparation,
    NativeCall<String>,
))
    ensures
        begun.0 == (Preparation {
            enabled: continued_processing_enabled,
            step: PrepareStep::Version(VersionQuery::Class),
        }),
        begun.1@ == (NativeCall::<Seq<char>>::LookupClass { class: NativeClass::ProcessInfo }),
        forall|reply: NativeReply<Seq<char>>|
            answers(begun.1@, reply) ==> begun.0.awaits(reply),
{
    let (query, call) = operating_system_version();
    let preparation = Preparation {
        enabled: continued_processing_enabled,
        step: PrepareStep::Version(query),
    };
    (preparation, call)
}

} // verus!
