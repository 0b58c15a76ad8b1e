//! The beginning of a run's background activity: by a continued-processing task, and
//! where none can be had, by a finite background task.

use std::sync::Arc;

use vstd::prelude::*;

use crate::activity::{
    ActivityView, IosAgentBackgroundActivity, IosAgentBackgroundStartReport, StartReportView,
    CONTINUED_PROCESSING_MODE,
};
use crate::continued::{
    continued_attempt, continued_next, refusal_text, try_begin_continued_processing, ContinuedAttempt,
    ContinuedOutcome,
};
use crate::finite::{
    begin_finite_background_task, finite_attempt, finite_block, ExpirationBlock,
    ExpirationBlockView, FiniteAttempt,
};
use crate::native::{answers, NativeCall, NativeClass, NativeReply, Next, Phase};
use crate::queries::{operating_system_version, VersionQuery};
use crate::registry::{BackgroundRegistry, RegistryView};
use crate::request::{RequestTexts, RequestTextsView};
use crate::version::{system_version_string, system_version_text};

verus! {

/// An activity that has begun with what is to be told about it, or why none began.
pub type Start = Result<(IosAgentBackgroundActivity, IosAgentBackgroundStartReport), String>;

/// The contents of a start.
pub type StartView = Result<(ActivityView, StartReportView), Seq<char>>;

/// The contents of a start.
pub open spec fn start_view(start: Start) -> StartView {
    match start {
        Ok((activity, report)) => Ok((activity@, report@)),
        Err(message) => Err(message@),
    }
}

/// The contents of what a beginning wants next.
pub open spec fn start_next(next: Next<String, Start>) -> Next<Seq<char>, StartView> {
    match next {
        Next::Call(call) => Next::Call(call@),
        Next::Done(start) => Next::Done(start_view(start)),
    }
}

/// How far a beginning has come.
pub enum BeginStep<H: ?Sized, S> {
    /// The version for the report is being asked for.
    SystemVersion { query: VersionQuery, attempt: ContinuedAttempt<Arc<H>> },
    /// A continued-processing task is being requested.
    Continued { attempt: ContinuedAttempt<Arc<H>> },
    /// A finite background task is being begun, for want of a continued-processing task.
    Finite { attempt: FiniteAttempt<H, S> },
    /// The beginning is over.
    Over,
}

/// The beginning of a run's background activity. `H` is the type of an expiration handler.
pub struct BeginRun<H: ?Sized> {
    /// What the system is told about the run.
    pub texts: RequestTexts,
    /// The expiration handler of the run.
    pub on_expiration: Arc<H>,
    /// The version of the system, once it has been asked for.
    pub system_version: String,
    /// How far the beginning has come.
    pub step: BeginStep<H, String>,
}

/// The contents of a beginning.
pub struct BeginRunView<H: ?Sized> {
    pub texts: RequestTextsView,
    pub on_expiration: Arc<H>,
    pub system_version: Seq<char>,
    pub step: BeginStep<H, Seq<char>>,
}

impl<H: ?Sized> View for BeginRun<H> {
    type V = BeginRunView<H>;

    open spec fn view(&self) -> BeginRunView<H> {
        BeginRunView {
            texts: self.texts@,
            on_expiration: self.on_expiration,
            system_version: self.system_version@,
            step: match self.step {
                BeginStep::SystemVersion { query, attempt } =>
                    BeginStep::SystemVersion { query, attempt },
                BeginStep::Continued { attempt } => BeginStep::Continued { attempt },
                BeginStep::Finite { attempt } => BeginStep::Finite { attempt: attempt@ },
                BeginStep::Over => BeginStep::Over,
            },
        }
    }
}

/// The start of a run whose continued-processing task was requested.
pub open spec fn continued_start(identifier: Seq<char>, system_version: Seq<char>) -> (
    ActivityView,
    StartReportView,
) {
    (
        ActivityView {
            mode: CONTINUED_PROCESSING_MODE@,
            continued_identifier: Some(identifier),
            finite_background_task: None,
            finished: false,
        },
        StartReportView {
            mode: CONTINUED_PROCESSING_MODE@,
            identifier: Some(identifier),
            system_version,
            continued_processing_available: true,
            fallback_reason: None,
        },
    )
}

/// A beginning, the registry, and what the beginning wants next.
pub type BeginTransition<H> = (
    BeginRunView<H>,
    RegistryView<Arc<H>>,
    Next<Seq<char>, StartView>,
);

/// How the beginning of a run's activity begins.
pub open spec fn begin_run<H: ?Sized>(
    texts: RequestTextsView,
    on_expiration: Arc<H>,
    enabled: bool,
) -> BeginRunView<H> {
    BeginRunView {
        texts,
        on_expiration,
        system_version: Seq::empty(),
        step: BeginStep::SystemVersion {
            query: VersionQuery::Class,
            attempt: continued_attempt(enabled, on_expiration),
        },
    }
}

impl<H: ?Sized> BeginRunView<H> {
    /// The beginning at another step.
    pub open spec fn at(self, step: BeginStep<H, Seq<char>>) -> BeginRunView<H> {
        BeginRunView { step, ..self }
    }

    /// Whether the beginning can go on with a reply.
    pub open spec fn awaits(self, reply: NativeReply<Seq<char>>) -> bool {
        match self.step {
            BeginStep::SystemVersion { query, attempt } => query.awaits(reply)
                && attempt.handler is Some && attempt.step
                == continued_attempt(attempt.enabled, attempt.handler->0).step,
            BeginStep::Continued { attempt } => attempt.awaits(reply),
            BeginStep::Finite { attempt } => attempt.awaits(reply) && attempt.on_expiration
                == self.on_expiration,
            BeginStep::Over => false,
        }
    }

    /// The block that a finite background task is begun with, while one is being begun.
    pub open spec fn block(self) -> Option<ExpirationBlockView<H>> {
        match self.step {
            BeginStep::Finite { attempt } => attempt.block(),
            _ => None,
        }
    }

    /// How the beginning goes on from the attempt to begin a finite background task.
    pub open spec fn after_finite(
        self,
        attempt: FiniteAttempt<H, Seq<char>>,
        next: Next<Seq<char>, StartView>,
    ) -> (BeginRunView<H>, Next<Seq<char>, StartView>) {
        match next {
            Next::Call(_) => (self.at(BeginStep::Finite { attempt }), next),
            Next::Done(_) => (self.at(BeginStep::Over), next),
        }
    }

    /// How the beginning goes on from the attempt to request a continued-processing task:
    /// where none was requested, a finite background task is begun with the expiration
    /// handler of the run, and the reason is kept for the report.
    pub open spec fn after_continued(
        self,
        attempt: ContinuedAttempt<Arc<H>>,
        next: Next<Seq<char>, ContinuedOutcome<Seq<char>>>,
    ) -> (BeginRunView<H>, Next<Seq<char>, StartView>) {
        match next {
            Next::Call(call) => (self.at(BeginStep::Continued { attempt }), Next::Call(call)),
            Next::Done(Ok(())) => (
                self.at(BeginStep::Over),
                Next::Done(Ok(continued_start(self.texts.identifier, self.system_version))),
            ),
            Next::Done(Err(refusal)) => (
                self.at(
                    BeginStep::Finite {
                        attempt: finite_attempt(
                            self.texts.title,
                            self.on_expiration,
                            self.system_version,
                            Some(refusal_text(refusal)),
                        ),
                    },
                ),
                Next::Call(NativeCall::LookupClass { class: NativeClass::Application }),
            ),
        }
    }

    /// How the beginning goes on with a reply.
    pub open spec fn after(
        self,
        registry: RegistryView<Arc<H>>,
        reply: NativeReply<Seq<char>>,
    ) -> BeginTransition<H> {
        match self.step {
            BeginStep::SystemVersion { query, attempt } => match query.after(reply) {
                Phase::Ask(query, call) => (
                    self.at(BeginStep::SystemVersion { query, attempt }),
                    registry,
                    Next::Call(call),
                ),
                Phase::Done(version) => (
                    BeginRunView {
                        system_version: system_version_text(version),
                        step: BeginStep::Continued { attempt },
                        ..self
                    },
                    registry,
                    Next::Call(NativeCall::LookupClass { class: NativeClass::ProcessInfo }),
                ),
            },
            BeginStep::Continued { attempt } => {
                let (attempt, registry, next) = attempt.after(self.texts, registry, reply);
                let (run, next) = self.at(BeginStep::Over).after_continued(attempt, next);
                (run, registry, next)
            },
            BeginStep::Finite { attempt } => {
                let (attempt, next) = attempt.after(reply);
                let (run, next) = self.at(BeginStep::Over).after_finite(attempt, next);
                (run, registry, next)
            },
            BeginStep::Over => arbitrary(),
        }
    }
}

impl<H: ?Sized> BeginRunView<H> {
    pub(crate) proof fn lemma_awaits(
        self,
        registry: RegistryView<Arc<H>>,
        reply: NativeReply<Seq<char>>,
    )
        requires
            self.awaits(reply),
        ensures
            self.after(registry, reply).2 matches Next::Call(call) ==> forall|
                later: NativeReply<Seq<char>>,
            |
                answers(call, later) ==> self.after(registry, reply).0.awaits(later),
    {
        match self.step {
            BeginStep::Continued { attempt } => attempt.lemma_awaits(self.texts, registry, reply),
            _ => {},
        }
    }
}

impl<H: ?Sized> BeginRun<H> {
    fn resume_finite(&mut self, attempt: FiniteAttempt<H, String>, next: Next<String, Start>) -> (begun:
        Next<String, Start>)
        requires
            old(self).step is Over,
        ensures
            (final(self)@, start_next(begun)) == old(self)@.after_finite(attempt@, start_next(next)),
    {
        if let Next::Call(_) = &next {
            self.step = BeginStep::Finite { attempt };
        }
        next
    }

    fn resume_continued(
        &mut self,
        attempt: ContinuedAttempt<Arc<H>>,
        next: Next<String, ContinuedOutcome<String>>,
    ) -> (begun: Next<String, Start>)
        requires
            old(self).step is Over,
        ensures
            (final(self)@, start_next(begun)) == old(self)@.after_continued(
                attempt,
                continued_next(next),
            ),
    {
        match next {
            Next::Call(call) => {
                self.step = BeginStep::Continued { attempt };
                Next::Call(call)
            },
            Next::Done(Ok(())) => {
                let activity = IosAgentBackgroundActivity {
                    mode: CONTINUED_PROCESSING_MODE.to_string(),
                    continued_identifier: Some(self.texts.identifier.clone()),
                    finite_background_task: None,
                    finished: false,
                };
                let report = IosAgentBackgroundStartReport {
                    mode: CONTINUED_PROCESSING_MODE.to_string(),
                    identifier: Some(self.texts.identifier.clone()),
                    system_version: self.system_version.clone(),
                    continued_processing_available: true,
                    fallback_reason: None,
                };
                Next::Done(Ok((activity, report)))
            },
            Next::Done(Err(refusal)) => {
                let (attempt, call) = begin_finite_background_task(
                    self.texts.title.clone(),
                    self.on_expiration.clone(),
                    self.system_version.clone(),
                    Some(refusal.message()),
                );
                self.step = BeginStep::Finite { attempt };
                Next::Call(call)
            },
        }
    }

    /// The block that a finite background task has to be begun with, while one is being
    /// begun.
    pub fn expiration_block(&self) -> (block: Option<ExpirationBlock<H>>)
        ensures
            match block {
                Some(block) => self@.block() == Some(block@),
                None => self@.block() is None,
            },
    {
        match &self.step {
            BeginStep::Finite { attempt } => attempt.expiration_block(),
            _ => None,
        }
    }

    /// Goes on with the reply to the call that was handed out last. The call that begins a
    /// finite background task is handed out together with the block that calls the
    /// expiration handler of the run.
    pub fn resume(
        &mut self,
        registry: &mut BackgroundRegistry<Arc<H>>,
        reply: NativeReply<String>,
    ) -> (next: Next<String, Start>)
        requires
            old(self)@.awaits(reply@),
        ensures
            (final(self)@, final(registry)@, start_next(next)) == old(self)@.after(
                old(registry)@,
                reply@,
            ),
            next matches Next::Call(call) ==> forall|later: NativeReply<Seq<char>>|
                answers(call@, later) ==> final(self)@.awaits(later),
            next matches Next::Call(call) ==> final(self)@.block() == (
            if call@ is BeginBackgroundTask {
                Some(finite_block(old(self)@.on_expiration))
            } else {
                None
            }),
    {
        proof {
            old(self)@.lemma_awaits(old(registry)@, reply@);
        }
        let mut step: BeginStep<H, String> = BeginStep::Over;
        core::mem::swap(&mut self.step, &mut step);
        match step {
            BeginStep::SystemVersion { query, attempt } => match query.resume(reply) {
                Phase::Ask(query, call) => {
                    self.step = BeginStep::SystemVersion { query, attempt };
                    Next::Call(call)
                },
                Phase::Done(version) => {
                    let (_, call) = operating_system_version();
                    self.system_version = system_version_string(version);
                    self.step = BeginStep::Continued { attempt };
                    Next::Call(call)
                },
            },
            BeginStep::Continued { attempt } => {
                let mut attempt = attempt;
                let next = attempt.resume(&self.texts, registry, reply);
                self.resume_continued(attempt, next)
            },
            BeginStep::Finite { attempt } => {
                let mut attempt = attempt;
                let next = attempt.resume(reply);
                self.resume_finite(attempt, next)
            },
            BeginStep::Over => Next::Done(Err(String::new())),
        }
    }
}

/// Begins the activity of a run on the main thread. The first reply is awaited for the
/// call that is returned.
pub fn begin_agent_run_on_main_thread<H: ?Sized>(
    texts: RequestTexts,
    on_expiration: Arc<H>,
    continued_processing_enabled: bool,
) -> (begun: (BeginRun<H>, NativeCall<String>))
    ensures
        begun.0@ == begin_run(texts@, on_expiration, continued_processing_enabled),
        begun.1@ == (NativeCall::<Seq<char>>::LookupClass { class: NativeClass::ProcessInfo }),
        forall|reply: NativeReply<Seq<char>>|
            answers(begun.1@, reply) ==> begun.0@.awaits(reply),
{
    let (attempt, _) = try_begin_continued_processing(
        continued_processing_enabled,
        on_expiration.clone(),
    );
    let (query, call) = operating_system_version();
    let run = BeginRun {
        texts,
        on_expiration,
        system_version: String::new(),
        step: BeginStep::SystemVersion { query, attempt },
    };
    (run, call)
}

} // verus!
