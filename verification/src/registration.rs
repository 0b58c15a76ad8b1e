//! Registration of the handler that iOS calls when it launches a task.

use vstd::prelude::*;

use crate::identifier::CONTINUED_PROCESSING_IDENTIFIER_PATTERN;
use crate::native::{Device, NativeCall, NativeReply, NativeSelector, Phase};

verus! {

/// Why the launch handler could not be registered.
#[derive(Debug, Clone, Copy, PartialEq, Eq, Structural)]
pub enum RegistrationError {
    /// The scheduler has no method to register a handler.
    Unavailable,
    /// The scheduler did not accept the handler.
    Rejected,
}

/// The registration of the launch handler on a scheduler.
#[derive(Debug, Clone, Copy, PartialEq, Eq, Structural)]
pub enum Registration {
    /// The scheduler has been asked whether handlers can be registered on it.
    Query { scheduler: usize },
    /// The handler has been handed to the scheduler.
    Register,
}

/// The text of a registration error.
pub open spec fn registration_error_text(error: RegistrationError) -> Seq<char> {
    match error {
        RegistrationError::Unavailable =>
            "BGTaskScheduler registerForTaskWithIdentifier:usingQueue:launchHandler: is unavailable"@,
        RegistrationError::Rejected => "BGTaskScheduler registration failed for "@
            + CONTINUED_PROCESSING_IDENTIFIER_PATTERN@,
    }
}

impl RegistrationError {
    /// The text of the error.
    pub fn message(&self) -> (message: String)
        ensures
            message@ == registration_error_text(*self),
    {
        match self {
            RegistrationError::Unavailable =>
                "BGTaskScheduler registerForTaskWithIdentifier:usingQueue:launchHandler: is unavailable".to_string(),
            RegistrationError::Rejected => {
                let mut message: String = "BGTaskScheduler registration failed for ".to_string();
                message.append(CONTINUED_PROCESSING_IDENTIFIER_PATTERN);
                message
            },
        }
    }
}

/// How the registration begins: a handler that is registered stays so and is not
/// registered again.
pub open spec fn registration(registered: bool, scheduler: usize) -> Phase<
    Registration,
    Seq<char>,
    Result<(), RegistrationError>,
> {
    if registered {
        Phase::Done(Ok(()))
    } else {
        Phase::Ask(
            Registration::Query { scheduler },
            NativeCall::ObjectResponds {
                object: scheduler,
                selector: NativeSelector::RegisterForTask,
            },
        )
    }
}

/// What comes of the registration on a device.
pub open spec fn registration_on(device: Device, registered: bool, scheduler: usize) -> Result<
    (),
    RegistrationError,
> {
    if registered {
        Ok(())
    } else if !device.responds(scheduler, NativeSelector::RegisterForTask) {
        Err(RegistrationError::Unavailable)
    } else if !device.flag(
        NativeCall::RegisterLaunchHandler {
            scheduler,
            pattern: CONTINUED_PROCESSING_IDENTIFIER_PATTERN@,
        },
    ) {
        Err(RegistrationError::Rejected)
    } else {
        Ok(())
    }
}

/// Begins to register the launch handler, unless it is registered.
pub fn ensure_continued_processing_registered(registered: bool, scheduler: usize) -> (phase: Phase<
    Registration,
    String,
    Result<(), RegistrationError>,
>)
    ensures
        phase@ == registration(registered, scheduler),
{
    if registered {
        Phase::Done(Ok(()))
    } else {
        Phase::Ask(
            Registration::Query { scheduler },
            NativeCall::ObjectResponds {
                object: scheduler,
                selector: NativeSelector::RegisterForTask,
            },
        )
    }
}

impl Registration {
    /// Whether the registration can go on with a reply.
    pub open spec fn awaits(self, reply: NativeReply<Seq<char>>) -> bool {
        reply is Flag
    }

    /// How the registration goes on with a reply.
    pub open spec fn after(self, reply: NativeReply<Seq<char>>) -> Phase<
        Registration,
        Seq<char>,
        Result<(), RegistrationError>,
    > {
        match self {
            Registration::Query { scheduler } => if reply->Flag_0 {
                Phase::Ask(
                    Registration::Register,
                    NativeCall::RegisterLaunchHandler {
                        scheduler,
                        pattern: CONTINUED_PROCESSING_IDENTIFIER_PATTERN@,
                    },
                )
            } else {
                Phase::Done(Err(RegistrationError::Unavailable))
            },
            Registration::Register => if reply->Flag_0 {
                Phase::Done(Ok(()))
            } else {
                Phase::Done(Err(RegistrationError::Rejected))
            },
        }
    }

    /// Goes on with a reply.
    pub fn resume(self, reply: NativeReply<String>) -> (phase: Phase<
        Registration,
        String,
        Result<(), RegistrationError>,
    >)
        requires
            self.awaits(reply@),
        ensures
            phase@ == self.after(reply@),
    {
        let accepted: bool = reply.into_flag();
        match self {
            Registration::Query { scheduler } => if accepted {
                Phase::Ask(
                    Registration::Register,
                    NativeCall::RegisterLaunchHandler {
                        scheduler,
                        pattern: CONTINUED_PROCESSING_IDENTIFIER_PATTERN.to_string(),
                    },
                )
            } else {
                Phase::Done(Err(RegistrationError::Unavailable))
            },
            Registration::Register => if accepted {
                Phase::Done(Ok(()))
            } else {
                Phase::Done(Err(RegistrationError::Rejected))
            },
        }
    }
}

} // verus!
