//! Parts of flows that ask the system for its version and for the application.

use vstd::prelude::*;

use crate::native::{Device, NativeCall, NativeClass, NativeReply, Phase};
use crate::version::OperatingSystemVersion;

verus! {

/// The question for the version of the operating system.
#[derive(Debug, Clone, Copy, PartialEq, Eq, Structural)]
pub enum VersionQuery {
    /// The class of the process info has been asked for.
    Class,
    /// The version has been asked for.
    Version,
}

/// Why there is no application to begin or end a finite background task on.
#[derive(Debug, Clone, Copy, PartialEq, Eq, Structural)]
pub enum ApplicationError {
    ClassUnavailable,
    InstanceUnavailable,
}

/// The question for the shared application.
#[derive(Debug, Clone, Copy, PartialEq, Eq, Structural)]
pub enum ApplicationQuery {
    /// The class of the application has been asked for.
    Class,
    /// The shared application has been asked for.
    Instance,
}

/// How the question for the application begins.
pub open spec fn application_query() -> Phase<
    ApplicationQuery,
    Seq<char>,
    Result<usize, ApplicationError>,
> {
    Phase::Ask(
        ApplicationQuery::Class,
        NativeCall::LookupClass { class: NativeClass::Application },
    )
}

/// The version that a device tells, if it tells one.
pub open spec fn version_of(device: Device) -> Option<OperatingSystemVersion> {
    let process_info_class = device.class(NativeClass::ProcessInfo);
    if process_info_class == 0 {
        None
    } else {
        Some(
            (device.reply)(
                NativeCall::OperatingSystemVersion { process_info_class },
            )->Version_0,
        )
    }
}

/// The shared application of a device, or why there is none.
pub open spec fn application_of(device: Device) -> Result<usize, ApplicationError> {
    let class = device.class(NativeClass::Application);
    let application = device.object(NativeCall::SharedApplication { class });
    if class == 0 {
        Err(ApplicationError::ClassUnavailable)
    } else if application == 0 {
        Err(ApplicationError::InstanceUnavailable)
    } else {
        Ok(application)
    }
}

/// The text of an application error.
pub open spec fn application_error_text(error: ApplicationError) -> Seq<char> {
    match error {
        ApplicationError::ClassUnavailable => "UIApplication class is unavailable"@,
        ApplicationError::InstanceUnavailable =>
            "UIApplication.sharedApplication returned null"@,
    }
}

impl ApplicationError {
    /// The text of the error.
    pub fn message(&self) -> (message: String)
        ensures
            message@ == application_error_text(*self),
    {
        match self {
            ApplicationError::ClassUnavailable => "UIApplication class is unavailable".to_string(),
            ApplicationError::InstanceUnavailable =>
                "UIApplication.sharedApplication returned null".to_string(),
        }
    }
}

/// Begins to ask for the version of the operating system. The first reply is awaited for
/// the call that is returned.
pub fn operating_system_version() -> (begun: (VersionQuery, NativeCall<String>))
    ensures
        begun.0 == VersionQuery::Class,
        begun.1@ == (NativeCall::<Seq<char>>::LookupClass { class: NativeClass::ProcessInfo }),
{
    (VersionQuery::Class, NativeCall::LookupClass { class: NativeClass::ProcessInfo })
}

/// Begins to ask for the shared application.
pub fn shared_application() -> (phase: Phase<
    ApplicationQuery,
    String,
    Result<usize, ApplicationError>,
>)
    ensures
        phase@ == application_query(),
{
    Phase::Ask(
        ApplicationQuery::Class,
        NativeCall::LookupClass { class: NativeClass::Application },
    )
}

impl VersionQuery {
    /// Whether the question can go on with a reply.
    pub open spec fn awaits(self, reply: NativeReply<Seq<char>>) -> bool {
        match self {
            VersionQuery::Class => reply is Object,
            VersionQuery::Version => reply is Version,
        }
    }

    /// How the question goes on with a reply: there is no version where there is no
    /// process info.
    pub open spec fn after(self, reply: NativeReply<Seq<char>>) -> Phase<
        VersionQuery,
        Seq<char>,
        Option<OperatingSystemVersion>,
    > {
        match self {
            VersionQuery::Class => if reply->Object_0 == 0 {
                Phase::Done(None)
            } else {
                Phase::Ask(
                    VersionQuery::Version,
                    NativeCall::OperatingSystemVersion { process_info_class: reply->Object_0 },
                )
            },
            VersionQuery::Version => Phase::Done(Some(reply->Version_0)),
        }
    }

    /// Goes on with a reply.
    pub fn resume(self, reply: NativeReply<String>) -> (phase: Phase<
        VersionQuery,
        String,
        Option<OperatingSystemVersion>,
    >)
        requires
            self.awaits(reply@),
        ensures
            phase@ == self.after(reply@),
    {
        match (self, reply) {
            (VersionQuery::Class, reply) => {
                let process_info_class: usize = reply.into_object();
                if process_info_class == 0 {
                    Phase::Done(None)
                } else {
                    Phase::Ask(
                        VersionQuery::Version,
                        NativeCall::OperatingSystemVersion { process_info_class },
                    )
                }
            },
            (VersionQuery::Version, NativeReply::Version(version)) => Phase::Done(Some(version)),
            (VersionQuery::Version, _) => Phase::Done(None),
        }
    }
}

impl ApplicationQuery {
    /// Whether the question can go on with a reply.
    pub open spec fn awaits(self, reply: NativeReply<Seq<char>>) -> bool {
        reply is Object
    }

    /// How the question goes on with a reply.
    pub open spec fn after(self, reply: NativeReply<Seq<char>>) -> Phase<
        ApplicationQuery,
        Seq<char>,
        Result<usize, ApplicationError>,
    > {
        match self {
            ApplicationQuery::Class => if reply->Object_0 == 0 {
                Phase::Done(Err(ApplicationError::ClassUnavailable))
            } else {
                Phase::Ask(
                    ApplicationQuery::Instance,
                    NativeCall::SharedApplication { class: reply->Object_0 },
                )
            },
            ApplicationQuery::Instance => if reply->Object_0 == 0 {
                Phase::Done(Err(ApplicationError::InstanceUnavailable))
            } else {
                Phase::Done(Ok(reply->Object_0))
            },
        }
    }

    /// Goes on with a reply.
    pub fn resume(self, reply: NativeReply<String>) -> (phase: Phase<
        ApplicationQuery,
        String,
        Result<usize, ApplicationError>,
    >)
        requires
            self.awaits(reply@),
        ensures
            phase@ == self.after(reply@),
    {
        let object: usize = reply.into_object();
        match self {
            ApplicationQuery::Class => if object == 0 {
                Phase::Done(Err(ApplicationError::ClassUnavailable))
            } else {
                Phase::Ask(
                    ApplicationQuery::Instance,
                    NativeCall::SharedApplication { class: object },
                )
            },
            ApplicationQuery::Instance => if object == 0 {
                Phase::Done(Err(ApplicationError::InstanceUnavailable))
            } else {
                Phase::Done(Ok(object))
            },
        }
    }
}

} // verus!
