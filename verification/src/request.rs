//! Creation of the request that is submitted for a continued-processing task.

use vstd::prelude::*;

use crate::native::{Device, NativeCall, NativeReply, NativeSelector, Phase};

verus! {

/// What a request tells the system about a run.
#[derive(Debug, PartialEq)]
pub struct RequestTexts {
    pub identifier: String,
    pub title: String,
    pub subtitle: String,
}

/// The contents of the texts of a request.
pub struct RequestTextsView {
    pub identifier: Seq<char>,
    pub title: Seq<char>,
    pub subtitle: Seq<char>,
}

impl View for RequestTexts {
    type V = RequestTextsView;

    open spec fn view(&self) -> RequestTextsView {
        RequestTextsView {
            identifier: self.identifier@,
            title: self.title@,
            subtitle: self.subtitle@,
        }
    }
}

/// Why a request could not be created.
#[derive(Debug, Clone, Copy, PartialEq, Eq, Structural)]
pub enum RequestError {
    AllocationFailed,
    TitledInitializerFailed,
    IdentifierInitializerFailed,
    NoInitializer,
}

/// The creation of a request.
#[derive(Debug, Clone, Copy, PartialEq, Eq, Structural)]
pub enum RequestCreation {
    /// The class has been asked for the initializer that takes all texts.
    TitledQuery { class: usize },
    /// A request for the initializer that takes all texts is being allocated.
    TitledAllocation,
    /// A request is being initialised with all texts.
    TitledInitialization,
    /// The class has been asked for the initializer that takes the identifier alone.
    IdentifierQuery { class: usize },
    /// A request for the initializer that takes the identifier is being allocated.
    IdentifierAllocation,
    /// A request is being initialised with its identifier.
    IdentifierInitialization,
    /// The request has been asked whether its title can be set.
    TitleQuery { request: usize },
    /// The title is being set.
    TitleSet { request: usize },
    /// The request has been asked whether its subtitle can be set.
    SubtitleQuery { request: usize },
    /// The subtitle is being set.
    SubtitleSet { request: usize },
}

/// The text of a request error.
pub open spec fn request_error_text(error: RequestError) -> Seq<char> {
    match error {
        RequestError::AllocationFailed => "BGContinuedProcessingTaskRequest alloc returned null"@,
        RequestError::TitledInitializerFailed =>
            "BGContinuedProcessingTaskRequest title initializer returned null"@,
        RequestError::IdentifierInitializerFailed =>
            "BGContinuedProcessingTaskRequest identifier initializer returned null"@,
        RequestError::NoInitializer =>
            "BGContinuedProcessingTaskRequest has no supported initializer"@,
    }
}

impl RequestError {
    /// The text of the error.
    pub fn message(&self) -> (message: String)
        ensures
            message@ == request_error_text(*self),
    {
        match self {
            RequestError::AllocationFailed =>
                "BGContinuedProcessingTaskRequest alloc returned null".to_string(),
            RequestError::TitledInitializerFailed =>
                "BGContinuedProcessingTaskRequest title initializer returned null".to_string(),
            RequestError::IdentifierInitializerFailed =>
                "BGContinuedProcessingTaskRequest identifier initializer returned null".to_string(),
            RequestError::NoInitializer =>
                "BGContinuedProcessingTaskRequest has no supported initializer".to_string(),
        }
    }
}

/// How the creation of a request begins.
pub open spec fn request_creation(class: usize) -> Phase<
    RequestCreation,
    Seq<char>,
    Result<usize, RequestError>,
> {
    Phase::Ask(
        RequestCreation::TitledQuery { class },
        NativeCall::InstancesRespond {
            class,
            selector: NativeSelector::InitWithIdentifierTitleSubtitle,
        },
    )
}

/// The request that a device creates from a class, or why it creates none. The
/// initializer that takes all texts is preferred; the one that takes the identifier
/// alone comes second.
pub open spec fn request_on(device: Device, class: usize, texts: RequestTextsView) -> Result<
    usize,
    RequestError,
> {
    let allocated = device.object(NativeCall::AllocateRequest { class });
    let titled = device.object(
        NativeCall::InitializeTitledRequest {
            allocated,
            identifier: texts.identifier,
            title: texts.title,
            subtitle: texts.subtitle,
        },
    );
    let plain = device.object(
        NativeCall::InitializeRequest { allocated, identifier: texts.identifier },
    );
    if device.instances_respond(class, NativeSelector::InitWithIdentifierTitleSubtitle) {
        if allocated == 0 {
            Err(RequestError::AllocationFailed)
        } else if titled == 0 {
            Err(RequestError::TitledInitializerFailed)
        } else {
            Ok(titled)
        }
    } else if device.instances_respond(class, NativeSelector::InitWithIdentifier) {
        if allocated == 0 {
            Err(RequestError::AllocationFailed)
        } else if plain == 0 {
            Err(RequestError::IdentifierInitializerFailed)
        } else {
            Ok(plain)
        }
    } else {
        Err(RequestError::NoInitializer)
    }
}

/// Begins to create a request of a class.
pub fn create_continued_processing_request(class: usize) -> (phase: Phase<
    RequestCreation,
    String,
    Result<usize, RequestError>,
>)
    ensures
        phase@ == request_creation(class),
{
    Phase::Ask(
        RequestCreation::TitledQuery { class },
        NativeCall::InstancesRespond {
            class,
            selector: NativeSelector::InitWithIdentifierTitleSubtitle,
        },
    )
}

/// The question whether the subtitle of a request can be set.
pub open spec fn subtitle_query(request: usize) -> Phase<
    RequestCreation,
    Seq<char>,
    Result<usize, RequestError>,
> {
    Phase::Ask(
        RequestCreation::SubtitleQuery { request },
        NativeCall::ObjectResponds { object: request, selector: NativeSelector::SetSubtitle },
    )
}

impl RequestCreation {
    /// Whether the creation can go on with a reply.
    pub open spec fn awaits(self, reply: NativeReply<Seq<char>>) -> bool {
        match self {
            RequestCreation::TitledQuery { .. } => reply is Flag,
            RequestCreation::TitledAllocation => reply is Object,
            RequestCreation::TitledInitialization => reply is Object,
            RequestCreation::IdentifierQuery { .. } => reply is Flag,
            RequestCreation::IdentifierAllocation => reply is Object,
            RequestCreation::IdentifierInitialization => reply is Object,
            RequestCreation::TitleQuery { .. } => reply is Flag,
            RequestCreation::TitleSet { .. } => reply is Done,
            RequestCreation::SubtitleQuery { .. } => reply is Flag,
            RequestCreation::SubtitleSet { .. } => reply is Done,
        }
    }

    /// How the creation goes on with a reply. A text that the initializer did not take
    /// is set where the request lets it be set.
    pub open spec fn after(self, texts: RequestTextsView, reply: NativeReply<Seq<char>>) -> Phase<
        RequestCreation,
        Seq<char>,
        Result<usize, RequestError>,
    > {
        match self {
            RequestCreation::TitledQuery { class } => if reply->Flag_0 {
                Phase::Ask(
                    RequestCreation::TitledAllocation,
                    NativeCall::AllocateRequest { class },
                )
            } else {
                Phase::Ask(
                    RequestCreation::IdentifierQuery { class },
                    NativeCall::InstancesRespond {
                        class,
                        selector: NativeSelector::InitWithIdentifier,
                    },
                )
            },
            RequestCreation::TitledAllocation => if reply->Object_0 == 0 {
                Phase::Done(Err(RequestError::AllocationFailed))
            } else {
                Phase::Ask(
                    RequestCreation::TitledInitialization,
                    NativeCall::InitializeTitledRequest {
                        allocated: reply->Object_0,
                        identifier: texts.identifier,
                        title: texts.title,
                        subtitle: texts.subtitle,
                    },
                )
            },
            RequestCreation::TitledInitialization => if reply->Object_0 == 0 {
                Phase::Done(Err(RequestError::TitledInitializerFailed))
            } else {
                Phase::Done(Ok(reply->Object_0))
            },
            RequestCreation::IdentifierQuery { class } => if reply->Flag_0 {
                Phase::Ask(
                    RequestCreation::IdentifierAllocation,
                    NativeCall::AllocateRequest { class },
                )
            } else {
                Phase::Done(Err(RequestError::NoInitializer))
            },
            RequestCreation::IdentifierAllocation => if reply->Object_0 == 0 {
                Phase::Done(Err(RequestError::AllocationFailed))
            } else {
                Phase::Ask(
                    RequestCreation::IdentifierInitialization,
                    NativeCall::InitializeRequest {
                        allocated: reply->Object_0,
                        identifier: texts.identifier,
                    },
                )
            },
            RequestCreation::IdentifierInitialization => if reply->Object_0 == 0 {
                Phase::Done(Err(RequestError::IdentifierInitializerFailed))
            } else {
                Phase::Ask(
                    RequestCreation::TitleQuery { request: reply->Object_0 },
                    NativeCall::ObjectResponds {
                        object: reply->Object_0,
                        selector: NativeSelector::SetTitle,
                    },
                )
            },
            RequestCreation::TitleQuery { request } => if reply->Flag_0 {
                Phase::Ask(
                    RequestCreation::TitleSet { request },
                    NativeCall::SetTitle { request, title: texts.title },
                )
            } else {
                subtitle_query(request)
            },
            RequestCreation::TitleSet { request } => subtitle_query(request),
            RequestCreation::SubtitleQuery { request } => if reply->Flag_0 {
                Phase::Ask(
                    RequestCreation::SubtitleSet { request },
                    NativeCall::SetSubtitle { request, subtitle: texts.subtitle },
                )
            } else {
                Phase::Done(Ok(request))
            },
            RequestCreation::SubtitleSet { request } => Phase::Done(Ok(request)),
        }
    }

    fn ask_for_subtitle(request: usize) -> (phase: Phase<
        RequestCreation,
        String,
        Result<usize, RequestError>,
    >)
        ensures
            phase@ == subtitle_query(request),
    {
        Phase::Ask(
            RequestCreation::SubtitleQuery { request },
            NativeCall::ObjectResponds { object: request, selector: NativeSelector::SetSubtitle },
        )
    }

    /// Goes on with a reply.
    pub fn resume(self, texts: &RequestTexts, reply: NativeReply<String>) -> (phase: Phase<
        RequestCreation,
        String,
        Result<usize, RequestError>,
    >)
        requires
            self.awaits(reply@),
        ensures
            phase@ == self.after(texts@, reply@),
    {
        match self {
            RequestCreation::TitledQuery { class } => if reply.into_flag() {
                Phase::Ask(
                    RequestCreation::TitledAllocation,
                    NativeCall::AllocateRequest { class },
                )
            } else {
                Phase::Ask(
                    RequestCreation::IdentifierQuery { class },
                    NativeCall::InstancesRespond {
                        class,
                        selector: NativeSelector::InitWithIdentifier,
                    },
                )
            },
            RequestCreation::TitledAllocation => {
                let allocated: usize = reply.into_object();
                if allocated == 0 {
                    Phase::Done(Err(RequestError::AllocationFailed))
                } else {
                    Phase::Ask(
                        RequestCreation::TitledInitialization,
                        NativeCall::InitializeTitledRequest {
                            allocated,
                            identifier: texts.identifier.clone(),
                            title: texts.title.clone(),
                            subtitle: texts.subtitle.clone(),
                        },
                    )
                }
            },
            RequestCreation::TitledInitialization => {
                let request: usize = reply.into_object();
                if request == 0 {
                    Phase::Done(Err(RequestError::TitledInitializerFailed))
                } else {
                    Phase::Done(Ok(request))
                }
            },
            RequestCreation::IdentifierQuery { class } => if reply.into_flag() {
                Phase::Ask(
                    RequestCreation::IdentifierAllocation,
                    NativeCall::AllocateRequest { class },
                )
            } else {
                Phase::Done(Err(RequestError::NoInitializer))
            },
            RequestCreation::IdentifierAllocation => {
                let allocated: usize = reply.into_object();
                if allocated == 0 {
                    Phase::Done(Err(RequestError::AllocationFailed))
                } else {
                    Phase::Ask(
                        RequestCreation::IdentifierInitialization,
                        NativeCall::InitializeRequest {
                            allocated,
                            identifier: texts.identifier.clone(),
                        },
                    )
                }
            },
            RequestCreation::IdentifierInitialization => {
                let request: usize = reply.into_object();
                if request == 0 {
                    Phase::Done(Err(RequestError::IdentifierInitializerFailed))
                } else {
                    Phase::Ask(
                        RequestCreation::TitleQuery { request },
                        NativeCall::ObjectResponds {
                            object: request,
                            selector: NativeSelector::SetTitle,
                        },
                    )
                }
            },
            RequestCreation::TitleQuery { request } => if reply.into_flag() {
                Phase::Ask(
                    RequestCreation::TitleSet { request },
                    NativeCall::SetTitle { request, title: texts.title.clone() },
                )
            } else {
                Self::ask_for_subtitle(request)
            },
            RequestCreation::TitleSet { request } => Self::ask_for_subtitle(request),
            RequestCreation::SubtitleQuery { request } => if reply.into_flag() {
                Phase::Ask(
                    RequestCreation::SubtitleSet { request },
                    NativeCall::SetSubtitle { request, subtitle: texts.subtitle.clone() },
                )
            } else {
                Phase::Done(Ok(request))
            },
            RequestCreation::SubtitleSet { request } => Phase::Done(Ok(request)),
        }
    }
}

} // verus!
