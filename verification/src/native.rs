//! The native calls that the flows of this library hand out, and their replies.
//!
//! Objects and classes of the Objective-C runtime are held as addresses; the
//! address zero is the null pointer. Texts are `String` in executable code and
//! `Seq<char>` in specifications.

use vstd::prelude::*;

use crate::version::OperatingSystemVersion;

verus! {

/// The classes that are looked up by name.
#[derive(Debug, Clone, Copy, PartialEq, Eq, Structural)]
pub enum NativeClass {
    ProcessInfo,
    TaskScheduler,
    ContinuedProcessingTaskRequest,
    Application,
}

/// The selectors whose presence is asked for before they are sent.
#[derive(Debug, Clone, Copy, PartialEq, Eq, Structural)]
pub enum NativeSelector {
    RegisterForTask,
    SubmitTaskRequest,
    InitWithIdentifierTitleSubtitle,
    InitWithIdentifier,
    SetTitle,
    SetSubtitle,
    Progress,
}

/// The name under which a class is looked up.
pub open spec fn class_name(class: NativeClass) -> Seq<char> {
    match class {
        NativeClass::ProcessInfo => "NSProcessInfo"@,
        NativeClass::TaskScheduler => "BGTaskScheduler"@,
        NativeClass::ContinuedProcessingTaskRequest => "BGContinuedProcessingTaskRequest"@,
        NativeClass::Application => "UIApplication"@,
    }
}

/// The name under which a selector is registered.
pub open spec fn selector_name(selector: NativeSelector) -> Seq<char> {
    match selector {
        NativeSelector::RegisterForTask =>
            "registerForTaskWithIdentifier:usingQueue:launchHandler:"@,
        NativeSelector::SubmitTaskRequest => "submitTaskRequest:error:"@,
        NativeSelector::InitWithIdentifierTitleSubtitle => "initWithIdentifier:title:subtitle:"@,
        NativeSelector::InitWithIdentifier => "initWithIdentifier:"@,
        NativeSelector::SetTitle => "setTitle:"@,
        NativeSelector::SetSubtitle => "setSubtitle:"@,
        NativeSelector::Progress => "progress"@,
    }
}

impl NativeClass {
    /// The name under which the class is looked up.
    pub fn name(&self) -> (name: &'static str)
        ensures
            name@ == class_name(*self),
    {
        match self {
            NativeClass::ProcessInfo => "NSProcessInfo",
            NativeClass::TaskScheduler => "BGTaskScheduler",
            NativeClass::ContinuedProcessingTaskRequest => "BGContinuedProcessingTaskRequest",
            NativeClass::Application => "UIApplication",
        }
    }
}

impl NativeSelector {
    /// The name under which the selector is registered.
    pub fn name(&self) -> (name: &'static str)
        ensures
            name@ == selector_name(*self),
    {
        match self {
            NativeSelector::RegisterForTask =>
                "registerForTaskWithIdentifier:usingQueue:launchHandler:",
            NativeSelector::SubmitTaskRequest => "submitTaskRequest:error:",
            NativeSelector::InitWithIdentifierTitleSubtitle => "initWithIdentifier:title:subtitle:",
            NativeSelector::InitWithIdentifier => "initWithIdentifier:",
            NativeSelector::SetTitle => "setTitle:",
            NativeSelector::SetSubtitle => "setSubtitle:",
            NativeSelector::Progress => "progress",
        }
    }
}

/// One native call.
#[derive(Debug, PartialEq)]
pub enum NativeCall<S> {
    /// Looks a class up by its name; zero where there is none.
    LookupClass { class: NativeClass },
    /// Reads the version of the operating system from the shared process info.
    OperatingSystemVersion { process_info_class: usize },
    /// Asks whether an object responds to a selector.
    ObjectResponds { object: usize, selector: NativeSelector },
    /// Asks whether the instances of a class respond to a selector.
    InstancesRespond { class: usize, selector: NativeSelector },
    /// Reads the shared task scheduler.
    SharedScheduler { class: usize },
    /// Registers the launch handler for the identifiers that a pattern covers.
    RegisterLaunchHandler { scheduler: usize, pattern: S },
    /// Allocates a request.
    AllocateRequest { class: usize },
    /// Initialises an allocated request with its identifier and both texts.
    InitializeTitledRequest { allocated: usize, identifier: S, title: S, subtitle: S },
    /// Initialises an allocated request with its identifier alone.
    InitializeRequest { allocated: usize, identifier: S },
    /// Sets the title of a request.
    SetTitle { request: usize, title: S },
    /// Sets the subtitle of a request.
    SetSubtitle { request: usize, subtitle: S },
    /// Submits a request to the scheduler.
    SubmitRequest { scheduler: usize, request: usize },
    /// Reads the localized description of an error.
    ErrorDescription { error: usize },
    /// Reads the shared application; zero where there is none.
    SharedApplication { class: usize },
    /// Begins a finite background task, with the expiration block that the flow keeps
    /// while the call is made. The mode and the identifier are what the block tells.
    BeginBackgroundTask {
        application: usize,
        name: S,
        expiration_mode: S,
        expiration_identifier: Option<S>,
    },
    /// Ends a finite background task.
    EndBackgroundTask { application: usize, task: isize },
    /// Reads the identifier of a launched task.
    TaskIdentifier { task: usize },
    /// Tells the system that a launched task is complete.
    SetTaskCompleted { task: usize, success: bool },
    /// Makes a launched task invoke the expiration handler that is registered for the
    /// identifier, with the given mode, when it expires.
    SetExpirationHandler { task: usize, identifier: S, mode: S },
    /// Reads the progress object of a launched task; zero where there is none.
    TaskProgress { task: usize },
    /// Sets how many units of work there are.
    SetTotalUnitCount { progress: usize, total: i64 },
    /// Sets how many units of work are completed.
    SetCompletedUnitCount { progress: usize, completed: i64 },
    /// Retains an object.
    Retain { object: usize },
    /// Releases an object.
    Release { object: usize },
}

/// The reply to a native call.
#[derive(Debug, PartialEq)]
pub enum NativeReply<S> {
    /// The call was made; there is nothing to tell.
    Done,
    /// A yes or a no.
    Flag(bool),
    /// The address of an object or a class.
    Object(usize),
    /// The version of the operating system.
    Version(OperatingSystemVersion),
    /// Whether a request was accepted, and the address of the error if there is one.
    Submission { submitted: bool, error: usize },
    /// A text, if there is one.
    Text(Option<S>),
    /// The number of a finite background task.
    Task(isize),
}

/// What a flow wants next: the reply to a native call, or nothing more.
#[derive(Debug, PartialEq)]
pub enum Next<S, T> {
    Call(NativeCall<S>),
    Done(T),
}

/// What a part of a flow wants next: the reply to a native call, with which the part
/// is then resumed, or nothing more.
#[derive(Debug, PartialEq)]
pub enum Phase<P, S, T> {
    Ask(P, NativeCall<S>),
    Done(T),
}

/// The text of an optional string.
pub open spec fn optional_text(text: Option<String>) -> Option<Seq<char>> {
    match text {
        Some(text) => Some(text@),
        None => None,
    }
}

impl View for NativeCall<String> {
    type V = NativeCall<Seq<char>>;

    open spec fn view(&self) -> NativeCall<Seq<char>> {
        match *self {
            NativeCall::LookupClass { class } => NativeCall::LookupClass { class },
            NativeCall::OperatingSystemVersion { process_info_class } =>
                NativeCall::OperatingSystemVersion { process_info_class },
            NativeCall::ObjectResponds { object, selector } =>
                NativeCall::ObjectResponds { object, selector },
            NativeCall::InstancesRespond { class, selector } =>
                NativeCall::InstancesRespond { class, selector },
            NativeCall::SharedScheduler { class } => NativeCall::SharedScheduler { class },
            NativeCall::RegisterLaunchHandler { scheduler, pattern } =>
                NativeCall::RegisterLaunchHandler { scheduler, pattern: pattern@ },
            NativeCall::AllocateRequest { class } => NativeCall::AllocateRequest { class },
            NativeCall::InitializeTitledRequest { allocated, identifier, title, subtitle } =>
                NativeCall::InitializeTitledRequest {
                    allocated,
                    identifier: identifier@,
                    title: title@,
                    subtitle: subtitle@,
                },
            NativeCall::InitializeRequest { allocated, identifier } =>
                NativeCall::InitializeRequest { allocated, identifier: identifier@ },
            NativeCall::SetTitle { request, title } =>
                NativeCall::SetTitle { request, title: title@ },
            NativeCall::SetSubtitle { request, subtitle } =>
                NativeCall::SetSubtitle { request, subtitle: subtitle@ },
            NativeCall::SubmitRequest { scheduler, request } =>
                NativeCall::SubmitRequest { scheduler, request },
            NativeCall::ErrorDescription { error } => NativeCall::ErrorDescription { error },
            NativeCall::SharedApplication { class } => NativeCall::SharedApplication { class },
            NativeCall::BeginBackgroundTask {
                application,
                name,
                expiration_mode,
                expiration_identifier,
            } => NativeCall::BeginBackgroundTask {
                application,
                name: name@,
                expiration_mode: expiration_mode@,
                expiration_identifier: optional_text(expiration_identifier),
            },
            NativeCall::EndBackgroundTask { application, task } =>
                NativeCall::EndBackgroundTask { application, task },
            NativeCall::TaskIdentifier { task } => NativeCall::TaskIdentifier { task },
            NativeCall::SetTaskCompleted { task, success } =>
                NativeCall::SetTaskCompleted { task, success },
            NativeCall::SetExpirationHandler { task, identifier, mode } =>
                NativeCall::SetExpirationHandler { task, identifier: identifier@, mode: mode@ },
            NativeCall::TaskProgress { task } => NativeCall::TaskProgress { task },
            NativeCall::SetTotalUnitCount { progress, total } =>
                NativeCall::SetTotalUnitCount { progress, total },
            NativeCall::SetCompletedUnitCount { progress, completed } =>
                NativeCall::SetCompletedUnitCount { progress, completed },
            NativeCall::Retain { object } => NativeCall::Retain { object },
            NativeCall::Release { object } => NativeCall::Release { object },
        }
    }
}

impl View for NativeReply<String> {
    type V = NativeReply<Seq<char>>;

    open spec fn view(&self) -> NativeReply<Seq<char>> {
        match *self {
            NativeReply::Done => NativeReply::Done,
            NativeReply::Flag(flag) => NativeReply::Flag(flag),
            NativeReply::Object(object) => NativeReply::Object(object),
            NativeReply::Version(version) => NativeReply::Version(version),
            NativeReply::Submission { submitted, error } =>
                NativeReply::Submission { submitted, error },
            NativeReply::Text(text) => NativeReply::Text(optional_text(text)),
            NativeReply::Task(task) => NativeReply::Task(task),
        }
    }
}

impl<T> View for Next<String, T> {
    type V = Next<Seq<char>, T>;

    open spec fn view(&self) -> Next<Seq<char>, T> {
        match *self {
            Next::Call(call) => Next::Call(call@),
            Next::Done(result) => Next::Done(result),
        }
    }
}

impl<P, T> View for Phase<P, String, T> {
    type V = Phase<P, Seq<char>, T>;

    open spec fn view(&self) -> Phase<P, Seq<char>, T> {
        match *self {
            Phase::Ask(part, call) => Phase::Ask(part, call@),
            Phase::Done(result) => Phase::Done(result),
        }
    }
}

/// Whether a reply is of the kind that a call asks for. There always is a shared
/// scheduler.
pub open spec fn answers<S>(call: NativeCall<S>, reply: NativeReply<S>) -> bool {
    match call {
        NativeCall::LookupClass { .. } => reply is Object,
        NativeCall::OperatingSystemVersion { .. } => reply is Version,
        NativeCall::ObjectResponds { .. } => reply is Flag,
        NativeCall::InstancesRespond { .. } => reply is Flag,
        NativeCall::SharedScheduler { .. } => reply is Object && reply->Object_0 != 0,
        NativeCall::RegisterLaunchHandler { .. } => reply is Flag,
        NativeCall::AllocateRequest { .. } => reply is Object,
        NativeCall::InitializeTitledRequest { .. } => reply is Object,
        NativeCall::InitializeRequest { .. } => reply is Object,
        NativeCall::SetTitle { .. } => reply is Done,
        NativeCall::SetSubtitle { .. } => reply is Done,
        NativeCall::SubmitRequest { .. } => reply is Submission,
        NativeCall::ErrorDescription { .. } => reply is Text,
        NativeCall::SharedApplication { .. } => reply is Object,
        NativeCall::BeginBackgroundTask { .. } => reply is Task,
        NativeCall::EndBackgroundTask { .. } => reply is Done,
        NativeCall::TaskIdentifier { .. } => reply is Text,
        NativeCall::SetTaskCompleted { .. } => reply is Done,
        NativeCall::SetExpirationHandler { .. } => reply is Done,
        NativeCall::TaskProgress { .. } => reply is Object,
        NativeCall::SetTotalUnitCount { .. } => reply is Done,
        NativeCall::SetCompletedUnitCount { .. } => reply is Done,
        NativeCall::Retain { .. } => reply is Object,
        NativeCall::Release { .. } => reply is Done,
    }
}

impl NativeCall<String> {
    /// Whether a reply is of the kind that the call asks for.
    pub fn is_answered_by(&self, reply: &NativeReply<String>) -> (answered: bool)
        ensures
            answered == answers(self@, reply@),
    {
        match self {
            NativeCall::LookupClass { .. }
            | NativeCall::AllocateRequest { .. }
            | NativeCall::InitializeTitledRequest { .. }
            | NativeCall::InitializeRequest { .. }
            | NativeCall::SharedApplication { .. }
            | NativeCall::TaskProgress { .. }
            | NativeCall::Retain { .. } => matches!(reply, NativeReply::Object(_)),
            NativeCall::SharedScheduler { .. } => match reply {
                NativeReply::Object(scheduler) => *scheduler != 0,
                _ => false,
            },
            NativeCall::ObjectResponds { .. }
            | NativeCall::InstancesRespond { .. }
            | NativeCall::RegisterLaunchHandler { .. } => matches!(reply, NativeReply::Flag(_)),
            NativeCall::SetTitle { .. }
            | NativeCall::SetSubtitle { .. }
            | NativeCall::EndBackgroundTask { .. }
            | NativeCall::SetTaskCompleted { .. }
            | NativeCall::SetExpirationHandler { .. }
            | NativeCall::SetTotalUnitCount { .. }
            | NativeCall::SetCompletedUnitCount { .. }
            | NativeCall::Release { .. } => matches!(reply, NativeReply::Done),
            NativeCall::OperatingSystemVersion { .. } => matches!(reply, NativeReply::Version(_)),
            NativeCall::SubmitRequest { .. } => matches!(reply, NativeReply::Submission { .. }),
            NativeCall::ErrorDescription { .. }
            | NativeCall::TaskIdentifier { .. } => matches!(reply, NativeReply::Text(_)),
            NativeCall::BeginBackgroundTask { .. } => matches!(reply, NativeReply::Task(_)),
        }
    }
}

impl NativeReply<String> {
    pub(crate) fn into_flag(self) -> (flag: bool)
        requires
            self@ is Flag,
        ensures
            self@ == NativeReply::<Seq<char>>::Flag(flag),
    {
        match self {
            NativeReply::Flag(flag) => flag,
            _ => false,
        }
    }

    pub(crate) fn into_object(self) -> (object: usize)
        requires
            self@ is Object,
        ensures
            self@ == NativeReply::<Seq<char>>::Object(object),
    {
        match self {
            NativeReply::Object(object) => object,
            _ => 0,
        }
    }

    pub(crate) fn into_text(self) -> (text: Option<String>)
        requires
            self@ is Text,
        ensures
            self@ == NativeReply::Text(optional_text(text)),
    {
        match self {
            NativeReply::Text(text) => text,
            _ => None,
        }
    }
}

/// A device as it is during a flow, as far as it can be told from outside: what it replies
/// to each call.
pub struct Device {
    pub reply: spec_fn(NativeCall<Seq<char>>) -> NativeReply<Seq<char>>,
}

impl Device {
    /// Every call gets a reply of its kind.
    pub open spec fn well_behaved(self) -> bool {
        forall|call: NativeCall<Seq<char>>| #[trigger] answers(call, (self.reply)(call))
    }

    /// The yes or no that the device replies to a call.
    pub open spec fn flag(self, call: NativeCall<Seq<char>>) -> bool {
        (self.reply)(call)->Flag_0
    }

    /// The address that the device replies to a call.
    pub open spec fn object(self, call: NativeCall<Seq<char>>) -> usize {
        (self.reply)(call)->Object_0
    }

    /// The text that the device replies to a call.
    pub open spec fn text(self, call: NativeCall<Seq<char>>) -> Option<Seq<char>> {
        (self.reply)(call)->Text_0
    }

    /// The address of a class on the device; zero where it has none.
    pub open spec fn class(self, class: NativeClass) -> usize {
        self.object(NativeCall::LookupClass { class })
    }

    /// Whether an object on the device responds to a selector.
    pub open spec fn responds(self, object: usize, selector: NativeSelector) -> bool {
        self.flag(NativeCall::ObjectResponds { object, selector })
    }

    /// Whether the instances of a class on the device respond to a selector.
    pub open spec fn instances_respond(self, class: usize, selector: NativeSelector) -> bool {
        self.flag(NativeCall::InstancesRespond { class, selector })
    }
}

/// Every reply of the kind that a call asks for answers it, and no other reply does. The one
/// restriction is that the shared scheduler is never null.
pub proof fn law_every_reply_of_its_kind_answers<S>(call: NativeCall<S>, reply: NativeReply<S>)
    ensures
        call is LookupClass || call is AllocateRequest || call is InitializeTitledRequest || call
            is InitializeRequest || call is SharedApplication || call is TaskProgress || call
            is Retain ==> (answers(call, reply) <==> reply is Object),
        call is SharedScheduler ==> (answers(call, reply) <==> exists|scheduler: usize|
            scheduler != 0 && reply == NativeReply::<S>::Object(scheduler)),
        call is ObjectResponds || call is InstancesRespond || call is RegisterLaunchHandler ==> (
        answers(call, reply) <==> reply is Flag),
        call is SetTitle || call is SetSubtitle || call is EndBackgroundTask || call
            is SetTaskCompleted || call is SetExpirationHandler || call is SetTotalUnitCount
            || call is SetCompletedUnitCount || call is Release ==> (answers(call, reply)
            <==> reply is Done),
        call is OperatingSystemVersion ==> (answers(call, reply) <==> reply is Version),
        call is SubmitRequest ==> (answers(call, reply) <==> reply is Submission),
        call is ErrorDescription || call is TaskIdentifier ==> (answers(call, reply) <==> reply
            is Text),
        call is BeginBackgroundTask ==> (answers(call, reply) <==> reply is Task),
{
    if reply is Object {
        assert(reply == NativeReply::<S>::Object(reply->Object_0));
    }
}

/// What is stated of a call is stated of all of it: calls with the same contents are of the
/// same kind and hold the same texts, addresses and numbers.
pub proof fn law_contents_of_a_call(call: NativeCall<String>, other: NativeCall<Seq<char>>)
    requires
        call@ == other,
    ensures
        match call {
            NativeCall::LookupClass { class } => other == (NativeCall::<Seq<char>>::LookupClass {
                class,
            }),
            NativeCall::OperatingSystemVersion { process_info_class } => other == (NativeCall::<
                Seq<char>,
            >::OperatingSystemVersion { process_info_class }),
            NativeCall::ObjectResponds { object, selector } => other == (NativeCall::<
                Seq<char>,
            >::ObjectResponds { object, selector }),
            NativeCall::InstancesRespond { class, selector } => other == (NativeCall::<
                Seq<char>,
            >::InstancesRespond { class, selector }),
            NativeCall::SharedScheduler { class } => other == (NativeCall::<
                Seq<char>,
            >::SharedScheduler { class }),
            NativeCall::RegisterLaunchHandler { scheduler, pattern } => other == (
            NativeCall::RegisterLaunchHandler { scheduler, pattern: pattern@ }),
            NativeCall::AllocateRequest { class } => other == (NativeCall::<
                Seq<char>,
            >::AllocateRequest { class }),
            NativeCall::InitializeTitledRequest { allocated, identifier, title, subtitle } => other
                == (NativeCall::InitializeTitledRequest {
                allocated,
                identifier: identifier@,
                title: title@,
                subtitle: subtitle@,
            }),
            NativeCall::InitializeRequest { allocated, identifier } => other == (
            NativeCall::InitializeRequest { allocated, identifier: identifier@ }),
            NativeCall::SetTitle { request, title } => other == (NativeCall::SetTitle {
                request,
                title: title@,
            }),
            NativeCall::SetSubtitle { request, subtitle } => other == (NativeCall::SetSubtitle {
                request,
                subtitle: subtitle@,
            }),
            NativeCall::SubmitRequest { scheduler, request } => other == (NativeCall::<
                Seq<char>,
            >::SubmitRequest { scheduler, request }),
            NativeCall::ErrorDescription { error } => other == (NativeCall::<
                Seq<char>,
            >::ErrorDescription { error }),
            NativeCall::SharedApplication { class } => other == (NativeCall::<
                Seq<char>,
            >::SharedApplication { class }),
            NativeCall::BeginBackgroundTask {
                application,
                name,
                expiration_mode,
                expiration_identifier: Some(identifier),
            } => other == (NativeCall::BeginBackgroundTask {
                application,
                name: name@,
                expiration_mode: expiration_mode@,
                expiration_identifier: Some(identifier@),
            }),
            NativeCall::BeginBackgroundTask {
                application,
                name,
                expiration_mode,
                expiration_identifier: None,
            } => other == (NativeCall::BeginBackgroundTask {
                application,
                name: name@,
                expiration_mode: expiration_mode@,
                expiration_identifier: None,
            }),
            NativeCall::EndBackgroundTask { application, task } => other == (NativeCall::<
                Seq<char>,
            >::EndBackgroundTask { application, task }),
            NativeCall::TaskIdentifier { task } => other == (NativeCall::<
                Seq<char>,
            >::TaskIdentifier { task }),
            NativeCall::SetTaskCompleted { task, success } => other == (NativeCall::<
                Seq<char>,
            >::SetTaskCompleted { task, success }),
            NativeCall::SetExpirationHandler { task, identifier, mode } => other == (
            NativeCall::SetExpirationHandler { task, identifier: identifier@, mode: mode@ }),
            NativeCall::TaskProgress { task } => other == (NativeCall::<
                Seq<char>,
            >::TaskProgress { task }),
            NativeCall::SetTotalUnitCount { progress, total } => other == (NativeCall::<
                Seq<char>,
            >::SetTotalUnitCount { progress, total }),
            NativeCall::SetCompletedUnitCount { progress, completed } => other == (NativeCall::<
                Seq<char>,
            >::SetCompletedUnitCount { progress, completed }),
            NativeCall::Retain { object } => other == (NativeCall::<Seq<char>>::Retain { object }),
            NativeCall::Release { object } => other == (NativeCall::<Seq<char>>::Release {
                object,
            }),
        },
{
}

/// What is stated of a reply is stated of all of it.
pub proof fn law_contents_of_a_reply(reply: NativeReply<String>)
    ensures
        match reply {
            NativeReply::Done => reply@ == NativeReply::<Seq<char>>::Done,
            NativeReply::Flag(flag) => reply@ == NativeReply::<Seq<char>>::Flag(flag),
            NativeReply::Object(object) => reply@ == NativeReply::<Seq<char>>::Object(object),
            NativeReply::Version(version) => reply@ == NativeReply::<Seq<char>>::Version(version),
            NativeReply::Submission { submitted, error } => reply@ == (NativeReply::<
                Seq<char>,
            >::Submission { submitted, error }),
            NativeReply::Text(Some(text)) => reply@ == NativeReply::Text(Some(text@)),
            NativeReply::Text(None) => reply@ == NativeReply::<Seq<char>>::Text(None),
            NativeReply::Task(task) => reply@ == NativeReply::<Seq<char>>::Task(task),
        },
{
}

/// What is stated of what a flow, or a part of one, wants next is stated of all of it.
pub proof fn law_contents_of_what_is_wanted<P, T>(
    next: Next<String, T>,
    phase: Phase<P, String, T>,
    text: Option<String>,
)
    ensures
        match next {
            Next::Call(call) => next@ == Next::<Seq<char>, T>::Call(call@),
            Next::Done(result) => next@ == Next::<Seq<char>, T>::Done(result),
        },
        match phase {
            Phase::Ask(part, call) => phase@ == Phase::<P, Seq<char>, T>::Ask(part, call@),
            Phase::Done(result) => phase@ == Phase::<P, Seq<char>, T>::Done(result),
        },
        match text {
            Some(text) => optional_text(Some(text)) == Some(text@),
            None => optional_text(None) is None,
        },
{
}

} // verus!
