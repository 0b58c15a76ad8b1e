use std::sync::Arc;

use ios_agent_background::activity::{
    IosAgentBackgroundActivity, IosAgentBackgroundStartReport,
};
use ios_agent_background::begin::Start;
use ios_agent_background::finite::{begin_finite_background_task, ExpirationBlock};
use ios_agent_background::native::{
    NativeCall, NativeClass, NativeReply, NativeSelector, Next,
};
use ios_agent_background::prepare::prepare_agent_background_handlers;
use ios_agent_background::registry::BackgroundRegistry;
use ios_agent_background::version::OperatingSystemVersion;

const IDENTIFIER: &str = "com.tauritavern.client.agent.continued.run-1";
const PATTERN: &str = "com.tauritavern.client.agent.continued.*";

const REQUEST_CLASS: usize = 2;
const SCHEDULER_CLASS: usize = 3;
const SCHEDULER: usize = 5;
const ALLOCATED: usize = 6;
const REQUEST: usize = 7;
const ERROR: usize = 8;
const APPLICATION: usize = 9;

struct Phone {
    version: Option<isize>,
    missing_classes: Vec<NativeClass>,
    missing_selectors: Vec<NativeSelector>,
    register: bool,
    allocated: usize,
    initialized: usize,
    submitted: bool,
    error: usize,
    description: Option<String>,
    application: usize,
    finite_task: isize,
    calls: Vec<NativeCall<String>>,
    block: Option<ExpirationBlock<u32>>,
}

fn phone() -> Phone {
    Phone {
        version: Some(26),
        missing_classes: Vec::new(),
        missing_selectors: Vec::new(),
        register: true,
        allocated: ALLOCATED,
        initialized: REQUEST,
        submitted: true,
        error: 0,
        description: None,
        application: APPLICATION,
        finite_task: 41,
        calls: Vec::new(),
        block: None,
    }
}

impl Phone {
    fn perform(&mut self, call: NativeCall<String>) -> NativeReply<String> {
        let reply = match &call {
            NativeCall::LookupClass { class } => NativeReply::Object(
                if self.missing_classes.contains(class)
                    || (*class == NativeClass::ProcessInfo && self.version.is_none())
                {
                    0
                } else {
                    match class {
                        NativeClass::ProcessInfo => 1,
                        NativeClass::ContinuedProcessingTaskRequest => REQUEST_CLASS,
                        NativeClass::TaskScheduler => SCHEDULER_CLASS,
                        NativeClass::Application => 4,
                    }
                },
            ),
            NativeCall::OperatingSystemVersion { .. } => {
                NativeReply::Version(OperatingSystemVersion {
                    major_version: self.version.unwrap(),
                    minor_version: 1,
                    patch_version: 0,
                })
            }
            NativeCall::SharedScheduler { .. } => NativeReply::Object(SCHEDULER),
            NativeCall::ObjectResponds { selector, .. }
            | NativeCall::InstancesRespond { selector, .. } => {
                NativeReply::Flag(!self.missing_selectors.contains(selector))
            }
            NativeCall::RegisterLaunchHandler { .. } => NativeReply::Flag(self.register),
            NativeCall::AllocateRequest { .. } => NativeReply::Object(self.allocated),
            NativeCall::InitializeTitledRequest { .. } | NativeCall::InitializeRequest { .. } => {
                NativeReply::Object(self.initialized)
            }
            NativeCall::SubmitRequest { .. } => {
                NativeReply::Submission { submitted: self.submitted, error: self.error }
            }
            NativeCall::ErrorDescription { .. } => NativeReply::Text(self.description.clone()),
            NativeCall::SharedApplication { .. } => NativeReply::Object(self.application),
            NativeCall::BeginBackgroundTask { .. } => NativeReply::Task(self.finite_task),
            _ => NativeReply::Done,
        };
        assert!(call.is_answered_by(&reply));
        self.calls.push(call);
        reply
    }

    fn begin(&mut self, registry: &mut BackgroundRegistry<Arc<u32>>, enabled: bool) -> Start {
        let (mut run, mut call) = IosAgentBackgroundActivity::begin_agent_run(
            "Run_1",
            "Title".to_string(),
            "Subtitle".to_string(),
            Arc::new(77),
            enabled,
        );
        loop {
            self.block = run.expiration_block();
            assert_eq!(
                self.block.is_some(),
                matches!(call, NativeCall::BeginBackgroundTask { .. })
            );
            let reply = self.perform(call);
            match run.resume(registry, reply) {
                Next::Call(next) => call = next,
                Next::Done(start) => return start,
            }
        }
    }

    fn prepare(
        &mut self,
        registry: &mut BackgroundRegistry<Arc<u32>>,
        enabled: bool,
    ) -> Result<(), String> {
        let (mut preparation, mut call) = prepare_agent_background_handlers(enabled);
        loop {
            let reply = self.perform(call);
            match preparation.resume(registry, reply) {
                Next::Call(next) => call = next,
                Next::Done(result) => return result,
            }
        }
    }
}

fn fallback(phone: &mut Phone) -> String {
    let mut registry = BackgroundRegistry::new();
    let (activity, report) = phone.begin(&mut registry, true).unwrap();
    assert_eq!(
        activity,
        IosAgentBackgroundActivity {
            mode: "finite_background_task".to_string(),
            continued_identifier: None,
            finite_background_task: Some(41),
            finished: false,
        }
    );
    assert_eq!(report.mode, "finite_background_task");
    assert_eq!(report.identifier, None);
    assert!(!report.continued_processing_available);
    assert!(!registry.handlers.contains_key(IDENTIFIER));
    assert!(registry.tasks.is_empty());
    report.fallback_reason.unwrap()
}

#[test]
fn a_new_system_gets_a_continued_processing_task() {
    let mut phone = phone();
    let mut registry = BackgroundRegistry::new();
    let (activity, report) = phone.begin(&mut registry, true).unwrap();
    assert_eq!(
        activity,
        IosAgentBackgroundActivity {
            mode: "continued_processing".to_string(),
            continued_identifier: Some(IDENTIFIER.to_string()),
            finite_background_task: None,
            finished: false,
        }
    );
    assert_eq!(
        report,
        IosAgentBackgroundStartReport {
            mode: "continued_processing".to_string(),
            identifier: Some(IDENTIFIER.to_string()),
            system_version: "26.1.0".to_string(),
            continued_processing_available: true,
            fallback_reason: None,
        }
    );
    assert_eq!(registry.handlers.get(IDENTIFIER), Some(&Arc::new(77)));
    assert!(registry.registered);
    assert_eq!(
        phone.calls,
        vec![
            NativeCall::LookupClass { class: NativeClass::ProcessInfo },
            NativeCall::OperatingSystemVersion { process_info_class: 1 },
            NativeCall::LookupClass { class: NativeClass::ProcessInfo },
            NativeCall::OperatingSystemVersion { process_info_class: 1 },
            NativeCall::LookupClass { class: NativeClass::ContinuedProcessingTaskRequest },
            NativeCall::LookupClass { class: NativeClass::TaskScheduler },
            NativeCall::SharedScheduler { class: SCHEDULER_CLASS },
            NativeCall::ObjectResponds {
                object: SCHEDULER,
                selector: NativeSelector::RegisterForTask,
            },
            NativeCall::RegisterLaunchHandler {
                scheduler: SCHEDULER,
                pattern: PATTERN.to_string(),
            },
            NativeCall::ObjectResponds {
                object: SCHEDULER,
                selector: NativeSelector::SubmitTaskRequest,
            },
            NativeCall::InstancesRespond {
                class: REQUEST_CLASS,
                selector: NativeSelector::InitWithIdentifierTitleSubtitle,
            },
            NativeCall::AllocateRequest { class: REQUEST_CLASS },
            NativeCall::InitializeTitledRequest {
                allocated: ALLOCATED,
                identifier: IDENTIFIER.to_string(),
                title: "Title".to_string(),
                subtitle: "Subtitle".to_string(),
            },
            NativeCall::SubmitRequest { scheduler: SCHEDULER, request: REQUEST },
            NativeCall::Release { object: REQUEST },
        ]
    );
}

#[test]
fn the_launch_handler_is_registered_once() {
    let mut phone = phone();
    let mut registry = BackgroundRegistry::new();
    assert_eq!(phone.prepare(&mut registry, true), Ok(()));
    phone.begin(&mut registry, true).unwrap();
    phone.begin(&mut registry, true).unwrap();
    let registrations = phone
        .calls
        .iter()
        .filter(|call| matches!(call, NativeCall::RegisterLaunchHandler { .. }))
        .count();
    assert_eq!(registrations, 1);
}

#[test]
fn the_identifier_initializer_is_the_second_choice() {
    let mut phone = phone();
    phone.missing_selectors = vec![NativeSelector::InitWithIdentifierTitleSubtitle];
    let mut registry = BackgroundRegistry::new();
    let (activity, _) = phone.begin(&mut registry, true).unwrap();
    assert_eq!(activity.mode, "continued_processing");
    let from = phone
        .calls
        .iter()
        .position(|call| matches!(call, NativeCall::AllocateRequest { .. }))
        .unwrap();
    assert_eq!(
        phone.calls[from..],
        [
            NativeCall::AllocateRequest { class: REQUEST_CLASS },
            NativeCall::InitializeRequest {
                allocated: ALLOCATED,
                identifier: IDENTIFIER.to_string(),
            },
            NativeCall::ObjectResponds { object: REQUEST, selector: NativeSelector::SetTitle },
            NativeCall::SetTitle { request: REQUEST, title: "Title".to_string() },
            NativeCall::ObjectResponds { object: REQUEST, selector: NativeSelector::SetSubtitle },
            NativeCall::SetSubtitle { request: REQUEST, subtitle: "Subtitle".to_string() },
            NativeCall::SubmitRequest { scheduler: SCHEDULER, request: REQUEST },
            NativeCall::Release { object: REQUEST },
        ]
    );
}

#[test]
fn texts_that_cannot_be_set_are_left_out() {
    let mut phone = phone();
    phone.missing_selectors = vec![
        NativeSelector::InitWithIdentifierTitleSubtitle,
        NativeSelector::SetTitle,
        NativeSelector::SetSubtitle,
    ];
    let mut registry = BackgroundRegistry::new();
    let (activity, _) = phone.begin(&mut registry, true).unwrap();
    assert_eq!(activity.mode, "continued_processing");
    assert!(!phone.calls.iter().any(|call| {
        matches!(call, NativeCall::SetTitle { .. } | NativeCall::SetSubtitle { .. })
    }));
}

#[test]
fn an_unknown_version_falls_back() {
    let mut phone = phone();
    phone.version = None;
    assert_eq!(
        fallback(&mut phone),
        "NSProcessInfo operatingSystemVersion is unavailable"
    );
}

#[test]
fn an_unknown_version_is_reported_as_unknown() {
    let mut phone = phone();
    phone.version = None;
    let (_, report) = phone.begin(&mut BackgroundRegistry::new(), true).unwrap();
    assert_eq!(report.system_version, "unknown");
}

#[test]
fn an_old_system_falls_back() {
    let mut phone = phone();
    phone.version = Some(25);
    assert_eq!(
        fallback(&mut phone),
        "iOS 25.1.0 does not support BGContinuedProcessingTask"
    );
    assert_eq!(
        phone.calls.last(),
        Some(&NativeCall::BeginBackgroundTask {
            application: APPLICATION,
            name: "Title".to_string(),
            expiration_mode: "finite_background_task".to_string(),
            expiration_identifier: None,
        })
    );
}

#[test]
fn a_build_without_continued_processing_falls_back() {
    let mut phone = phone();
    let mut registry = BackgroundRegistry::new();
    let (activity, report) = phone.begin(&mut registry, false).unwrap();
    assert_eq!(activity.mode, "finite_background_task");
    assert_eq!(
        report.fallback_reason.unwrap(),
        "ios-bg-continued-processing is disabled in this build"
    );
    assert!(!registry.registered);
    assert!(registry.handlers.is_empty());
    assert!(!phone.calls.contains(&NativeCall::LookupClass {
        class: NativeClass::TaskScheduler
    }));
}

#[test]
fn missing_classes_fall_back() {
    let mut request = phone();
    request.missing_classes = vec![NativeClass::ContinuedProcessingTaskRequest];
    assert_eq!(
        fallback(&mut request),
        "BGContinuedProcessingTaskRequest class is unavailable"
    );
    let mut scheduler = phone();
    scheduler.missing_classes = vec![NativeClass::TaskScheduler];
    assert_eq!(fallback(&mut scheduler), "BGTaskScheduler class is unavailable");
}

#[test]
fn a_failed_registration_falls_back() {
    let mut unavailable = phone();
    unavailable.missing_selectors = vec![NativeSelector::RegisterForTask];
    assert_eq!(
        fallback(&mut unavailable),
        "BGTaskScheduler registerForTaskWithIdentifier:usingQueue:launchHandler: is unavailable"
    );
    let mut rejected = phone();
    rejected.register = false;
    assert_eq!(
        fallback(&mut rejected),
        "BGTaskScheduler registration failed for com.tauritavern.client.agent.continued.*"
    );
}

#[test]
fn a_failed_request_falls_back() {
    let mut submission = phone();
    submission.missing_selectors = vec![NativeSelector::SubmitTaskRequest];
    assert_eq!(
        fallback(&mut submission),
        "BGTaskScheduler submitTaskRequest:error: is unavailable"
    );
    let mut allocation = phone();
    allocation.allocated = 0;
    assert_eq!(
        fallback(&mut allocation),
        "BGContinuedProcessingTaskRequest alloc returned null"
    );
    let mut titled = phone();
    titled.initialized = 0;
    assert_eq!(
        fallback(&mut titled),
        "BGContinuedProcessingTaskRequest title initializer returned null"
    );
    let mut plain_allocation = phone();
    plain_allocation.missing_selectors = vec![NativeSelector::InitWithIdentifierTitleSubtitle];
    plain_allocation.allocated = 0;
    assert_eq!(
        fallback(&mut plain_allocation),
        "BGContinuedProcessingTaskRequest alloc returned null"
    );
    let mut plain = phone();
    plain.missing_selectors = vec![NativeSelector::InitWithIdentifierTitleSubtitle];
    plain.initialized = 0;
    assert_eq!(
        fallback(&mut plain),
        "BGContinuedProcessingTaskRequest identifier initializer returned null"
    );
    let mut none = phone();
    none.missing_selectors = vec![
        NativeSelector::InitWithIdentifierTitleSubtitle,
        NativeSelector::InitWithIdentifier,
    ];
    assert_eq!(
        fallback(&mut none),
        "BGContinuedProcessingTaskRequest has no supported initializer"
    );
}

#[test]
fn a_refused_submission_falls_back_with_its_description() {
    let mut phone = phone();
    phone.submitted = false;
    phone.error = ERROR;
    phone.description = Some("too many tasks".to_string());
    assert_eq!(
        fallback(&mut phone),
        "BGContinuedProcessingTaskRequest submission failed: too many tasks"
    );
    assert!(phone.calls.contains(&NativeCall::Release { object: REQUEST }));
    assert!(phone.calls.contains(&NativeCall::ErrorDescription { error: ERROR }));
}

#[test]
fn a_refused_submission_without_description_is_unknown() {
    let mut silent = phone();
    silent.submitted = false;
    assert_eq!(
        fallback(&mut silent),
        "BGContinuedProcessingTaskRequest submission failed: unknown error"
    );
    assert!(!silent
        .calls
        .iter()
        .any(|call| matches!(call, NativeCall::ErrorDescription { .. })));
    let mut mute = phone();
    mute.submitted = false;
    mute.error = ERROR;
    assert_eq!(
        fallback(&mut mute),
        "BGContinuedProcessingTaskRequest submission failed: unknown error"
    );
}

#[test]
fn without_either_mechanism_the_start_fails() {
    let mut class = phone();
    class.version = Some(17);
    class.missing_classes = vec![NativeClass::Application];
    assert_eq!(
        class.begin(&mut BackgroundRegistry::new(), true),
        Err("UIApplication class is unavailable".to_string())
    );
    let mut instance = phone();
    instance.version = Some(17);
    instance.application = 0;
    assert_eq!(
        instance.begin(&mut BackgroundRegistry::new(), true),
        Err("UIApplication.sharedApplication returned null".to_string())
    );
    let mut task = phone();
    task.version = Some(17);
    task.finite_task = -1;
    assert_eq!(
        task.begin(&mut BackgroundRegistry::new(), true),
        Err("UIApplication.beginBackgroundTask returned invalid identifier".to_string())
    );
}

#[test]
fn a_failed_attempt_leaves_the_handlers_of_others() {
    let mut phone = phone();
    phone.submitted = false;
    let mut registry = BackgroundRegistry::new();
    registry.handlers.insert("other".to_string(), Arc::new(5));
    phone.begin(&mut registry, true).unwrap();
    assert_eq!(registry.handlers.len(), 1);
    assert_eq!(registry.handlers.get("other"), Some(&Arc::new(5)));
}

#[test]
fn preparation_registers_the_launch_handler() {
    let mut phone = phone();
    let mut registry = BackgroundRegistry::new();
    assert_eq!(phone.prepare(&mut registry, true), Ok(()));
    assert!(registry.registered);
}

#[test]
fn preparation_has_nothing_to_do_without_continued_processing() {
    let mut old = phone();
    old.version = Some(25);
    let mut registry = BackgroundRegistry::new();
    assert_eq!(old.prepare(&mut registry, true), Ok(()));
    assert!(!registry.registered);
    let mut disabled = phone();
    assert_eq!(disabled.prepare(&mut registry, false), Ok(()));
    assert!(!registry.registered);
    assert_eq!(disabled.calls.len(), 2);
}

#[test]
fn preparation_fails_with_a_reason() {
    let mut registry = BackgroundRegistry::new();
    let mut unknown = phone();
    unknown.version = None;
    assert_eq!(
        unknown.prepare(&mut registry, true),
        Err("NSProcessInfo operatingSystemVersion is unavailable".to_string())
    );
    let mut class = phone();
    class.missing_classes = vec![NativeClass::TaskScheduler];
    assert_eq!(
        class.prepare(&mut registry, true),
        Err("BGTaskScheduler class is unavailable".to_string())
    );
    let mut rejected = phone();
    rejected.register = false;
    assert_eq!(
        rejected.prepare(&mut registry, true),
        Err(
            "BGTaskScheduler registration failed for com.tauritavern.client.agent.continued.*"
                .to_string()
        )
    );
    assert!(!registry.registered);
}

#[test]
fn a_start_comes_back_from_the_main_thread() {
    assert_eq!(
        IosAgentBackgroundActivity::start_from_main_thread(Err("gone".to_string()), None),
        Err("gone".to_string())
    );
    assert_eq!(
        IosAgentBackgroundActivity::start_from_main_thread(Ok(()), None),
        Err("iOS background activity setup channel closed".to_string())
    );
    assert_eq!(
        IosAgentBackgroundActivity::start_from_main_thread(Ok(()), Some(Err("no".to_string()))),
        Err("no".to_string())
    );
    let start = phone().begin(&mut BackgroundRegistry::new(), true);
    assert!(IosAgentBackgroundActivity::start_from_main_thread(Ok(()), Some(start)).is_ok());
}

#[test]
fn classes_and_selectors_have_their_native_names() {
    assert_eq!(NativeClass::ProcessInfo.name(), "NSProcessInfo");
    assert_eq!(NativeClass::TaskScheduler.name(), "BGTaskScheduler");
    assert_eq!(
        NativeClass::ContinuedProcessingTaskRequest.name(),
        "BGContinuedProcessingTaskRequest"
    );
    assert_eq!(NativeClass::Application.name(), "UIApplication");
    assert_eq!(
        NativeSelector::RegisterForTask.name(),
        "registerForTaskWithIdentifier:usingQueue:launchHandler:"
    );
    assert_eq!(NativeSelector::SubmitTaskRequest.name(), "submitTaskRequest:error:");
    assert_eq!(
        NativeSelector::InitWithIdentifierTitleSubtitle.name(),
        "initWithIdentifier:title:subtitle:"
    );
    assert_eq!(NativeSelector::InitWithIdentifier.name(), "initWithIdentifier:");
    assert_eq!(NativeSelector::SetTitle.name(), "setTitle:");
    assert_eq!(NativeSelector::SetSubtitle.name(), "setSubtitle:");
    assert_eq!(NativeSelector::Progress.name(), "progress");
}

#[test]
fn replies_of_another_kind_do_not_answer() {
    let call = NativeCall::SharedScheduler { class: SCHEDULER_CLASS };
    assert!(call.is_answered_by(&NativeReply::Object(SCHEDULER)));
    assert!(!call.is_answered_by(&NativeReply::Object(0)));
    assert!(!call.is_answered_by(&NativeReply::Done));
    let call = NativeCall::TaskIdentifier { task: 1 };
    assert!(call.is_answered_by(&NativeReply::Text(None)));
    assert!(!call.is_answered_by(&NativeReply::Flag(true)));
}

#[test]
fn a_finite_task_calls_the_handler_of_its_run() {
    let mut phone = phone();
    phone.version = Some(17);
    phone.begin(&mut BackgroundRegistry::new(), true).unwrap();
    let block = phone.block.unwrap();
    for _ in 0..2 {
        let (handler, expiration) = block.fire();
        assert_eq!(*handler, 77);
        assert_eq!(expiration.mode, "finite_background_task");
        assert_eq!(expiration.identifier, None);
    }
}

#[test]
fn a_finite_task_passes_its_report_through() {
    let (mut attempt, call) = begin_finite_background_task(
        "Title".to_string(),
        Arc::new(78),
        "17.0.0".to_string(),
        None,
    );
    assert_eq!(call, NativeCall::LookupClass { class: NativeClass::Application });
    assert!(attempt.expiration_block().is_none());
    assert_eq!(
        attempt.resume(NativeReply::Object(4)),
        Next::Call(NativeCall::SharedApplication { class: 4 })
    );
    assert_eq!(
        attempt.resume(NativeReply::Object(APPLICATION)),
        Next::Call(NativeCall::BeginBackgroundTask {
            application: APPLICATION,
            name: "Title".to_string(),
            expiration_mode: "finite_background_task".to_string(),
            expiration_identifier: None,
        })
    );
    assert_eq!(*attempt.expiration_block().unwrap().fire().0, 78);
    match attempt.resume(NativeReply::Task(3)) {
        Next::Done(Ok((activity, report))) => {
            assert_eq!(activity.finite_background_task, Some(3));
            assert_eq!(report.system_version, "17.0.0");
            assert_eq!(report.fallback_reason, None);
        }
        other => panic!("{:?}", other),
    }
}

#[test]
fn the_report_gives_the_version_that_was_told_at_first() {
    let mut phone = phone();
    let mut registry = BackgroundRegistry::new();
    let (mut run, mut call) = IosAgentBackgroundActivity::begin_agent_run(
        "Run_1",
        "Title".to_string(),
        "Subtitle".to_string(),
        Arc::new(77),
        true,
    );
    let start = loop {
        let reply = phone.perform(call);
        phone.version = Some(25);
        if phone.calls.len() == 1 {
            phone.version = Some(26);
        }
        match run.resume(&mut registry, reply) {
            Next::Call(next) => call = next,
            Next::Done(start) => break start,
        }
    };
    let (_, report) = start.unwrap();
    assert_eq!(report.system_version, "26.1.0");
    assert_eq!(
        report.fallback_reason.unwrap(),
        "iOS 25.1.0 does not support BGContinuedProcessingTask"
    );
}
