use ios_agent_background::activity::IosAgentBackgroundActivity;
use ios_agent_background::finish::{finish_on_main_thread, FinishRequest};
use ios_agent_background::launch::handle_continued_processing_task;
use ios_agent_background::native::{
    NativeCall, NativeClass, NativeReply, NativeSelector, Next,
};
use ios_agent_background::registry::{
    has_expiration_handler, insert_expiration_handler, invoke_expiration_handler,
    remove_expiration_handler, retain_continued_processing_task, take_continued_processing_task,
    BackgroundRegistry,
};

const APPLICATION_CLASS: usize = 4;
const APPLICATION: usize = 9;
const PROGRESS: usize = 30;

struct Phone {
    identifier: Option<String>,
    application_class: usize,
    application: usize,
    calls: Vec<NativeCall<String>>,
}

fn phone(identifier: Option<&str>) -> Phone {
    Phone {
        identifier: identifier.map(|text| text.to_string()),
        application_class: APPLICATION_CLASS,
        application: APPLICATION,
        calls: Vec::new(),
    }
}

impl Phone {
    fn perform(&mut self, call: NativeCall<String>) -> NativeReply<String> {
        let reply = match &call {
            NativeCall::TaskIdentifier { .. } => NativeReply::Text(self.identifier.clone()),
            NativeCall::Retain { object } => NativeReply::Object(*object),
            NativeCall::ObjectResponds { .. } => NativeReply::Flag(true),
            NativeCall::TaskProgress { .. } => NativeReply::Object(PROGRESS),
            NativeCall::LookupClass { .. } => NativeReply::Object(self.application_class),
            NativeCall::SharedApplication { .. } => NativeReply::Object(self.application),
            _ => NativeReply::Done,
        };
        assert!(call.is_answered_by(&reply));
        self.calls.push(call);
        reply
    }

    fn launch(&mut self, registry: &mut BackgroundRegistry<u32>, task: usize) {
        let (mut run, mut next) = handle_continued_processing_task(task);
        while let Next::Call(call) = next {
            let reply = self.perform(call);
            next = run.resume(registry, reply);
        }
    }

    fn finish(&mut self, registry: &mut BackgroundRegistry<u32>, request: FinishRequest) {
        let (mut run, mut next) = finish_on_main_thread(request, registry);
        while let Next::Call(call) = next {
            let reply = self.perform(call);
            next = run.resume(registry, reply);
        }
    }

    fn balance(&self) -> i64 {
        self.calls
            .iter()
            .map(|call| match call {
                NativeCall::Retain { .. } => 1,
                NativeCall::Release { .. } => -1,
                _ => 0,
            })
            .sum()
    }
}

fn taken_on(task: usize, released: Option<usize>) -> Vec<NativeCall<String>> {
    let mut calls = vec![
        NativeCall::TaskIdentifier { task },
        NativeCall::Retain { object: task },
    ];
    if let Some(object) = released {
        calls.push(NativeCall::Release { object });
    }
    calls.push(NativeCall::SetExpirationHandler {
        task,
        identifier: "id".to_string(),
        mode: "continued_processing".to_string(),
    });
    calls.push(NativeCall::ObjectResponds { object: task, selector: NativeSelector::Progress });
    calls.push(NativeCall::TaskProgress { task });
    calls.push(NativeCall::SetTotalUnitCount { progress: PROGRESS, total: 100 });
    calls.push(NativeCall::SetCompletedUnitCount { progress: PROGRESS, completed: 1 });
    calls
}

fn waiting() -> BackgroundRegistry<u32> {
    let mut registry = BackgroundRegistry::new();
    insert_expiration_handler(&mut registry.handlers, "id", 77);
    registry
}

fn request(identifier: Option<&str>, task: Option<isize>) -> FinishRequest {
    FinishRequest {
        continued_identifier: identifier.map(|text| text.to_string()),
        finite_background_task: task,
        success: true,
    }
}

#[test]
fn a_launched_task_is_taken_on() {
    let mut registry = waiting();
    let mut phone = phone(Some("id"));
    phone.launch(&mut registry, 20);
    assert_eq!(phone.calls, taken_on(20, None));
    assert_eq!(registry.tasks.get("id"), Some(&20));
    assert_eq!(phone.balance(), 1);
}

#[test]
fn a_second_launch_releases_the_first_task() {
    let mut registry = waiting();
    phone(Some("id")).launch(&mut registry, 20);
    let mut phone = phone(Some("id"));
    phone.launch(&mut registry, 21);
    assert_eq!(phone.calls, taken_on(21, Some(20)));
    assert_eq!(registry.tasks.get("id"), Some(&21));
    assert_eq!(registry.tasks.len(), 1);
    assert_eq!(phone.balance(), 0);
}

#[test]
fn a_null_task_is_not_handled() {
    let mut phone = phone(Some("id"));
    phone.launch(&mut waiting(), 0);
    assert!(phone.calls.is_empty());
}

#[test]
fn a_task_without_identifier_is_left_alone() {
    for identifier in [None, Some("")] {
        let mut registry = waiting();
        let mut phone = phone(identifier);
        phone.launch(&mut registry, 20);
        assert_eq!(phone.calls, vec![NativeCall::TaskIdentifier { task: 20 }]);
        assert!(registry.tasks.is_empty());
    }
}

#[test]
fn a_task_that_nobody_waits_for_is_completed_without_success() {
    let mut registry = waiting();
    let mut phone = phone(Some("other"));
    phone.launch(&mut registry, 20);
    assert_eq!(
        phone.calls,
        vec![
            NativeCall::TaskIdentifier { task: 20 },
            NativeCall::SetTaskCompleted { task: 20, success: false },
        ]
    );
    assert!(registry.tasks.is_empty());
}

#[test]
fn finishing_completes_and_releases_the_launched_task() {
    let mut registry = waiting();
    phone(Some("id")).launch(&mut registry, 20);
    let mut phone = phone(None);
    phone.finish(&mut registry, request(Some("id"), None));
    assert_eq!(
        phone.calls,
        vec![
            NativeCall::SetTaskCompleted { task: 20, success: true },
            NativeCall::Release { object: 20 },
        ]
    );
    assert!(registry.tasks.is_empty());
    assert!(registry.handlers.is_empty());
    assert_eq!(phone.balance(), -1);
}

#[test]
fn finishing_before_the_launch_removes_the_handler() {
    let mut registry = waiting();
    let mut before = phone(None);
    before.finish(&mut registry, request(Some("id"), None));
    assert!(before.calls.is_empty());
    assert!(registry.handlers.is_empty());

    let mut late = phone(Some("id"));
    late.launch(&mut registry, 20);
    assert_eq!(
        late.calls.last(),
        Some(&NativeCall::SetTaskCompleted { task: 20, success: false })
    );
    assert!(registry.tasks.is_empty());
}

#[test]
fn finishing_a_null_task_makes_no_call() {
    let mut registry = waiting();
    registry.tasks.insert("id".to_string(), 0);
    let mut phone = phone(None);
    phone.finish(&mut registry, request(Some("id"), None));
    assert!(phone.calls.is_empty());
    assert!(registry.tasks.is_empty());
    assert!(registry.handlers.is_empty());
}

#[test]
fn finishing_ends_the_finite_background_task() {
    let mut registry = waiting();
    let mut phone = phone(None);
    phone.finish(&mut registry, request(None, Some(41)));
    assert_eq!(
        phone.calls,
        vec![
            NativeCall::LookupClass { class: NativeClass::Application },
            NativeCall::SharedApplication { class: APPLICATION_CLASS },
            NativeCall::EndBackgroundTask { application: APPLICATION, task: 41 },
        ]
    );
    assert!(has_expiration_handler(&registry.handlers, "id"));
}

#[test]
fn an_invalid_finite_background_task_is_not_ended() {
    let mut phone = phone(None);
    phone.finish(&mut waiting(), request(None, Some(-1)));
    assert!(phone.calls.is_empty());
}

#[test]
fn without_application_no_finite_background_task_is_ended() {
    let mut class = phone(None);
    class.application_class = 0;
    class.finish(&mut waiting(), request(None, Some(41)));
    assert_eq!(class.calls.len(), 1);
    let mut instance = phone(None);
    instance.application = 0;
    instance.finish(&mut waiting(), request(None, Some(41)));
    assert_eq!(instance.calls.len(), 2);
}

#[test]
fn both_mechanisms_are_ended_in_turn() {
    let mut registry = waiting();
    phone(Some("id")).launch(&mut registry, 20);
    let mut phone = phone(None);
    phone.finish(&mut registry, request(Some("id"), Some(41)));
    assert_eq!(
        phone.calls,
        vec![
            NativeCall::SetTaskCompleted { task: 20, success: true },
            NativeCall::Release { object: 20 },
            NativeCall::LookupClass { class: NativeClass::Application },
            NativeCall::SharedApplication { class: APPLICATION_CLASS },
            NativeCall::EndBackgroundTask { application: APPLICATION, task: 41 },
        ]
    );
}

#[test]
fn an_expiration_finds_the_handler() {
    let registry = waiting();
    let (handler, expiration) =
        invoke_expiration_handler(&registry.handlers, "id", "continued_processing").unwrap();
    assert_eq!(*handler, 77);
    assert_eq!(expiration.mode, "continued_processing");
    assert_eq!(expiration.identifier, Some("id".to_string()));
    assert!(invoke_expiration_handler(&registry.handlers, "other", "m").is_none());
}

#[test]
fn handlers_are_replaced_and_removed() {
    let mut registry = waiting();
    insert_expiration_handler(&mut registry.handlers, "id", 78);
    assert_eq!(registry.handlers.get("id"), Some(&78));
    remove_expiration_handler(&mut registry.handlers, "other");
    assert!(has_expiration_handler(&registry.handlers, "id"));
    remove_expiration_handler(&mut registry.handlers, "id");
    assert!(!has_expiration_handler(&registry.handlers, "id"));
}

#[test]
fn tasks_are_replaced_and_taken() {
    let mut registry: BackgroundRegistry<u32> = BackgroundRegistry::new();
    assert_eq!(retain_continued_processing_task(&mut registry.tasks, "id", 20), None);
    assert_eq!(retain_continued_processing_task(&mut registry.tasks, "id", 21), Some(20));
    assert_eq!(take_continued_processing_task(&mut registry.tasks, "id"), Some(21));
    assert_eq!(take_continued_processing_task(&mut registry.tasks, "id"), None);
}

fn continued() -> IosAgentBackgroundActivity {
    IosAgentBackgroundActivity {
        mode: "continued_processing".to_string(),
        continued_identifier: Some("id".to_string()),
        finite_background_task: None,
        finished: false,
    }
}

#[test]
fn an_activity_passes_progress_on() {
    let report = continued().report_progress(40, 100).unwrap();
    assert_eq!(report.identifier, "id");
    assert_eq!((report.completed, report.total), (40, 100));
}

#[test]
fn a_finite_activity_passes_no_progress_on() {
    let activity = IosAgentBackgroundActivity {
        mode: "finite_background_task".to_string(),
        continued_identifier: None,
        finite_background_task: Some(41),
        finished: false,
    };
    assert_eq!(activity.report_progress(40, 100), None);
}

#[test]
fn an_activity_finishes_once() {
    let mut activity = continued();
    assert_eq!(
        activity.finish(false),
        Some(FinishRequest {
            continued_identifier: Some("id".to_string()),
            finite_background_task: None,
            success: false,
        })
    );
    assert!(activity.finished);
    assert_eq!(activity.finish(true), None);
    assert_eq!(activity.report_progress(40, 100), None);
}
