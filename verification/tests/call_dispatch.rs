use event_hook::abi::{CallArguments, ForeignCall};
use event_hook::dispatch::{
    fake_process_event, process_event, DispatchError, Interception, PendingNotification, Verdict,
};
use event_hook::hook::{HookEvent, HookInstaller, HookStrategy};
use event_hook::notification::{MessageQueue, PendingMessage, Policy, SystemMessage};
use event_hook::sdk::array::TArray;
use event_hook::sdk::fstring::FString;
use event_hook::sdk::object::{FName, FNameEntry, UClass, UField, UFunction, UObject, UState, UStruct};
use event_hook::sdk::sfxgame::{
    FSFXOnlineMOTDInfo, USFXOnlineComponentUI,
    USFXOnlineComponentUI_eventOnDisplayNotification_Parms, ON_DISPLAY_NOTIFICATION_INDEX,
};

const ARGUMENTS: CallArguments = CallArguments {
    object: 0x0100_0000,
    function: 0x0200_0000,
    params: 0x0300_0000,
    result: 0x0400_0000,
};

fn named(bytes: &[u8]) -> UObject {
    UObject {
        name: FName { name_entry: Some(FNameEntry::from_bytes(bytes)), name_index: 0 },
        ..Default::default()
    }
}

fn function(package: &[u8], owner: &[u8], name: &[u8]) -> UFunction {
    let class = UClass {
        _base: UState {
            _base: UStruct { _base: UField { _base: named(b"Function"), ..Default::default() } },
        },
    };
    let owner = UObject { outer: Some(Box::new(named(package))), ..named(owner) };
    let object =
        UObject { class: Some(Box::new(class)), outer: Some(Box::new(owner)), ..named(name) };
    UFunction {
        _base: UStruct { _base: UField { _base: object, ..Default::default() } },
        ..Default::default()
    }
}

fn notification() -> UFunction {
    function(b"SFXGame", b"SFXOnlineComponentUI", b"OnDisplayNotification")
}

fn params(message: &str) -> USFXOnlineComponentUI_eventOnDisplayNotification_Parms {
    USFXOnlineComponentUI_eventOnDisplayNotification_Parms {
        info: FSFXOnlineMOTDInfo {
            message: FString::from_string(message.to_string()),
            title: FString::from_string("title".to_string()),
            image: FString::from_string("image".to_string()),
            tracking_id: 1,
            priority: 2,
            bw_ent_id: 3,
            offer_id: 4,
            ty: 5,
        },
    }
}

fn inspect(arguments: CallArguments) -> PendingNotification {
    match fake_process_event(&notification(), arguments) {
        Interception::Inspect { pending, .. } => pending,
        other => panic!("expected the notification event, got {other:?}"),
    }
}

fn message() -> SystemMessage {
    SystemMessage {
        title: "A".to_string(),
        message: "B".to_string(),
        image: String::new(),
        ty: 0,
        tracking_id: 7,
        priority: 2,
    }
}

#[test]
fn unrelated_call_goes_through_with_its_arguments() {
    let tick = function(b"Engine", b"Actor", b"Tick");
    match fake_process_event(&tick, ARGUMENTS) {
        Interception::CallThrough { line, arguments } => {
            assert_eq!(line, "Function Engine.Actor.Tick\n");
            assert_eq!(arguments, ARGUMENTS);
        }
        other => panic!("expected a call through, got {other:?}"),
    }
}

#[test]
fn every_unrelated_call_keeps_its_arguments() {
    let calls = [
        CallArguments::default(),
        ARGUMENTS,
        CallArguments { object: u32::MAX, function: 1, params: 0, result: u32::MAX },
    ];
    for arguments in calls {
        for name in [&b"OnDisplayNotificatio"[..], b"ClearNotifications", b""] {
            let other = function(b"SFXGame", b"SFXOnlineComponentUI", name);
            match fake_process_event(&other, arguments) {
                Interception::CallThrough { arguments: forwarded, .. } => {
                    assert_eq!(forwarded, arguments)
                }
                other => panic!("expected a call through, got {other:?}"),
            }
        }
    }
}

#[test]
fn call_without_identity_is_recorded_as_null_and_goes_through() {
    let anonymous = UFunction::default();
    match fake_process_event(&anonymous, ARGUMENTS) {
        Interception::CallThrough { line, arguments } => {
            assert_eq!(line, "(null)\n");
            assert_eq!(arguments, ARGUMENTS);
        }
        other => panic!("expected a call through, got {other:?}"),
    }
}

#[test]
fn call_with_an_unreadable_name_is_fatal() {
    let broken = function(b"SFXGame", &[0xFF, 0xFE], b"OnDisplayNotification");
    assert!(matches!(
        fake_process_event(&broken, ARGUMENTS),
        Interception::Abort(DispatchError::UnreadableIdentity)
    ));
}

#[test]
fn notification_event_is_recorded_and_inspected() {
    match fake_process_event(&notification(), ARGUMENTS) {
        Interception::Inspect { line, .. } => {
            assert_eq!(line, "Function SFXGame.SFXOnlineComponentUI.OnDisplayNotification\n")
        }
        other => panic!("expected the notification event, got {other:?}"),
    }
}

#[test]
fn notification_without_argument_block_is_fatal() {
    let mut queue = MessageQueue::new();
    queue.push(PendingMessage::default());
    let verdict = inspect(ARGUMENTS).translate(None, Policy::QueueSubstitution, &mut queue);
    assert!(matches!(verdict, Verdict::Abort(DispatchError::NullParams)));
    assert_eq!(queue.len(), 1);
}

#[test]
fn plain_notification_goes_through_with_its_arguments() {
    let mut queue = MessageQueue::new();
    let block = params("Welcome back, Commander.");
    let verdict = inspect(ARGUMENTS).translate(Some(&block), Policy::StructuredExtraction, &mut queue);
    match verdict {
        Verdict::CallThrough(arguments) => assert_eq!(arguments, ARGUMENTS),
        other => panic!("expected a call through, got {other:?}"),
    }
}

#[test]
fn structured_notification_is_replaced_once_parsed() {
    let mut queue = MessageQueue::new();
    let block = params("[SYSTEM_TERMINAL]{\"title\":\"A\"}\0");
    let verdict = inspect(ARGUMENTS).translate(Some(&block), Policy::StructuredExtraction, &mut queue);
    let pending = match verdict {
        Verdict::Parse { body, pending } => {
            assert_eq!(body, "{\"title\":\"A\"}");
            pending
        }
        other => panic!("expected a text to parse, got {other:?}"),
    };
    match pending.resume(Some(message())) {
        Verdict::Invoke(call) => {
            assert_eq!(call.object, ARGUMENTS.object);
            assert_eq!(call.function_index, 78599);
            assert_eq!(call.params.info.title.decode(), Ok("A\0".to_string()));
            assert_eq!(call.params.info.message.decode(), Ok("B\0".to_string()));
            assert_eq!(call.params.info.image.decode(), Ok("\0".to_string()));
            assert_eq!(call.params.info.tracking_id, 7);
            assert_eq!(call.params.info.priority, 2);
            assert_eq!(call.params.info.ty, 0);
            assert_eq!(call.params.info.bw_ent_id, 0);
            assert_eq!(call.params.info.offer_id, 0);
        }
        other => panic!("expected a replacement, got {other:?}"),
    }
}

#[test]
fn unparsed_notification_goes_through_with_its_arguments() {
    let mut queue = MessageQueue::new();
    let block = params("[SYSTEM_TERMINAL]{not json}");
    let verdict = inspect(ARGUMENTS).translate(Some(&block), Policy::StructuredExtraction, &mut queue);
    let pending = match verdict {
        Verdict::Parse { pending, .. } => pending,
        other => panic!("expected a text to parse, got {other:?}"),
    };
    match pending.resume(None) {
        Verdict::CallThrough(arguments) => assert_eq!(arguments, ARGUMENTS),
        other => panic!("expected a call through, got {other:?}"),
    }
}

#[test]
fn undecodable_notification_goes_through_with_its_arguments() {
    let mut queue = MessageQueue::new();
    let mut block = params("x");
    block.info.message = FString(TArray::from(vec![-10240i16]));
    let verdict = inspect(ARGUMENTS).translate(Some(&block), Policy::StructuredExtraction, &mut queue);
    match verdict {
        Verdict::CallThrough(arguments) => assert_eq!(arguments, ARGUMENTS),
        other => panic!("expected a call through, got {other:?}"),
    }
}

#[test]
fn queued_message_replaces_the_notification() {
    let mut queue = MessageQueue::new();
    queue.push(PendingMessage {
        title: "T".to_string(),
        message: "M".to_string(),
        image: "I".to_string(),
    });
    let block = params("anything");
    match inspect(ARGUMENTS).translate(Some(&block), Policy::QueueSubstitution, &mut queue) {
        Verdict::Invoke(call) => {
            assert_eq!(call.object, ARGUMENTS.object);
            assert_eq!(call.function_index, ON_DISPLAY_NOTIFICATION_INDEX);
            assert_eq!(call.params.info.title.decode(), Ok("T\0".to_string()));
            assert_eq!(call.params.info.message.decode(), Ok("M\0".to_string()));
            assert_eq!(call.params.info.image.decode(), Ok("I\0".to_string()));
            assert_eq!(call.params.info.tracking_id, -1);
            assert_eq!(call.params.info.priority, 1);
        }
        other => panic!("expected a replacement, got {other:?}"),
    }
    match inspect(ARGUMENTS).translate(Some(&block), Policy::QueueSubstitution, &mut queue) {
        Verdict::CallThrough(arguments) => assert_eq!(arguments, ARGUMENTS),
        other => panic!("expected a call through, got {other:?}"),
    }
}

#[test]
fn replacement_without_an_object_is_fatal() {
    let orphan = CallArguments { object: 0, ..ARGUMENTS };
    let mut queue = MessageQueue::new();
    queue.push(PendingMessage::default());
    let block = params("anything");
    let verdict = inspect(orphan).translate(Some(&block), Policy::QueueSubstitution, &mut queue);
    assert!(matches!(verdict, Verdict::Abort(DispatchError::NullObject)));

    let structured = params("[SYSTEM_TERMINAL]{}");
    let verdict = inspect(orphan).translate(Some(&structured), Policy::StructuredExtraction, &mut queue);
    let pending = match verdict {
        Verdict::Parse { pending, .. } => pending,
        other => panic!("expected a text to parse, got {other:?}"),
    };
    assert!(matches!(pending.resume(Some(message())), Verdict::Abort(DispatchError::NullObject)));
}

#[test]
fn unhandled_notification_without_an_object_still_goes_through() {
    let orphan = CallArguments { object: 0, ..ARGUMENTS };
    let mut queue = MessageQueue::new();
    let block = params("plain");
    match inspect(orphan).translate(Some(&block), Policy::StructuredExtraction, &mut queue) {
        Verdict::CallThrough(arguments) => assert_eq!(arguments, orphan),
        other => panic!("expected a call through, got {other:?}"),
    }
}

#[test]
fn notification_is_raised_on_the_component_with_the_given_record() {
    let component = USFXOnlineComponentUI { address: 0x0ABC_DEF0 };
    let call = component.event_on_display_notification(params("M").info);
    assert_eq!(call.object, 0x0ABC_DEF0);
    assert_eq!(call.function_index, 78599);
    assert_eq!(call.params.info.message.decode(), Ok("M\0".to_string()));
    assert_eq!(call.params.info.title.decode(), Ok("title\0".to_string()));
    assert_eq!(call.params.info.image.decode(), Ok("image\0".to_string()));
    assert_eq!(call.params.info.tracking_id, 1);
    assert_eq!(call.params.info.priority, 2);
    assert_eq!(call.params.info.bw_ent_id, 3);
    assert_eq!(call.params.info.offer_id, 4);
    assert_eq!(call.params.info.ty, 5);
}

#[test]
fn call_through_enters_the_trampoline_with_the_same_arguments() {
    let mut hook = HookInstaller::new(0x0045_3120, HookStrategy::ManualPatch);
    hook.step(HookEvent::Install { replacement: 0x1000_1000 });
    hook.step(HookEvent::Snapshot([0x55, 0x8B, 0xEC, 0x6A, 0xFF]));
    hook.step(HookEvent::Unprotected(Some(0x20)));
    hook.step(HookEvent::PatchWritten);
    hook.step(HookEvent::Reprotected);
    hook.step(HookEvent::Allocated(Some(0x0200_0000)));
    hook.step(HookEvent::TrampolineWritten);
    assert_eq!(
        process_event(&hook, ARGUMENTS),
        ForeignCall { entry: 0x0200_0000, arguments: ARGUMENTS }
    );
}

#[test]
fn call_through_is_the_same_under_a_managed_detour() {
    let mut hook = HookInstaller::new(0x0045_3120, HookStrategy::ManagedDetour);
    hook.step(HookEvent::Install { replacement: 0x1000_1000 });
    hook.step(HookEvent::Delegated(Some(0x0200_0000)));
    assert_eq!(
        process_event(&hook, ARGUMENTS),
        ForeignCall { entry: 0x0200_0000, arguments: ARGUMENTS }
    );
}
