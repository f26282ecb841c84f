use event_hook::abi::{CallArguments, VirtualCall};
use event_hook::sdk::object::{
    game_objects_ref, name_bytes, FName, FNameEntry, UClass, UField, UFunction, UObject,
    UObjectVTable, UState, UStruct, USFXGUI_MainMenu_RightComputer, GAME_OBJECT_OFFSET,
    IDENTITY_OWNERS, NAME_WINDOW, OBJECT_SIZE, PROCESS_EVENT_SLOT,
};

fn name(bytes: &[u8]) -> FName {
    FName { name_entry: Some(FNameEntry::from_bytes(bytes)), name_index: 0 }
}

fn object(bytes: &[u8]) -> UObject {
    UObject { name: name(bytes), ..Default::default() }
}

fn class(bytes: &[u8]) -> Option<Box<UClass>> {
    let base = UField { _base: object(bytes), ..Default::default() };
    Some(Box::new(UClass { _base: UState { _base: UStruct { _base: base } } }))
}

fn function(bytes: &[u8]) -> UFunction {
    let base = UField { _base: object(bytes), ..Default::default() };
    UFunction { _base: UStruct { _base: base }, ..Default::default() }
}

#[test]
fn object_without_class_or_owner_is_null() {
    let bare = object(b"Lonely");
    assert_eq!(bare.get_full_name(), "(null)");
    let classed = UObject { class: class(b"Function"), ..object(b"Lonely") };
    assert_eq!(classed.get_full_name(), "(null)");
    let owned = UObject { outer: Some(Box::new(object(b"Owner"))), ..object(b"Lonely") };
    assert_eq!(owned.get_full_name(), "(null)");
}

#[test]
fn object_with_one_owner_has_a_two_part_path() {
    let target = UObject {
        class: class(b"Function"),
        outer: Some(Box::new(object(b"SFXOnlineComponentUI"))),
        ..object(b"OnDisplayNotification")
    };
    assert_eq!(target.get_full_name(), "Function SFXOnlineComponentUI.OnDisplayNotification");
}

#[test]
fn object_with_two_owners_has_a_three_part_path() {
    let owner = UObject {
        outer: Some(Box::new(object(b"SFXGame"))),
        ..object(b"SFXOnlineComponentUI")
    };
    let target = UObject {
        class: class(b"Function"),
        outer: Some(Box::new(owner)),
        ..object(b"OnDisplayNotification")
    };
    assert_eq!(
        target.get_full_name(),
        "Function SFXGame.SFXOnlineComponentUI.OnDisplayNotification"
    );
}

#[test]
fn owners_beyond_the_second_are_not_followed() {
    let top = UObject { outer: Some(Box::new(object(b"Root"))), ..object(b"Package") };
    let owner = UObject { outer: Some(Box::new(top)), ..object(b"Group") };
    let target =
        UObject { class: class(b"Class"), outer: Some(Box::new(owner)), ..object(b"Thing") };
    assert_eq!(target.get_full_name(), "Class Package.Group.Thing");
}

#[test]
fn the_class_of_the_owner_plays_no_part() {
    let owner = UObject { class: class(b"Package"), ..object(b"Core") };
    let target =
        UObject { class: class(b"Class"), outer: Some(Box::new(owner)), ..object(b"Object") };
    assert_eq!(target.get_full_name(), "Class Core.Object");
}

#[test]
fn names_are_read_as_utf8() {
    let target = UObject {
        class: class("Kl\u{e4}sse".as_bytes()),
        outer: Some(Box::new(object("\u{1f600}".as_bytes()))),
        ..object(b"")
    };
    assert_eq!(target.get_full_name(), "Kl\u{e4}sse \u{1f600}.");
}

#[test]
fn resolve_identity_agrees_with_get_full_name() {
    let target = UObject {
        class: class(b"Function"),
        outer: Some(Box::new(object(b"Owner"))),
        ..object(b"Name")
    };
    assert_eq!(target.resolve_identity(), Some("Function Owner.Name".to_string()));
    assert_eq!(object(b"x").resolve_identity(), Some("(null)".to_string()));
}

#[test]
fn resolve_identity_fails_on_a_name_that_is_not_text() {
    let bad_self = UObject {
        class: class(b"Function"),
        outer: Some(Box::new(object(b"Owner"))),
        ..object(&[0x66, 0xFF])
    };
    assert_eq!(bad_self.resolve_identity(), None);
    let bad_class = UObject {
        class: class(&[0xC3]),
        outer: Some(Box::new(object(b"Owner"))),
        ..object(b"Name")
    };
    assert_eq!(bad_class.resolve_identity(), None);
    let bad_owner = UObject {
        class: class(b"Function"),
        outer: Some(Box::new(object(&[0x80]))),
        ..object(b"Name")
    };
    assert_eq!(bad_owner.resolve_identity(), None);
    let owner = UObject { outer: Some(Box::new(object(&[0xED, 0xA0, 0x80]))), ..object(b"Owner") };
    let bad_top =
        UObject { class: class(b"Function"), outer: Some(Box::new(owner)), ..object(b"Name") };
    assert_eq!(bad_top.resolve_identity(), None);
}

#[test]
fn resolve_identity_fails_on_a_null_name_reference() {
    let unnamed = UObject {
        class: class(b"Function"),
        outer: Some(Box::new(object(b"Owner"))),
        ..Default::default()
    };
    assert_eq!(unnamed.resolve_identity(), None);
    let unnamed_owner = UObject {
        class: class(b"Function"),
        outer: Some(Box::new(UObject::default())),
        ..object(b"Name")
    };
    assert_eq!(unnamed_owner.resolve_identity(), None);
}

#[test]
fn unreadable_names_do_not_matter_without_class_or_owner() {
    let unnamed = UObject { class: class(&[0xFF]), ..Default::default() };
    assert_eq!(unnamed.resolve_identity(), Some("(null)".to_string()));
    let owned = UObject { outer: Some(Box::new(UObject::default())), ..object(&[0xFF]) };
    assert_eq!(owned.get_full_name(), "(null)");
}

#[test]
fn get_name_returns_the_bytes_of_the_name() {
    let entry = FNameEntry::from_bytes(b"Entry");
    assert_eq!(entry.get_name(), &b"Entry".to_vec());
    assert_eq!(name(b"Name").get_name(), &b"Name".to_vec());
    assert_eq!(object(b"Object").get_name(), &b"Object".to_vec());
}

#[test]
fn every_kind_of_object_is_named_by_its_base() {
    let field = UField { _base: object(b"Field"), ..Default::default() };
    assert_eq!(field.get_name(), &b"Field".to_vec());
    assert_eq!(field.as_object_ref(), &object(b"Field"));
    let structure = UStruct { _base: UField { _base: object(b"Struct"), ..Default::default() } };
    assert_eq!(structure.get_name(), &b"Struct".to_vec());
    assert_eq!(structure.as_object_ref(), &object(b"Struct"));
    let state = UState {
        _base: UStruct { _base: UField { _base: object(b"State"), ..Default::default() } },
    };
    assert_eq!(state.get_name(), &b"State".to_vec());
    assert_eq!(state.as_object_ref(), &object(b"State"));
    let class = class(b"Class").expect("a class");
    assert_eq!(class.get_name(), &b"Class".to_vec());
    assert_eq!(class.as_object_ref(), &object(b"Class"));
    let function = function(b"Function");
    assert_eq!(function.get_name(), &b"Function".to_vec());
    assert_eq!(function.as_object_ref(), &object(b"Function"));
    let computer = USFXGUI_MainMenu_RightComputer { _base: object(b"Computer") };
    assert_eq!(computer.as_object_ref(), &object(b"Computer"));
}

#[test]
fn cast_keeps_the_address() {
    let target = UObject { address: 0x0123_4567, ..object(b"x") };
    assert_eq!(target.cast(), 0x0123_4567);
}

#[test]
fn process_event_goes_through_the_table_of_the_object() {
    assert_eq!(PROCESS_EVENT_SLOT, 70);
    let target = UObject {
        address: 0x0100_0000,
        vtable_: UObjectVTable { address: 0x0180_0000 },
        ..object(b"x")
    };
    assert_eq!(
        target.process_event(0x0200_0000, 0x0300_0000, 0),
        VirtualCall {
            slot: 0x0180_0046,
            arguments: CallArguments {
                object: 0x0100_0000,
                function: 0x0200_0000,
                params: 0x0300_0000,
                result: 0,
            },
        }
    );
}

#[test]
fn process_event_slot_wraps_with_the_address_space() {
    let target = UObject { vtable_: UObjectVTable { address: 0xFFFF_FFFF }, ..object(b"x") };
    assert_eq!(target.process_event(1, 2, 3).slot, 69);
}

#[test]
fn registry_lives_at_its_fixed_address() {
    assert_eq!(GAME_OBJECT_OFFSET, 0x01AB_5634);
    assert_eq!(game_objects_ref(), 0x01AB_5634);
    assert_eq!(IDENTITY_OWNERS, 2);
}

fn window(text: &[u8]) -> [u8; 16] {
    let mut bytes = [0xAAu8; 16];
    bytes[..text.len()].copy_from_slice(text);
    bytes
}

#[test]
fn name_bytes_end_at_the_terminator() {
    assert_eq!(NAME_WINDOW, 16);
    assert_eq!(name_bytes(&window(b"Core\0")), b"Core".to_vec());
    assert_eq!(name_bytes(&window(b"\0")), Vec::<u8>::new());
    assert_eq!(name_bytes(&window(b"a\0b\0")), b"a".to_vec());
    assert_eq!(name_bytes(&window(b"fifteen letters\0")), b"fifteen letters".to_vec());
    assert_eq!(name_bytes(&[0u8; 16]), Vec::<u8>::new());
}

#[test]
fn name_bytes_are_the_whole_window_without_a_terminator() {
    assert_eq!(name_bytes(&window(b"sixteen letters!")), b"sixteen letters!".to_vec());
    assert_eq!(name_bytes(&[0xAAu8; 16]), vec![0xAAu8; 16]);
}

#[test]
fn entry_from_bytes_is_cut_at_the_terminator() {
    assert_eq!(FNameEntry::from_bytes(b"OnDisplayNotification\0rest").get_name(), &b"OnDisplayNotification".to_vec());
    assert_eq!(FNameEntry::from_bytes(b"no terminator").get_name(), &b"no terminator".to_vec());
    assert_eq!(FNameEntry::from_bytes(b"\0x").get_name(), &Vec::<u8>::new());
    assert_eq!(FNameEntry::from_bytes(b"").get_name(), &Vec::<u8>::new());
    assert_eq!(FNameEntry::new().get_name(), &Vec::<u8>::new());
}

#[test]
fn short_name_is_read_in_one_window() {
    let (entry, more) = FNameEntry::new().read_window(&window(b"SFXGame\0"));
    assert!(!more);
    assert_eq!(entry.get_name(), &b"SFXGame".to_vec());
    assert_eq!(entry, FNameEntry::from_bytes(b"SFXGame"));
}

#[test]
fn long_name_is_read_window_by_window() {
    let text = b"OnDisplayNotification\0";
    let (entry, more) = FNameEntry::new().read_window(&window(&text[..16]));
    assert!(more);
    assert_eq!(entry.get_name(), &b"OnDisplayNotific".to_vec());
    let (entry, more) = entry.read_window(&window(&text[16..]));
    assert!(!more);
    assert_eq!(entry.get_name(), &b"OnDisplayNotification".to_vec());
}

#[test]
fn name_that_fills_a_window_ends_in_the_next() {
    let (entry, more) = FNameEntry::new().read_window(&window(b"sixteen letters!"));
    assert!(more);
    let (entry, more) = entry.read_window(&window(b"\0"));
    assert!(!more);
    assert_eq!(entry.get_name(), &b"sixteen letters!".to_vec());
}

#[test]
fn cloned_entry_has_the_same_name() {
    let entry = FNameEntry::from_bytes(b"Entry");
    assert_eq!(entry.clone(), entry);
}

#[test]
fn objects_lie_sixty_bytes_apart() {
    assert_eq!(OBJECT_SIZE, 60);
}
