//! The foreign object graph as far as the hook reads it, and the identity
//! string that names an object by its class and its owners.

use vstd::prelude::*;
use vstd::string::StringExecFns;
use vstd::string::StringSliceAdditionalSpecFns;
use vstd::utf8::{decode_utf8, encode_utf8_decode_utf8, valid_utf8};
use crate::abi::{spec_advance, CallArguments, ForeignAddress, VirtualCall};

verus! {

/// `std::str::from_utf8` of the standard library: `bytes` seen as text, or
/// `None` unless they are valid UTF-8. The text views the very same bytes.
#[verifier::external_body]
fn str_from_utf8(bytes: &[u8]) -> (text: Option<&str>)
    ensures
        text is Some <==> valid_utf8(bytes@),
        text is Some ==> text->0.spec_bytes() == bytes@,
{
    std::str::from_utf8(bytes).ok()
}

/// The text that the bytes of a name stand for, or `None` unless they are
/// valid UTF-8.
fn name_text(bytes: &Vec<u8>) -> (text: Option<&str>)
    ensures
        text is Some <==> valid_utf8(bytes@),
        text is Some ==> text->0@ == decode_utf8(bytes@),
{
    let text = str_from_utf8(bytes.as_slice());
    proof {
        if let Some(text) = text {
            encode_utf8_decode_utf8(text@);
        }
    }
    text
}

/// The table of virtual functions that an object points to.
#[derive(Clone, Copy, Debug, Default, PartialEq, Eq)]
pub struct UObjectVTable {
    /// Where the table lives.
    pub address: ForeignAddress,
}

/// A 64-bit word of flags, in two halves.
#[derive(Clone, Copy, Debug, Default, PartialEq, Eq)]
pub struct FQWord {
    pub a: i32,
    pub b: i32,
}

/// A pointer-sized slot whose meaning is not used.
#[derive(Clone, Copy, Debug, Default, PartialEq, Eq)]
pub struct FPointer {
    pub dummy: i32,
}

/// Width in bytes of the window through which the text of a name entry is
/// read.
pub const NAME_WINDOW: usize = 16;

/// The bytes of a name that stand in `raw`: those before its first zero
/// byte, all of them if none is zero.
pub open spec fn spec_name_bytes(raw: Seq<u8>) -> Seq<u8>
    decreases raw.len(),
{
    if raw.len() == 0 || raw[0] == 0 {
        Seq::empty()
    } else {
        seq![raw[0]] + spec_name_bytes(raw.drop_first())
    }
}

/// The bytes of a name are the start of what they were cut from, hold no
/// zero byte, and end where the first zero byte stands, if there is one.
pub proof fn lemma_name_bytes(raw: Seq<u8>)
    ensures
        spec_name_bytes(raw).len() <= raw.len(),
        spec_name_bytes(raw) == raw.take(spec_name_bytes(raw).len() as int),
        forall|i: int| 0 <= i < spec_name_bytes(raw).len() ==> spec_name_bytes(raw)[i] != 0,
        spec_name_bytes(raw).len() < raw.len() ==> raw[spec_name_bytes(raw).len() as int] == 0,
    decreases raw.len(),
{
    if raw.len() == 0 || raw[0] == 0 {
        assert(raw.take(0) =~= Seq::<u8>::empty());
    } else {
        let rest = raw.drop_first();
        lemma_name_bytes(rest);
        let kept = spec_name_bytes(rest).len() as int;
        assert(seq![raw[0]] + rest.take(kept) =~= raw.take(kept + 1));
    }
}

/// Reading a name window by window gives the name that stands in the
/// windows taken together: where the first holds no terminator the name goes
/// on in the rest, else it ends in the first.
pub proof fn lemma_name_bytes_across_windows(first: Seq<u8>, rest: Seq<u8>)
    ensures
        spec_name_bytes(first).len() == first.len() ==> spec_name_bytes(first + rest) == first
            + spec_name_bytes(rest),
        spec_name_bytes(first).len() < first.len() ==> spec_name_bytes(first + rest)
            == spec_name_bytes(first),
    decreases first.len(),
{
    lemma_name_bytes(first);
    if first.len() == 0 {
        assert(first + rest =~= rest);
        assert(first + spec_name_bytes(rest) =~= spec_name_bytes(rest));
    } else if first[0] == 0 {
    } else {
        let tail = first.drop_first();
        lemma_name_bytes_across_windows(tail, rest);
        lemma_name_bytes(tail);
        assert((first + rest).drop_first() =~= tail + rest);
        if spec_name_bytes(first).len() == first.len() {
            assert(seq![first[0]] + (tail + spec_name_bytes(rest)) =~= first + spec_name_bytes(
                rest,
            ));
        }
    }
}

/// A start of `raw` without a zero byte that ends where `raw` ends or where
/// a zero byte stands is the name that stands in `raw`.
proof fn lemma_name_bytes_end(raw: Seq<u8>, end: int)
    requires
        0 <= end <= raw.len(),
        forall|i: int| 0 <= i < end ==> raw[i] != 0,
        end < raw.len() ==> raw[end] == 0,
    ensures
        spec_name_bytes(raw) == raw.take(end),
    decreases end,
{
    if end == 0 {
        assert(raw.take(0) =~= Seq::<u8>::empty());
    } else {
        let rest = raw.drop_first();
        assert forall|i: int| 0 <= i < end - 1 implies rest[i] != 0 by {
            assert(rest[i] == raw[i + 1]);
        }
        lemma_name_bytes_end(rest, end - 1);
        assert(seq![raw[0]] + rest.take(end - 1) =~= raw.take(end));
    }
}

/// Cuts `raw` at its first zero byte.
fn cut_at_terminator(raw: &[u8]) -> (name: Vec<u8>)
    ensures
        name@ == spec_name_bytes(raw@),
{
    let mut name: Vec<u8> = Vec::new();
    let mut i: usize = 0;
    while i < raw.len() && raw[i] != 0
        invariant
            i <= raw.len(),
            name@ == raw@.take(i as int),
            forall|j: int| 0 <= j < i ==> raw@[j] != 0,
        decreases raw.len() - i,
    {
        name.push(raw[i]);
        i += 1;
        assert(name@ =~= raw@.take(i as int));
    }
    proof {
        lemma_name_bytes_end(raw@, i as int);
    }
    name
}

/// The bytes of the name that stands in one window of a name entry: those
/// before the terminator, or the whole window if the name goes on behind it.
pub fn name_bytes(raw: &[u8; 16]) -> (name: Vec<u8>)
    ensures
        name@ == spec_name_bytes(raw@),
        name@.len() <= 16,
        name@ == raw@.take(name@.len() as int),
        forall|i: int| 0 <= i < name@.len() ==> name@[i] != 0,
        name@.len() < 16 ==> raw@[name@.len() as int] == 0,
{
    proof {
        lemma_name_bytes(raw@);
    }
    cut_at_terminator(raw.as_slice())
}

/// One entry of the foreign name table: the bytes of a name, up to its
/// terminator.
#[derive(Debug, Default, PartialEq, Eq)]
pub struct FNameEntry {
    name: Vec<u8>,
}

impl View for FNameEntry {
    type V = Seq<u8>;

    /// The bytes of the name, without terminator.
    closed spec fn view(&self) -> Seq<u8> {
        self.name@
    }
}

impl Clone for FNameEntry {
    /// An entry with the same name.
    fn clone(&self) -> (copy: FNameEntry)
        ensures
            copy@ == self@,
    {
        proof {
            use_type_invariant(self);
        }
        FNameEntry { name: self.name.clone() }
    }
}

/// A name: a reference into the name table and an instance number.
#[derive(Clone, Debug, Default, PartialEq, Eq)]
pub struct FName {
    /// The entry that holds the text, if the reference is not null.
    pub name_entry: Option<FNameEntry>,
    pub name_index: u32,
}

/// An object of the foreign process.
#[derive(Debug, Default, PartialEq, Eq)]
pub struct UObject {
    /// Where the object lives.
    pub address: ForeignAddress,
    pub vtable_: UObjectVTable,
    pub object_internal_integer: i32,
    pub object_flags: FQWord,
    pub hash_next: FPointer,
    pub hash_outer_next: FPointer,
    pub state_frame: FPointer,
    pub linker: ForeignAddress,
    pub linker_index: FPointer,
    pub net_index: i32,
    /// The object that owns this one, if any.
    pub outer: Option<Box<UObject>>,
    pub name: FName,
    /// The class of this object, if known.
    pub class: Option<Box<UClass>>,
    pub object_archetype: ForeignAddress,
}

/// A field of a foreign structure.
#[derive(Debug, Default, PartialEq, Eq)]
pub struct UField {
    pub _base: UObject,
    pub super_field: ForeignAddress,
    pub next: ForeignAddress,
}

/// A foreign structure.
#[derive(Debug, Default, PartialEq, Eq)]
pub struct UStruct {
    pub _base: UField,
}

/// A foreign state.
#[derive(Debug, Default, PartialEq, Eq)]
pub struct UState {
    pub _base: UStruct,
}

/// A foreign class.
#[derive(Debug, Default, PartialEq, Eq)]
pub struct UClass {
    pub _base: UState,
}

/// A foreign function: what an intercepted call names as its target.
#[derive(Debug, Default, PartialEq, Eq)]
pub struct UFunction {
    pub _base: UStruct,
    pub func: ForeignAddress,
    pub function_flags: u32,
    pub i_native: u16,
}

impl FNameEntry {
    #[verifier::type_invariant]
    spec fn unterminated(self) -> bool {
        forall|i: int| 0 <= i < self.name@.len() ==> self.name@[i] != 0
    }

    /// An entry of which nothing has been read yet.
    pub fn new() -> (entry: FNameEntry)
        ensures
            entry@ == Seq::<u8>::empty(),
    {
        FNameEntry { name: Vec::new() }
    }

    /// The entry whose name stands in `raw`: the bytes before the first zero
    /// byte, all of them if none is zero.
    pub fn from_bytes(raw: &[u8]) -> (entry: FNameEntry)
        ensures
            entry@ == spec_name_bytes(raw@),
    {
        proof {
            lemma_name_bytes(raw@);
        }
        FNameEntry { name: cut_at_terminator(raw) }
    }

    /// Takes the next window of the entry's text. The bytes of the window
    /// up to its terminator are added to the name; the answer tells whether
    /// the name goes on in the window that follows, which is so when this
    /// one holds no terminator.
    pub fn read_window(self, window: &[u8; 16]) -> (read: (FNameEntry, bool))
        ensures
            read.0@ == self@ + spec_name_bytes(window@),
            read.1 == (spec_name_bytes(window@).len() == NAME_WINDOW),
    {
        proof {
            use_type_invariant(&self);
        }
        let mut part = name_bytes(window);
        let more = part.len() == NAME_WINDOW;
        let mut name = self.name;
        name.append(&mut part);
        (FNameEntry { name }, more)
    }

    /// The bytes of the name. None of them is zero.
    pub fn get_name(&self) -> (name: &Vec<u8>)
        ensures
            name@ == self@,
            forall|i: int| 0 <= i < name@.len() ==> name@[i] != 0,
    {
        proof {
            use_type_invariant(self);
        }
        &self.name
    }
}

impl FName {
    /// The bytes of the name. The reference into the name table must not be
    /// null.
    pub fn get_name(&self) -> (name: &Vec<u8>)
        requires
            self.name_entry is Some,
        ensures
            name@ == self.name_entry->0@,
    {
        self.name_entry.as_ref().unwrap().get_name()
    }
}

/// Where the registry of all objects lives in this build of the foreign
/// process.
pub const GAME_OBJECT_OFFSET: ForeignAddress = 0x01AB_5634;

/// The address of the foreign array that holds the game objects.
pub fn game_objects_ref() -> (registry: ForeignAddress)
    ensures
        registry == GAME_OBJECT_OFFSET,
{
    GAME_OBJECT_OFFSET
}

/// Size in bytes of an object's own fields, which is the distance between
/// neighbours in the registry.
pub const OBJECT_SIZE: u32 = 60;

/// Distance from the start of the table of virtual functions to the slot of
/// the event dispatcher.
pub const PROCESS_EVENT_SLOT: u32 = 70;

/// How many owners above an object its identity names: its owner and its
/// owner's owner.
pub const IDENTITY_OWNERS: u32 = 2;

/// The identity of an object whose class or owner is not known.
pub open spec fn spec_null_name() -> Seq<char> {
    seq!['(', 'n', 'u', 'l', 'l', ')']
}

impl UObject {
    /// Whether the name of the object can be read as text: its reference
    /// into the name table is not null and the bytes there are valid UTF-8.
    pub open spec fn spec_named(&self) -> bool {
        &&& self.name.name_entry is Some
        &&& valid_utf8(self.name.name_entry->0@)
    }

    /// The name of the object as text.
    pub open spec fn spec_name(&self) -> Seq<char> {
        decode_utf8(self.name.name_entry->0@)
    }

    /// Whether every name that the identity of the object is made of can be
    /// read as text. An object without class or owner has no such name.
    pub open spec fn spec_identifiable(&self) -> bool {
        self.class is Some && self.outer is Some ==> {
            &&& self.class->0.spec_object().spec_named()
            &&& self.outer->0.spec_named()
            &&& self.spec_named()
            &&& self.outer->0.outer is Some ==> self.outer->0.outer->0.spec_named()
        }
    }

    /// The identity of the object: the name of its class, a space, and the
    /// names of its owner's owner (if there is one), its owner and itself,
    /// joined by dots. Without a class or without an owner it is `(null)`.
    pub open spec fn spec_full_name(&self) -> Seq<char> {
        if self.class is Some && self.outer is Some {
            let class_name = self.class->0.spec_object().spec_name();
            let outer = self.outer->0;
            if outer.outer is Some {
                class_name + seq![' '] + outer.outer->0.spec_name() + seq!['.'] + outer.spec_name()
                    + seq!['.'] + self.spec_name()
            } else {
                class_name + seq![' '] + outer.spec_name() + seq!['.'] + self.spec_name()
            }
        } else {
            spec_null_name()
        }
    }

    /// The address of the object, to be read as an object of another type.
    pub fn cast(&self) -> (address: ForeignAddress)
        ensures
            address == self.address,
    {
        self.address
    }

    /// The name of the object as text, or `None` if it cannot be read as
    /// text.
    fn text_name(&self) -> (name: Option<&str>)
        ensures
            name is Some <==> self.spec_named(),
            name is Some ==> name->0@ == self.spec_name(),
    {
        match &self.name.name_entry {
            Some(entry) => name_text(entry.get_name()),
            None => None,
        }
    }

    /// Resolves the identity of the object, or `None` if one of the names it
    /// is made of cannot be read as text.
    pub fn resolve_identity(&self) -> (identity: Option<String>)
        ensures
            identity is Some <==> self.spec_identifiable(),
            identity is Some ==> identity->0@ == self.spec_full_name(),
    {
        match (&self.class, &self.outer) {
            (Some(class), Some(outer)) => {
                let class_name = class.as_object_ref().text_name();
                let outer_name = outer.text_name();
                let this_name = self.text_name();
                if class_name.is_none() || outer_name.is_none() || this_name.is_none() {
                    return None;
                }
                let mut identity = String::from_str(class_name.unwrap());
                proof {
                    reveal_strlit(" ");
                    reveal_strlit(".");
                    assert(" "@ =~= seq![' ']);
                    assert("."@ =~= seq!['.']);
                }
                identity.append(" ");
                if let Some(outer_outer) = &outer.outer {
                    let outer_outer_name = outer_outer.text_name();
                    if outer_outer_name.is_none() {
                        return None;
                    }
                    identity.append(outer_outer_name.unwrap());
                    identity.append(".");
                }
                identity.append(outer_name.unwrap());
                identity.append(".");
                identity.append(this_name.unwrap());
                Some(identity)
            },
            _ => {
                proof {
                    reveal_strlit("(null)");
                    assert("(null)"@ =~= spec_null_name());
                }
                Some(String::from_str("(null)"))
            },
        }
    }

    /// Collects the full name of the object. Every name that it is made of
    /// must be readable as text.
    pub fn get_full_name(&self) -> (name: String)
        requires
            self.spec_identifiable(),
        ensures
            name@ == self.spec_full_name(),
    {
        self.resolve_identity().unwrap()
    }

    /// The bytes of the object's name. Its reference into the name table
    /// must not be null.
    pub fn get_name(&self) -> (name: &Vec<u8>)
        requires
            self.name.name_entry is Some,
        ensures
            name@ == self.name.name_entry->0@,
    {
        self.name.get_name()
    }

    /// The call that dispatches `function` on this object through its own
    /// table of virtual functions.
    pub fn process_event(
        &self,
        function: ForeignAddress,
        params: ForeignAddress,
        result: ForeignAddress,
    ) -> (call: VirtualCall)
        ensures
            call.slot == spec_advance(self.vtable_.address, PROCESS_EVENT_SLOT as int),
            call.arguments.object == self.address,
            call.arguments.function == function,
            call.arguments.params == params,
            call.arguments.result == result,
    {
        VirtualCall {
            slot: self.vtable_.address.wrapping_add(PROCESS_EVENT_SLOT),
            arguments: CallArguments { object: self.address, function, params, result },
        }
    }
}

impl UField {
    /// The object that this field is.
    pub open spec fn spec_object(&self) -> UObject {
        self._base
    }

    /// The bytes of the field's name.
    pub fn get_name(&self) -> (name: &Vec<u8>)
        requires
            self.spec_object().name.name_entry is Some,
        ensures
            name@ == self.spec_object().name.name_entry->0@,
    {
        self._base.get_name()
    }

    /// The object that this field is.
    pub fn as_object_ref(&self) -> (object: &UObject)
        ensures
            *object == self.spec_object(),
    {
        &self._base
    }
}

impl UStruct {
    /// The object that this structure is.
    pub open spec fn spec_object(&self) -> UObject {
        self._base.spec_object()
    }

    /// The bytes of the structure's name.
    pub fn get_name(&self) -> (name: &Vec<u8>)
        requires
            self.spec_object().name.name_entry is Some,
        ensures
            name@ == self.spec_object().name.name_entry->0@,
    {
        self._base.get_name()
    }

    /// The object that this structure is.
    pub fn as_object_ref(&self) -> (object: &UObject)
        ensures
            *object == self.spec_object(),
    {
        self._base.as_object_ref()
    }
}

impl UState {
    /// The object that this state is.
    pub open spec fn spec_object(&self) -> UObject {
        self._base.spec_object()
    }

    /// The bytes of the state's name.
    pub fn get_name(&self) -> (name: &Vec<u8>)
        requires
            self.spec_object().name.name_entry is Some,
        ensures
            name@ == self.spec_object().name.name_entry->0@,
    {
        self._base.get_name()
    }

    /// The object that this state is.
    pub fn as_object_ref(&self) -> (object: &UObject)
        ensures
            *object == self.spec_object(),
    {
        self._base.as_object_ref()
    }
}

impl UClass {
    /// The object that this class is.
    pub open spec fn spec_object(&self) -> UObject {
        self._base.spec_object()
    }

    /// The bytes of the class's name.
    pub fn get_name(&self) -> (name: &Vec<u8>)
        requires
            self.spec_object().name.name_entry is Some,
        ensures
            name@ == self.spec_object().name.name_entry->0@,
    {
        self._base.get_name()
    }

    /// The object that this class is.
    pub fn as_object_ref(&self) -> (object: &UObject)
        ensures
            *object == self.spec_object(),
    {
        self._base.as_object_ref()
    }
}

impl UFunction {
    /// The object that this function is.
    pub open spec fn spec_object(&self) -> UObject {
        self._base.spec_object()
    }

    /// The bytes of the function's name.
    pub fn get_name(&self) -> (name: &Vec<u8>)
        requires
            self.spec_object().name.name_entry is Some,
        ensures
            name@ == self.spec_object().name.name_entry->0@,
    {
        self._base.get_name()
    }

    /// The object that this function is.
    pub fn as_object_ref(&self) -> (object: &UObject)
        ensures
            *object == self.spec_object(),
    {
        self._base.as_object_ref()
    }
}

/// The right-hand computer of the main menu, where ticker messages show.
#[allow(non_camel_case_types)]
#[derive(Debug, Default, PartialEq, Eq)]
pub struct USFXGUI_MainMenu_RightComputer {
    pub _base: UObject,
}

impl USFXGUI_MainMenu_RightComputer {
    /// The object that this computer is.
    pub fn as_object_ref(&self) -> (object: &UObject)
        ensures
            *object == self._base,
    {
        &self._base
    }
}

} // verus!
