//! The notification event of the online component: its argument record, how
//! the record lies in the argument block, and the call that raises it.

use vstd::prelude::*;
use crate::abi::{
    le_bytes, le_value, lemma_le_bytes_hold_value, signed_bits, signed_value, spec_advance,
    spec_le_bytes, spec_le_value, spec_signed_bits, spec_signed_value, ForeignAddress,
};
use crate::sdk::array::TArray;
use crate::sdk::fstring::FString;

verus! {

/// Index of the notification event's function in the foreign object
/// registry.
pub const ON_DISPLAY_NOTIFICATION_INDEX: usize = 78599;

/// The record that the notification event takes: a message of the day.
#[allow(non_camel_case_types)]
#[derive(Clone, Debug)]
pub struct FSFXOnlineMOTDInfo {
    pub message: FString,
    pub title: FString,
    pub image: FString,
    pub tracking_id: i32,
    pub priority: i32,
    pub bw_ent_id: i32,
    pub offer_id: i32,
    pub ty: u8,
}

/// A notification record as contracts see it: the code units of its three
/// texts, terminators included, and its numbers.
pub struct NotificationPayload {
    pub title: Seq<u16>,
    pub message: Seq<u16>,
    pub image: Seq<u16>,
    pub tracking_id: i32,
    pub priority: i32,
    pub ty: u8,
    pub bw_ent_id: i32,
    pub offer_id: i32,
}

impl View for FSFXOnlineMOTDInfo {
    type V = NotificationPayload;

    open spec fn view(&self) -> NotificationPayload {
        NotificationPayload {
            title: self.title@,
            message: self.message@,
            image: self.image@,
            tracking_id: self.tracking_id,
            priority: self.priority,
            ty: self.ty,
            bw_ent_id: self.bw_ent_id,
            offer_id: self.offer_id,
        }
    }
}

/// The argument block of the notification event.
#[allow(non_camel_case_types)]
#[derive(Clone, Debug)]
pub struct USFXOnlineComponentUI_eventOnDisplayNotification_Parms {
    pub info: FSFXOnlineMOTDInfo,
}

impl USFXOnlineComponentUI_eventOnDisplayNotification_Parms {
    /// Splits the argument record into what lies in the argument block, with
    /// the strings not yet placed, and the words of its three strings in the
    /// order message, title, image.
    pub fn into_block(self) -> (parts: (NotificationBlock, Vec<i16>, Vec<i16>, Vec<i16>))
        ensures
            parts.0.message == (ArrayHeader {
                data: 0,
                count: self.info.message@.len() as i32,
                capacity: self.info.message.0.spec_capacity() as i32,
            }),
            parts.0.title == (ArrayHeader {
                data: 0,
                count: self.info.title@.len() as i32,
                capacity: self.info.title.0.spec_capacity() as i32,
            }),
            parts.0.image == (ArrayHeader {
                data: 0,
                count: self.info.image@.len() as i32,
                capacity: self.info.image.0.spec_capacity() as i32,
            }),
            parts.0.tracking_id == self.info.tracking_id,
            parts.0.priority == self.info.priority,
            parts.0.bw_ent_id == self.info.bw_ent_id,
            parts.0.offer_id == self.info.offer_id,
            parts.0.ty == self.info.ty,
            parts.1@ == self.info.message.0@,
            parts.2@ == self.info.title.0@,
            parts.3@ == self.info.image.0@,
    {
        let info = self.info;
        let block = NotificationBlock {
            message: ArrayHeader::of(&info.message.0),
            title: ArrayHeader::of(&info.title.0),
            image: ArrayHeader::of(&info.image.0),
            tracking_id: info.tracking_id,
            priority: info.priority,
            bw_ent_id: info.bw_ent_id,
            offer_id: info.offer_id,
            ty: info.ty,
        };
        (block, info.message.0.into_vec(), info.title.0.into_vec(), info.image.0.into_vec())
    }
}

/// A call that the hook originates itself: the function found at
/// `function_index` in the object registry, raised on `object` with `params`
/// as its argument block and no result slot.
#[derive(Clone, Debug)]
pub struct Invocation {
    pub object: ForeignAddress,
    pub function_index: usize,
    pub params: USFXOnlineComponentUI_eventOnDisplayNotification_Parms,
}

/// The user-interface side of the online component, the receiver of
/// notification events.
#[derive(Clone, Copy, Debug, PartialEq, Eq)]
pub struct USFXOnlineComponentUI {
    /// Where the component lives.
    pub address: ForeignAddress,
}

impl USFXOnlineComponentUI {
    /// The call that raises the notification event on this component with
    /// `info` as its record.
    pub fn event_on_display_notification(&self, info: FSFXOnlineMOTDInfo) -> (call: Invocation)
        ensures
            call.object == self.address,
            call.function_index == ON_DISPLAY_NOTIFICATION_INDEX,
            call.params.info == info,
    {
        Invocation {
            object: self.address,
            function_index: ON_DISPLAY_NOTIFICATION_INDEX,
            params: USFXOnlineComponentUI_eventOnDisplayNotification_Parms { info },
        }
    }
}

/// Size in bytes of the header of a foreign array.
pub const ARRAY_HEADER_SIZE: usize = 12;

/// Size in bytes of the argument block of the notification event.
pub const NOTIFICATION_BLOCK_SIZE: usize = 56;

/// A foreign array as it lies in memory: where its elements are, how many of
/// them are live, and how many there is room for.
#[derive(Clone, Copy, Debug, Default, PartialEq, Eq)]
pub struct ArrayHeader {
    pub data: ForeignAddress,
    pub count: i32,
    pub capacity: i32,
}

/// The argument block of the notification event as it lies in memory: the
/// headers of its three strings and its numbers.
#[derive(Clone, Copy, Debug, Default, PartialEq, Eq)]
pub struct NotificationBlock {
    pub message: ArrayHeader,
    pub title: ArrayHeader,
    pub image: ArrayHeader,
    pub tracking_id: i32,
    pub priority: i32,
    pub bw_ent_id: i32,
    pub offer_id: i32,
    pub ty: u8,
}

/// The four bytes of a signed number, least significant first.
pub open spec fn spec_signed_bytes(value: i32) -> Seq<u8> {
    spec_le_bytes(spec_signed_bits(value))
}

/// The unsigned number that stands in `bytes` at offset `at`.
pub open spec fn spec_word_at(bytes: Seq<u8>, at: int) -> u32 {
    spec_le_value(bytes.subrange(at, at + 4)) as u32
}

/// The signed number that stands in `bytes` at offset `at`.
pub open spec fn spec_signed_at(bytes: Seq<u8>, at: int) -> i32 {
    spec_signed_value(spec_word_at(bytes, at))
}

impl ArrayHeader {
    /// The twelve bytes of the header: the address of the elements, the
    /// count and the capacity, each as four little-endian bytes.
    pub open spec fn spec_bytes(self) -> Seq<u8> {
        spec_le_bytes(self.data) + spec_signed_bytes(self.count) + spec_signed_bytes(
            self.capacity,
        )
    }

    /// The header that stands in `bytes` at offset `at`.
    pub open spec fn spec_at(bytes: Seq<u8>, at: int) -> ArrayHeader {
        ArrayHeader {
            data: spec_word_at(bytes, at),
            count: spec_signed_at(bytes, at + 4),
            capacity: spec_signed_at(bytes, at + 8),
        }
    }

    /// The number of elements that may be read: the count, or none if the
    /// count is not positive. Room beyond the count is never read.
    pub open spec fn spec_live(self) -> nat {
        if self.count > 0 {
            self.count as nat
        } else {
            0
        }
    }

    /// The address of the element at `index` in an array whose elements are
    /// `stride` bytes apart: `index` strides behind the first element,
    /// counted around the address space. `None` if `index` is not below the
    /// live count, or if that address is null.
    pub open spec fn spec_element_address(self, index: usize, stride: u32) -> Option<
        ForeignAddress,
    > {
        if index < self.spec_live() && spec_advance(self.data, index * stride) != 0 {
            Some(spec_advance(self.data, index * stride))
        } else {
            None
        }
    }

    /// Reads the header from the twelve bytes in which it lies.
    pub fn from_bytes(bytes: &[u8; 12]) -> (header: ArrayHeader)
        ensures
            header == ArrayHeader::spec_at(bytes@, 0),
    {
        header_at(bytes.as_slice(), 0)
    }

    /// Finds the element at `index` in an array whose elements are `stride`
    /// bytes apart. Elements at or beyond the live count are never reached,
    /// whatever the capacity says.
    pub fn element_address(&self, index: usize, stride: u32) -> (address: Option<ForeignAddress>)
        ensures
            address == self.spec_element_address(index, stride),
    {
        if index >= self.live() {
            return None;
        }
        assert(index * stride <= 0x7FFF_FFFF * 0xFFFF_FFFF) by (nonlinear_arith)
            requires
                index <= 0x7FFF_FFFF,
                stride <= 0xFFFF_FFFF,
        ;
        let distance: u64 = index as u64 * stride as u64;
        let address = ((self.data as u64 + distance) % 0x1_0000_0000) as u32;
        if address == 0 {
            None
        } else {
            Some(address)
        }
    }

    /// The header of `array` before its elements are placed in the foreign
    /// process: its count and capacity, and no address yet.
    pub fn of<T>(array: &TArray<T>) -> (header: ArrayHeader)
        ensures
            header.data == 0,
            header.count == array@.len(),
            header.capacity == array.spec_capacity(),
    {
        ArrayHeader { data: 0, count: array.len() as i32, capacity: array.capacity() as i32 }
    }

    /// The number of elements that may be read: the count, or none if the
    /// count is not positive. Room beyond the count is never read.
    pub fn live(&self) -> (elements: usize)
        ensures
            elements == self.spec_live(),
    {
        if self.count > 0 {
            self.count as usize
        } else {
            0
        }
    }
}

impl NotificationBlock {
    /// The bytes of the block: the strings' headers in the order message,
    /// title, image, then tracking number, priority, entitlement and offer,
    /// each as four little-endian bytes, then the type in one byte and three
    /// bytes that fill the block to a multiple of four.
    pub open spec fn spec_bytes(self) -> Seq<u8> {
        self.spec_header_bytes() + self.spec_number_bytes()
    }

    /// The first part of the block: the headers of message, title and image.
    pub open spec fn spec_header_bytes(self) -> Seq<u8> {
        self.message.spec_bytes() + self.title.spec_bytes() + self.image.spec_bytes()
    }

    /// The second part of the block: tracking number, priority, entitlement
    /// and offer, then the type and the three bytes that fill the block.
    pub open spec fn spec_number_bytes(self) -> Seq<u8> {
        spec_signed_bytes(self.tracking_id) + spec_signed_bytes(self.priority)
            + spec_signed_bytes(self.bw_ent_id) + spec_signed_bytes(self.offer_id) + seq![
            self.ty,
            0u8,
            0u8,
            0u8,
        ]
    }

    /// The block that stands in `bytes`.
    pub open spec fn spec_parse(bytes: Seq<u8>) -> NotificationBlock {
        NotificationBlock {
            message: ArrayHeader::spec_at(bytes, 0),
            title: ArrayHeader::spec_at(bytes, 12),
            image: ArrayHeader::spec_at(bytes, 24),
            tracking_id: spec_signed_at(bytes, 36),
            priority: spec_signed_at(bytes, 40),
            bw_ent_id: spec_signed_at(bytes, 44),
            offer_id: spec_signed_at(bytes, 48),
            ty: bytes[52],
        }
    }

    /// The block once the words of its strings lie at the given addresses.
    pub fn placed(
        self,
        message: ForeignAddress,
        title: ForeignAddress,
        image: ForeignAddress,
    ) -> (block: NotificationBlock)
        ensures
            block.message == (ArrayHeader { data: message, ..self.message }),
            block.title == (ArrayHeader { data: title, ..self.title }),
            block.image == (ArrayHeader { data: image, ..self.image }),
            block.tracking_id == self.tracking_id,
            block.priority == self.priority,
            block.bw_ent_id == self.bw_ent_id,
            block.offer_id == self.offer_id,
            block.ty == self.ty,
    {
        NotificationBlock {
            message: ArrayHeader { data: message, ..self.message },
            title: ArrayHeader { data: title, ..self.title },
            image: ArrayHeader { data: image, ..self.image },
            ..self
        }
    }

    /// The argument record that the block stands for, given the live words
    /// of its three strings as they were read at the addresses in its
    /// headers.
    pub fn into_params(self, message: Vec<i16>, title: Vec<i16>, image: Vec<i16>) -> (params:
        USFXOnlineComponentUI_eventOnDisplayNotification_Parms)
        requires
            message.len() == self.message.spec_live(),
            title.len() == self.title.spec_live(),
            image.len() == self.image.spec_live(),
        ensures
            params.info.message.0@ == message@,
            params.info.title.0@ == title@,
            params.info.image.0@ == image@,
            params.info.tracking_id == self.tracking_id,
            params.info.priority == self.priority,
            params.info.bw_ent_id == self.bw_ent_id,
            params.info.offer_id == self.offer_id,
            params.info.ty == self.ty,
    {
        USFXOnlineComponentUI_eventOnDisplayNotification_Parms {
            info: FSFXOnlineMOTDInfo {
                message: FString(TArray::from(message)),
                title: FString(TArray::from(title)),
                image: FString(TArray::from(image)),
                tracking_id: self.tracking_id,
                priority: self.priority,
                bw_ent_id: self.bw_ent_id,
                offer_id: self.offer_id,
                ty: self.ty,
            },
        }
    }

    /// Lays the block out as the foreign process expects it.
    pub fn to_bytes(&self) -> (bytes: Vec<u8>)
        ensures
            bytes@ == self.spec_bytes(),
            bytes@.len() == NOTIFICATION_BLOCK_SIZE,
    {
        let mut bytes: Vec<u8> = Vec::with_capacity(NOTIFICATION_BLOCK_SIZE);
        push_headers(&mut bytes, self);
        push_numbers(&mut bytes, self);
        proof {
            lemma_block_round_trip(*self);
        }
        bytes
    }

    /// Reads the block from the bytes of an argument block.
    pub fn from_bytes(bytes: &[u8; 56]) -> (block: NotificationBlock)
        ensures
            block == NotificationBlock::spec_parse(bytes@),
    {
        let words = bytes.as_slice();
        NotificationBlock {
            message: header_at(words, 0),
            title: header_at(words, 12),
            image: header_at(words, 24),
            tracking_id: signed_value(word_at(words, 36)),
            priority: signed_value(word_at(words, 40)),
            bw_ent_id: signed_value(word_at(words, 44)),
            offer_id: signed_value(word_at(words, 48)),
            ty: bytes[52],
        }
    }
}

/// Appends the four little-endian bytes of `word`.
fn push_word(bytes: &mut Vec<u8>, word: u32)
    ensures
        final(bytes)@ == old(bytes)@ + spec_le_bytes(word),
{
    let parts = le_bytes(word);
    bytes.push(parts[0]);
    bytes.push(parts[1]);
    bytes.push(parts[2]);
    bytes.push(parts[3]);
    assert(bytes@ =~= old(bytes)@ + spec_le_bytes(word));
}

/// Appends the twelve bytes of `header`.
fn push_header(bytes: &mut Vec<u8>, header: &ArrayHeader)
    ensures
        final(bytes)@ == old(bytes)@ + header.spec_bytes(),
{
    push_word(bytes, header.data);
    push_word(bytes, signed_bits(header.count));
    push_word(bytes, signed_bits(header.capacity));
    assert(bytes@ =~= old(bytes)@ + header.spec_bytes());
}

/// Appends the headers of the three strings of `block`.
fn push_headers(bytes: &mut Vec<u8>, block: &NotificationBlock)
    requires
        old(bytes)@.len() == 0,
    ensures
        final(bytes)@ == block.spec_header_bytes(),
{
    push_header(bytes, &block.message);
    push_header(bytes, &block.title);
    push_header(bytes, &block.image);
    assert(bytes@ =~= block.spec_header_bytes());
}

/// Appends the numbers of `block` and the bytes that fill it.
fn push_numbers(bytes: &mut Vec<u8>, block: &NotificationBlock)
    ensures
        final(bytes)@ == old(bytes)@ + block.spec_number_bytes(),
{
    let mut numbers: Vec<u8> = Vec::with_capacity(20);
    push_word(&mut numbers, signed_bits(block.tracking_id));
    push_word(&mut numbers, signed_bits(block.priority));
    push_word(&mut numbers, signed_bits(block.bw_ent_id));
    push_word(&mut numbers, signed_bits(block.offer_id));
    numbers.push(block.ty);
    numbers.push(0);
    numbers.push(0);
    numbers.push(0);
    assert(numbers@ =~= block.spec_number_bytes());
    bytes.append(&mut numbers);
}

/// The unsigned number that stands in `bytes` at offset `at`.
fn word_at(bytes: &[u8], at: usize) -> (word: u32)
    requires
        at + 4 <= bytes.len(),
    ensures
        word == spec_word_at(bytes@, at as int),
{
    let parts = [bytes[at], bytes[at + 1], bytes[at + 2], bytes[at + 3]];
    assert(parts@ =~= bytes@.subrange(at as int, at + 4));
    le_value(&parts)
}

/// The header that stands in `bytes` at offset `at`.
fn header_at(bytes: &[u8], at: usize) -> (header: ArrayHeader)
    requires
        at + 12 <= bytes.len(),
    ensures
        header == ArrayHeader::spec_at(bytes@, at as int),
{
    ArrayHeader {
        data: word_at(bytes, at),
        count: signed_value(word_at(bytes, at + 4)),
        capacity: signed_value(word_at(bytes, at + 8)),
    }
}

/// The word that was laid out at an offset is the word that is read there.
proof fn lemma_word_at(before: Seq<u8>, word: u32, after: Seq<u8>)
    ensures
        spec_word_at(before + spec_le_bytes(word) + after, before.len() as int) == word,
{
    let bytes = before + spec_le_bytes(word) + after;
    let at = before.len() as int;
    lemma_le_bytes_hold_value(word);
    assert(bytes.subrange(at, at + 4) =~= spec_le_bytes(word));
}

/// The signed number that was laid out at an offset is the number that is
/// read there.
proof fn lemma_signed_at(before: Seq<u8>, value: i32, after: Seq<u8>)
    ensures
        spec_signed_at(before + spec_signed_bytes(value) + after, before.len() as int) == value,
{
    lemma_word_at(before, spec_signed_bits(value), after);
}

/// The header that was laid out at an offset is the header that is read
/// there.
proof fn lemma_header_at(before: Seq<u8>, header: ArrayHeader, after: Seq<u8>)
    ensures
        header.spec_bytes().len() == ARRAY_HEADER_SIZE,
        ArrayHeader::spec_at(before + header.spec_bytes() + after, before.len() as int)
            == header,
{
    let data = spec_le_bytes(header.data);
    let count = spec_signed_bytes(header.count);
    let capacity = spec_signed_bytes(header.capacity);
    let bytes = before + header.spec_bytes() + after;
    let at = before.len() as int;
    assert(bytes =~= before + data + (count + capacity + after));
    lemma_word_at(before, header.data, count + capacity + after);
    assert(bytes =~= (before + data) + count + (capacity + after));
    lemma_signed_at(before + data, header.count, capacity + after);
    assert(bytes =~= (before + data + count) + capacity + after);
    lemma_signed_at(before + data + count, header.capacity, after);
}

/// The three headers at the start of a block are read back as they were
/// laid out, whatever follows them.
proof fn lemma_headers_round_trip(block: NotificationBlock, after: Seq<u8>)
    ensures
        block.spec_header_bytes().len() == 36,
        ArrayHeader::spec_at(block.spec_header_bytes() + after, 0) == block.message,
        ArrayHeader::spec_at(block.spec_header_bytes() + after, 12) == block.title,
        ArrayHeader::spec_at(block.spec_header_bytes() + after, 24) == block.image,
{
    let bytes = block.spec_header_bytes() + after;
    let message = block.message.spec_bytes();
    let title = block.title.spec_bytes();
    let image = block.image.spec_bytes();
    let none = Seq::<u8>::empty();
    lemma_header_at(none, block.message, title + image + after);
    assert(bytes =~= none + message + (title + image + after));
    lemma_header_at(message, block.title, image + after);
    assert(bytes =~= message + title + (image + after));
    lemma_header_at(message + title, block.image, after);
    assert(bytes =~= (message + title) + image + after);
}

/// The numbers at the end of a block are read back as they were laid out,
/// whatever stands before them.
proof fn lemma_numbers_round_trip(block: NotificationBlock, before: Seq<u8>)
    ensures
        block.spec_number_bytes().len() == 20,
        spec_signed_at(before + block.spec_number_bytes(), before.len() as int)
            == block.tracking_id,
        spec_signed_at(before + block.spec_number_bytes(), before.len() as int + 4) == block.priority,
        spec_signed_at(before + block.spec_number_bytes(), before.len() as int + 8) == block.bw_ent_id,
        spec_signed_at(before + block.spec_number_bytes(), before.len() as int + 12) == block.offer_id,
        (before + block.spec_number_bytes())[before.len() as int + 16] == block.ty,
{
    let bytes = before + block.spec_number_bytes();
    let tracking = spec_signed_bytes(block.tracking_id);
    let priority = spec_signed_bytes(block.priority);
    let entitlement = spec_signed_bytes(block.bw_ent_id);
    let offer = spec_signed_bytes(block.offer_id);
    let tail = seq![block.ty, 0u8, 0u8, 0u8];
    lemma_signed_at(before, block.tracking_id, priority + entitlement + offer + tail);
    assert(bytes =~= before + tracking + (priority + entitlement + offer + tail));
    lemma_signed_at(before + tracking, block.priority, entitlement + offer + tail);
    assert(bytes =~= (before + tracking) + priority + (entitlement + offer + tail));
    lemma_signed_at(before + tracking + priority, block.bw_ent_id, offer + tail);
    assert(bytes =~= (before + tracking + priority) + entitlement + (offer + tail));
    lemma_signed_at(before + tracking + priority + entitlement, block.offer_id, tail);
    assert(bytes =~= (before + tracking + priority + entitlement) + offer + tail);
}

/// A block that is laid out and read back is the same block, and its
/// layout has the size of the argument block.
pub proof fn lemma_block_round_trip(block: NotificationBlock)
    ensures
        block.spec_bytes().len() == NOTIFICATION_BLOCK_SIZE,
        NotificationBlock::spec_parse(block.spec_bytes()) == block,
{
    lemma_headers_round_trip(block, block.spec_number_bytes());
    lemma_numbers_round_trip(block, block.spec_header_bytes());
}

} // verus!
