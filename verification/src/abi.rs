//! Addresses of the foreign process, the shape of the calls that cross into
//! it, and the way its 32-bit words lie in memory.

use vstd::prelude::*;

verus! {

/// An absolute location in the 32-bit address space of the foreign process.
/// Zero is the null reference.
pub type ForeignAddress = u32;

/// Size of the address space: addresses and displacements wrap at this value.
pub open spec fn address_space() -> int {
    0x1_0000_0000
}

/// The address `distance` bytes after `address`, wrapping at the end of the
/// address space.
pub open spec fn spec_advance(address: ForeignAddress, distance: int) -> ForeignAddress {
    ((address + distance) % address_space()) as u32
}

/// The four values that every dispatched call carries: the object it is made
/// on, the function it names, its argument block and the slot for its result.
#[derive(Clone, Copy, Debug, Default, PartialEq, Eq)]
pub struct CallArguments {
    pub object: ForeignAddress,
    pub function: ForeignAddress,
    pub params: ForeignAddress,
    pub result: ForeignAddress,
}

/// A call through an object's table of virtual functions: the function
/// address is read from `slot` and called with `arguments`.
#[derive(Clone, Copy, Debug, Default, PartialEq, Eq)]
pub struct VirtualCall {
    pub slot: ForeignAddress,
    pub arguments: CallArguments,
}

/// A call of the unpatched function: the code at `entry` is called with
/// `arguments`.
#[derive(Clone, Copy, Debug, Default, PartialEq, Eq)]
pub struct ForeignCall {
    pub entry: ForeignAddress,
    pub arguments: CallArguments,
}

/// The four bytes of `value`, least significant first.
pub open spec fn spec_le_bytes(value: u32) -> Seq<u8> {
    seq![
        (value % 256) as u8,
        (value / 256 % 256) as u8,
        (value / 65536 % 256) as u8,
        (value / 16777216) as u8,
    ]
}

/// The number that four little-endian bytes stand for.
pub open spec fn spec_le_value(bytes: Seq<u8>) -> int {
    bytes[0] + 256 * bytes[1] + 65536 * bytes[2] + 16777216 * bytes[3]
}

/// Splits `value` into its four bytes, least significant first.
pub fn le_bytes(value: u32) -> (bytes: [u8; 4])
    ensures
        bytes@ == spec_le_bytes(value),
{
    assert(value & 0xFF == value % 256) by (bit_vector);
    assert((value >> 8) & 0xFF == value / 256 % 256) by (bit_vector);
    assert((value >> 16) & 0xFF == value / 65536 % 256) by (bit_vector);
    assert((value >> 24) & 0xFF == value / 16777216) by (bit_vector);
    let bytes = [
        (value & 0xFF) as u8,
        ((value >> 8) & 0xFF) as u8,
        ((value >> 16) & 0xFF) as u8,
        ((value >> 24) & 0xFF) as u8,
    ];
    assert(bytes@ =~= spec_le_bytes(value));
    bytes
}

/// Joins four bytes, least significant first, into the value they stand
/// for.
pub fn le_value(bytes: &[u8; 4]) -> (value: u32)
    ensures
        value == spec_le_value(bytes@),
{
    bytes[0] as u32 + 256 * (bytes[1] as u32) + 65536 * (bytes[2] as u32) + 16777216 * (
    bytes[3] as u32)
}

/// Four little-endian bytes stand for the value they were split from.
pub proof fn lemma_le_bytes_hold_value(value: u32)
    ensures
        spec_le_bytes(value).len() == 4,
        spec_le_value(spec_le_bytes(value)) == value,
{
    assert(value / 256 / 256 == value / 65536) by (bit_vector);
    assert(value / 65536 / 256 == value / 16777216) by (bit_vector);
    let low = value / 256;
    let middle = value / 65536;
    let high = value / 16777216;
    assert(value == 256 * low + value % 256);
    assert(low == 256 * middle + low % 256);
    assert(middle == 256 * high + middle % 256);
}

/// A value joined from four little-endian bytes splits into those bytes.
pub proof fn lemma_le_value_holds_bytes(bytes: Seq<u8>)
    requires
        bytes.len() == 4,
    ensures
        0 <= spec_le_value(bytes) < address_space(),
        spec_le_bytes(spec_le_value(bytes) as u32) == bytes,
{
    let value = spec_le_value(bytes) as u32;
    assert(value / 256 / 256 == value / 65536) by (bit_vector);
    assert(value / 65536 / 256 == value / 16777216) by (bit_vector);
    let low = value / 256;
    let middle = value / 65536;
    let high = value / 16777216;
    assert(low == bytes[1] + 256 * bytes[2] + 65536 * bytes[3]);
    assert(middle == bytes[2] + 256 * bytes[3]);
    assert(high == bytes[3]);
    assert(spec_le_bytes(value) =~= bytes);
}

/// The 32 bits of `value` in two's complement, read as an unsigned number.
pub open spec fn spec_signed_bits(value: i32) -> u32 {
    if value >= 0 {
        value as u32
    } else {
        (value + address_space()) as u32
    }
}

/// The signed number whose two's complement is `bits`.
pub open spec fn spec_signed_value(bits: u32) -> i32 {
    if bits < 0x8000_0000 {
        bits as i32
    } else {
        (bits - address_space()) as i32
    }
}

/// The 32 bits of `value` in two's complement.
pub fn signed_bits(value: i32) -> (bits: u32)
    ensures
        bits == spec_signed_bits(value),
        spec_signed_value(bits) == value,
{
    if value >= 0 {
        value as u32
    } else {
        (value as i64 + 0x1_0000_0000) as u32
    }
}

/// The signed number whose two's complement is `bits`.
pub fn signed_value(bits: u32) -> (value: i32)
    ensures
        value == spec_signed_value(bits),
        spec_signed_bits(value) == bits,
{
    if bits < 0x8000_0000 {
        bits as i32
    } else {
        (bits as i64 - 0x1_0000_0000) as i32
    }
}

} // verus!
