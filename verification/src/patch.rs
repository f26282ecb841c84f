//! The bytes of the patch: the redirecting jump, the trampoline that replays
//! the displaced instructions, and what the two make of the memory of the
//! foreign process.

use vstd::prelude::*;
use crate::abi::{
    address_space, le_bytes, lemma_le_bytes_hold_value, spec_advance, spec_le_bytes,
    spec_le_value, ForeignAddress,
};

verus! {

/// Width in bytes of the near-jump instruction written over the entry point.
pub const JMP_SIZE: usize = 5;

/// Opcode of the near jump that takes a 32-bit displacement.
pub const JMP_OPCODE: u8 = 0xE9;

/// The displacement that a near jump placed at `from` needs to land on `to`:
/// the distance from the end of the instruction, reduced to 32 bits.
pub open spec fn spec_displacement(from: ForeignAddress, to: ForeignAddress) -> u32 {
    ((to - from - 5) % address_space()) as u32
}

/// The five bytes of a near jump from `from` to `to`.
pub open spec fn spec_near_jump(from: ForeignAddress, to: ForeignAddress) -> Seq<u8> {
    seq![JMP_OPCODE] + spec_le_bytes(spec_displacement(from, to))
}

/// Where control continues after the instruction `code` placed at `from`, if
/// `code` is a near jump.
pub open spec fn spec_jump_destination(from: ForeignAddress, code: Seq<u8>) -> Option<
    ForeignAddress,
> {
    if code.len() == 5 && code[0] == JMP_OPCODE {
        Some(((from + 5 + spec_le_value(code.subrange(1, 5))) % address_space()) as u32)
    } else {
        None
    }
}

/// Computes the displacement of a near jump from `from` to `to`.
pub fn displacement(from: ForeignAddress, to: ForeignAddress) -> (offset: u32)
    ensures
        offset == spec_displacement(from, to),
{
    to.wrapping_sub(from).wrapping_sub(5)
}

/// Encodes the near jump that redirects control from `from` to `to`.
pub fn near_jump(from: ForeignAddress, to: ForeignAddress) -> (code: [u8; 5])
    ensures
        code@ == spec_near_jump(from, to),
{
    let offset = le_bytes(displacement(from, to));
    let code = [JMP_OPCODE, offset[0], offset[1], offset[2], offset[3]];
    assert(code@ =~= spec_near_jump(from, to));
    code
}

/// A displacement added to the end of its jump gives the destination.
pub proof fn lemma_displacement_reaches_destination(from: ForeignAddress, to: ForeignAddress)
    ensures
        (from + 5 + spec_displacement(from, to)) % address_space() == to,
{
    let distance = to - from - 5;
    let offset = spec_displacement(from, to);
    if distance >= 0 {
        assert(offset == distance);
        assert(from + 5 + offset == to);
    } else if distance >= -address_space() {
        assert(offset == distance + address_space());
        assert(from + 5 + offset == to + address_space());
    } else {
        assert(offset == distance + 2 * address_space());
        assert(from + 5 + offset == to + 2 * address_space());
    }
}

/// The jump that redirects `from` lands exactly on `to`, wherever the two
/// lie in the address space.
pub proof fn lemma_near_jump_reaches_destination(from: ForeignAddress, to: ForeignAddress)
    ensures
        spec_near_jump(from, to).len() == JMP_SIZE,
        spec_jump_destination(from, spec_near_jump(from, to)) == Some(to),
{
    let offset = spec_displacement(from, to);
    let code = spec_near_jump(from, to);
    assert(code.subrange(1, 5) =~= spec_le_bytes(offset));
    lemma_le_bytes_hold_value(offset);
    lemma_displacement_reaches_destination(from, to);
}

/// Size in bytes of a trampoline: the displaced instructions and the jump
/// back into the function body.
pub const TRAMPOLINE_SIZE: usize = 10;

/// The contents of a trampoline placed at `at` for the entry point `target`
/// whose first instructions were `displaced`: those instructions, then a jump
/// to the first byte of `target` that the patch leaves untouched.
pub open spec fn spec_trampoline_code(
    displaced: Seq<u8>,
    target: ForeignAddress,
    at: ForeignAddress,
) -> Seq<u8> {
    displaced + spec_near_jump(spec_advance(at, 5), spec_advance(target, 5))
}

/// A call that enters the trampoline meets the displaced instructions
/// unchanged and is then carried to the first byte of the function that the
/// patch left in place.
pub proof fn lemma_trampoline_resumes_function(
    displaced: Seq<u8>,
    target: ForeignAddress,
    at: ForeignAddress,
)
    requires
        displaced.len() == JMP_SIZE,
    ensures
        spec_trampoline_code(displaced, target, at).len() == TRAMPOLINE_SIZE,
        spec_trampoline_code(displaced, target, at).subrange(0, 5) == displaced,
        spec_jump_destination(
            spec_advance(at, 5),
            spec_trampoline_code(displaced, target, at).subrange(5, 10),
        ) == Some(spec_advance(target, 5)),
{
    let code = spec_trampoline_code(displaced, target, at);
    let back = spec_near_jump(spec_advance(at, 5), spec_advance(target, 5));
    lemma_near_jump_reaches_destination(spec_advance(at, 5), spec_advance(target, 5));
    assert(code.subrange(0, 5) =~= displaced);
    assert(code.subrange(5, 10) =~= back);
}

/// How far `address` lies behind `start`, counted around the address
/// space.
pub open spec fn spec_offset_from(start: ForeignAddress, address: ForeignAddress) -> int {
    (address - start) % address_space()
}

/// Whether `address` is one of the `width` bytes that begin at `start`.
pub open spec fn spec_in_window(start: ForeignAddress, width: int, address: ForeignAddress)
    -> bool {
    spec_offset_from(start, address) < width
}

/// The bytes that `memory` holds in the `width` addresses from `start` on.
pub open spec fn spec_window(
    memory: spec_fn(ForeignAddress) -> u8,
    start: ForeignAddress,
    width: nat,
) -> Seq<u8> {
    Seq::new(width, |k: int| memory(spec_advance(start, k)))
}

/// The memory of the foreign process once a manual hook is in place:
/// `memory` with the jump to `replacement` over the entry point at `target`
/// and, in the block at `at`, the trampoline made from what stood at the
/// entry point.
pub open spec fn spec_patched_memory(
    memory: spec_fn(ForeignAddress) -> u8,
    target: ForeignAddress,
    replacement: ForeignAddress,
    at: ForeignAddress,
) -> spec_fn(ForeignAddress) -> u8 {
    |address: ForeignAddress|
        if spec_in_window(target, 5, address) {
            spec_near_jump(target, replacement)[spec_offset_from(target, address)]
        } else if spec_in_window(at, 10, address) {
            spec_trampoline_code(spec_window(memory, target, 5), target, at)[spec_offset_from(
                at,
                address,
            )]
        } else {
            memory(address)
        }
}

/// Advancing from `start` by `distance` ends `distance` behind `start`.
pub proof fn lemma_offset_of_advance(start: ForeignAddress, distance: int)
    requires
        0 <= distance < address_space(),
    ensures
        spec_offset_from(start, spec_advance(start, distance)) == distance,
{
    let sum = start + distance;
    if sum < address_space() {
        assert(spec_advance(start, distance) == sum);
    } else {
        assert(spec_advance(start, distance) == sum - address_space());
    }
}

/// Advancing twice is advancing by the sum.
pub proof fn lemma_advance_twice(start: ForeignAddress, first: int, second: int)
    requires
        0 <= first < address_space(),
        0 <= second < address_space(),
    ensures
        spec_advance(spec_advance(start, first), second) == spec_advance(start, first + second),
{
    let sum = start + first;
    if sum < address_space() {
        assert(spec_advance(start, first) == sum);
    } else {
        assert(spec_advance(start, first) == sum - address_space());
    }
    let total = start + first + second;
    if total < address_space() {
    } else if total < 2 * address_space() {
        assert(spec_advance(start, first + second) == total - address_space());
    } else {
        assert(spec_advance(start, first + second) == total - 2 * address_space());
    }
}

/// With a manual hook in place, the entry point holds the redirecting jump.
proof fn lemma_patch_stands_at_target(
    memory: spec_fn(ForeignAddress) -> u8,
    target: ForeignAddress,
    replacement: ForeignAddress,
    at: ForeignAddress,
)
    ensures
        spec_window(spec_patched_memory(memory, target, replacement, at), target, 5)
            == spec_near_jump(target, replacement),
{
    let patched = spec_patched_memory(memory, target, replacement, at);
    assert forall|k: int| 0 <= k < 5 implies #[trigger] spec_window(patched, target, 5)[k]
        == spec_near_jump(target, replacement)[k] by {
        lemma_offset_of_advance(target, k);
    }
    assert(spec_window(patched, target, 5) =~= spec_near_jump(target, replacement));
}

/// With a manual hook in place, the block of the trampoline holds the
/// trampoline, provided that it does not lie over the patch.
proof fn lemma_trampoline_stands_in_block(
    memory: spec_fn(ForeignAddress) -> u8,
    target: ForeignAddress,
    replacement: ForeignAddress,
    at: ForeignAddress,
)
    requires
        forall|address: ForeignAddress|
            !(spec_in_window(target, 5, address) && spec_in_window(at, 10, address)),
    ensures
        spec_window(spec_patched_memory(memory, target, replacement, at), at, 10)
            == spec_trampoline_code(spec_window(memory, target, 5), target, at),
{
    let patched = spec_patched_memory(memory, target, replacement, at);
    let code = spec_trampoline_code(spec_window(memory, target, 5), target, at);
    assert forall|k: int| 0 <= k < 10 implies #[trigger] spec_window(patched, at, 10)[k]
        == code[k] by {
        lemma_offset_of_advance(at, k);
        let address = spec_advance(at, k);
        assert(spec_in_window(at, 10, address));
        assert(!spec_in_window(target, 5, address));
    }
    assert(spec_window(patched, at, 10) =~= code);
}

/// With a manual hook in place, a call that arrives at the entry point is
/// carried to the replacement, and a call that enters the trampoline finds
/// there, byte for byte, what stood at the entry point before, followed by a
/// jump to the first byte behind the patch. Outside the patch and the
/// trampoline no byte of the foreign process has changed. The trampoline
/// must not lie over the patch.
pub proof fn lemma_patched_memory_replays_function(
    memory: spec_fn(ForeignAddress) -> u8,
    target: ForeignAddress,
    replacement: ForeignAddress,
    at: ForeignAddress,
)
    requires
        forall|address: ForeignAddress|
            !(spec_in_window(target, 5, address) && spec_in_window(at, 10, address)),
    ensures
        spec_jump_destination(
            target,
            spec_window(spec_patched_memory(memory, target, replacement, at), target, 5),
        ) == Some(replacement),
        spec_window(spec_patched_memory(memory, target, replacement, at), at, 5) == spec_window(
            memory,
            target,
            5,
        ),
        spec_jump_destination(
            spec_advance(at, 5),
            spec_window(spec_patched_memory(memory, target, replacement, at), spec_advance(at, 5), 5),
        ) == Some(spec_advance(target, 5)),
        forall|address: ForeignAddress|
            !spec_in_window(target, 5, address) && !spec_in_window(at, 10, address) ==> (
            #[trigger] spec_patched_memory(memory, target, replacement, at)(address)) == memory(
                address,
            ),
{
    let patched = spec_patched_memory(memory, target, replacement, at);
    let displaced = spec_window(memory, target, 5);
    let code = spec_trampoline_code(displaced, target, at);
    lemma_patch_stands_at_target(memory, target, replacement, at);
    lemma_near_jump_reaches_destination(target, replacement);
    lemma_trampoline_stands_in_block(memory, target, replacement, at);
    lemma_trampoline_resumes_function(displaced, target, at);
    let block = spec_window(patched, at, 10);
    assert(spec_window(patched, at, 5) =~= block.subrange(0, 5));
    let resume = spec_advance(at, 5);
    assert forall|k: int| 0 <= k < 5 implies #[trigger] spec_window(patched, resume, 5)[k]
        == block[5 + k] by {
        lemma_advance_twice(at, 5, k);
    }
    assert(spec_window(patched, resume, 5) =~= block.subrange(5, 10));
}

} // verus!
