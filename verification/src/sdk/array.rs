//! The foreign array: a buffer with a count of live elements kept apart from
//! the capacity it was allocated with.

use vstd::prelude::*;

verus! {

/// `Vec::capacity` of the standard library: how many elements `values` can
/// hold without reallocating, which is never fewer than it holds.
#[verifier::external_body]
fn vec_capacity<T>(values: &Vec<T>) -> (capacity: usize)
    ensures
        capacity >= values.len(),
{
    values.capacity()
}

/// The capacity that is recorded for a buffer with room for `room` elements:
/// the room itself, or the largest signed 32-bit number where the room is
/// more than that.
pub open spec fn spec_recorded_room(room: usize) -> int {
    if room > i32::MAX {
        i32::MAX as int
    } else {
        room as int
    }
}

/// An array as the foreign process lays it out: the elements, how many of
/// them are live, and how many the buffer has room for. Both numbers are
/// signed 32-bit values, as the foreign layout has them.
#[derive(Debug)]
pub struct TArray<T> {
    data: Vec<T>,
    count: i32,
    capacity: i32,
}

impl<T> View for TArray<T> {
    type V = Seq<T>;

    /// The live elements, in order.
    closed spec fn view(&self) -> Seq<T> {
        self.data@
    }
}

impl<T: Clone> Clone for TArray<T> {
    /// An array with clones of the same elements, in a buffer of its own:
    /// its capacity is the room of that buffer, not that of the source.
    fn clone(&self) -> (copy: TArray<T>)
        ensures
            copy@.len() == self@.len(),
            forall|i: int| 0 <= i < self@.len() ==> cloned(self@[i], #[trigger] copy@[i]),
            copy@.len() <= copy.spec_capacity() <= i32::MAX,
    {
        proof {
            use_type_invariant(self);
        }
        let data = self.data.clone();
        let room = vec_capacity(&data);
        TArray::with_room(data, room)
    }
}

impl<T> TArray<T> {
    #[verifier::type_invariant]
    spec fn coherent(self) -> bool {
        &&& self.count == self.data.len()
        &&& self.count <= self.capacity
    }

    /// The number of elements that the buffer has room for.
    pub closed spec fn spec_capacity(&self) -> int {
        self.capacity as int
    }

    /// Takes over `value` as the elements of a foreign array whose buffer
    /// has room for `room` elements. The count is the number of elements;
    /// the capacity is the room, as far as a signed 32-bit number can tell
    /// it.
    pub fn with_room(value: Vec<T>, room: usize) -> (array: TArray<T>)
        requires
            value.len() <= i32::MAX,
            value.len() <= room,
        ensures
            array@ == value@,
            array.spec_capacity() == spec_recorded_room(room),
    {
        let length = value.len() as i32;
        let capacity = if room > i32::MAX as usize {
            i32::MAX
        } else {
            room as i32
        };
        TArray { data: value, count: length, capacity }
    }

    /// Takes over `value` as the elements of a foreign array. The count is
    /// the number of elements; the capacity is the room that the buffer of
    /// `value` reports, recorded as `with_room` records it.
    pub fn from(value: Vec<T>) -> (array: TArray<T>)
        requires
            value.len() <= i32::MAX,
        ensures
            array@ == value@,
            array@.len() <= array.spec_capacity() <= i32::MAX,
    {
        let room = vec_capacity(&value);
        TArray::with_room(value, room)
    }

    /// Gives the elements up, in order, with the buffer that holds them.
    pub fn into_vec(self) -> (elements: Vec<T>)
        ensures
            elements@ == self@,
    {
        self.data
    }

    /// The element at `index`, if `index` is below the count. Room beyond
    /// the count is never read.
    pub fn get(&self, index: usize) -> (element: Option<&T>)
        ensures
            index < self@.len() ==> element == Some(&self@[index as int]),
            index >= self@.len() ==> element is None,
    {
        if index >= self.len() {
            return None;
        }
        proof {
            use_type_invariant(self);
        }
        Some(&self.data[index])
    }

    /// The number of live elements.
    pub fn len(&self) -> (count: usize)
        ensures
            count == self@.len(),
            count <= i32::MAX,
    {
        proof {
            use_type_invariant(self);
        }
        self.count as usize
    }

    /// The number of elements that the buffer has room for.
    pub fn capacity(&self) -> (capacity: usize)
        ensures
            capacity == self.spec_capacity(),
            self@.len() <= capacity <= i32::MAX,
    {
        proof {
            use_type_invariant(self);
        }
        self.capacity as usize
    }

    /// Copies the live elements out, in order.
    pub fn clone_vec(&self) -> (out: Vec<T>) where T: Clone
        ensures
            out@.len() == self@.len(),
            forall|i: int| 0 <= i < self@.len() ==> cloned(self@[i], #[trigger] out@[i]),
    {
        let mut out = Vec::with_capacity(self.len());
        let mut i: usize = 0;
        while i < self.len()
            invariant
                i <= self@.len(),
                out@.len() == i,
                forall|j: int| 0 <= j < i ==> cloned(self@[j], #[trigger] out@[j]),
            decreases self@.len() - i,
        {
            if let Some(value) = self.get(i) {
                out.push(value.clone());
            }
            i += 1;
        }
        out
    }
}

} // verus!
