//! A fixed-capacity, byte-addressable memory. The capacity is chosen at
//! construction and never changes; a program-loading operation serializes an
//! instruction sequence into consecutive little-endian 16-bit slots.

use crate::isa::{encode, encode_spec, Instr};
use vstd::prelude::*;

verus! {

/// A memory or register access lay beyond the valid bounds.
#[derive(Debug, Clone, Copy, PartialEq, Eq, Structural)]
pub struct AddressError;

/// The serialized program would not fit in the memory's capacity.
#[derive(Debug, Clone, Copy, PartialEq, Eq, Structural)]
pub struct LoadError;

/// A flat array of unsigned 8-bit cells with a capacity fixed at
/// construction. Viewed as the sequence of its cells.
pub struct Memory {
    data: Vec<u8>,
}

impl View for Memory {
    type V = Seq<u8>;

    closed spec fn view(&self) -> Seq<u8> {
        self.data@
    }
}

/// The low byte of a 16-bit word.
pub open spec fn lo_byte(w: u16) -> u8 {
    (w & 0xFF) as u8
}

/// The high byte of a 16-bit word.
pub open spec fn hi_byte(w: u16) -> u8 {
    (w >> 8) as u8
}

impl Memory {
    /// Creates a memory of the given capacity with every cell zeroed.
    pub fn new(capacity: usize) -> (m: Memory)
        ensures
            m@.len() == capacity,
            forall|i: int| 0 <= i < capacity ==> m@[i] == 0u8,
    {
        let mut data: Vec<u8> = Vec::new();
        let mut i: usize = 0;
        while i < capacity
            invariant
                i <= capacity,
                data@.len() == i,
                forall|j: int| 0 <= j < i ==> data@[j] == 0u8,
            decreases capacity - i,
        {
            data.push(0);
            i = i + 1;
        }
        Memory { data }
    }

    /// The memory's capacity in bytes.
    pub fn len(&self) -> (n: usize)
        ensures
            n == self@.len(),
    {
        self.data.len()
    }

    /// Reads the cell at `addr`; fails with `AddressError` exactly when
    /// `addr` lies outside the capacity.
    pub fn read(&self, addr: usize) -> (r: Result<u8, AddressError>)
        ensures
            addr < self@.len() ==> r == Ok::<u8, AddressError>(self@[addr as int]),
            addr >= self@.len() ==> r == Err::<u8, AddressError>(AddressError),
    {
        if addr < self.data.len() {
            Ok(self.data[addr])
        } else {
            Err(AddressError)
        }
    }

    /// Writes `val` to the cell at `addr`; fails with `AddressError`, and
    /// leaves the memory unchanged, exactly when `addr` lies outside the
    /// capacity.
    pub fn write(&mut self, addr: usize, val: u8) -> (r: Result<(), AddressError>)
        ensures
            addr < old(self)@.len() ==> r == Ok::<(), AddressError>(()) && final(self)@ == old(
                self,
            )@.update(addr as int, val),
            addr >= old(self)@.len() ==> r == Err::<(), AddressError>(AddressError) && final(self)@
                == old(self)@,
    {
        if addr < self.data.len() {
            self.data[addr] = val;
            Ok(())
        } else {
            Err(AddressError)
        }
    }

    /// Serializes `program` into the memory: the word of instruction `i`
    /// is written little-endian at byte offsets `2*i` and `2*i + 1`. Fails
    /// with `LoadError`, writing nothing, exactly when the serialized
    /// program would exceed the capacity; cells past the program keep
    /// their previous contents.
    pub fn load_program(&mut self, program: &Vec<Instr>) -> (r: Result<(), LoadError>)
        ensures
            r is Ok <==> 2 * program@.len() <= old(self)@.len(),
            r is Ok ==> final(self)@.len() == old(self)@.len() && (forall|i: int|
                0 <= i < program@.len() ==> final(self)@[2 * i] == lo_byte(encode_spec(program@[i]))
                    && final(self)@[2 * i + 1] == hi_byte(encode_spec(program@[i]))) && (forall|
                j: int,
            |
                2 * program@.len() <= j < old(self)@.len() ==> final(self)@[j] == old(self)@[j]),
            r is Err ==> final(self)@ == old(self)@,
    {
        let cap: usize = self.data.len();
        let n: usize = program.len();
        if n > cap / 2 {
            return Err(LoadError);
        }
        let ghost orig: Seq<u8> = self.data@;
        let mut i: usize = 0;
        while i < n
            invariant
                i <= n,
                n == program@.len(),
                2 * n <= cap,
                self.data@.len() == orig.len(),
                orig.len() == cap,
                forall|k: int|
                    0 <= k < i ==> self.data@[2 * k] == lo_byte(encode_spec(program@[k]))
                        && self.data@[2 * k + 1] == hi_byte(encode_spec(program@[k])),
                forall|j: int| 2 * i <= j < orig.len() ==> self.data@[j] == orig[j],
            decreases program.len() - i,
        {
            let w: u16 = encode(program[i]);
            proof {
                assert((w & 0xFF) < 256 && (w >> 8) < 256) by (bit_vector);
            }
            self.data[2 * i] = (w & 0xFF) as u8;
            self.data[2 * i + 1] = (w >> 8) as u8;
            i = i + 1;
        }
        Ok(())
    }
}

} // verus!
