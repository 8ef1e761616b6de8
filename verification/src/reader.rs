//! Reading one field of the process: a chain of pointers is followed from
//! the field's base address, and the bytes at the end of the chain are the
//! value. The reads themselves are made by the caller; the reader says
//! which bytes it needs next and what follows from those that came back.

use crate::memory::{u32_le, MemoryWindow};
use vstd::prelude::*;

verus! {

/// The offsets that are added along a chain of pointers, one after each
/// pointer that is followed.
#[derive(Clone, Copy, PartialEq, Eq, Structural, Debug)]
pub enum Chain {
    /// The value lies at the base address itself.
    Direct,
    /// One pointer is followed.
    One(u64),
    /// Two pointers are followed.
    Two(u64, u64),
}

/// Where a field lies and how many bytes its value has.
#[derive(Clone, Copy, PartialEq, Eq, Structural, Debug)]
pub struct FieldDescriptor {
    pub base: u64,
    pub chain: Chain,
    pub width: usize,
}

/// The bytes that a reader asks for.
#[derive(Clone, Copy, PartialEq, Eq, Structural, Debug)]
pub struct Request {
    pub address: u64,
    pub len: usize,
}

/// A read in progress: the field, the width of the process's pointers, the
/// number of pointers followed so far, and the address to read next.
#[derive(Clone, Copy, PartialEq, Eq, Structural, Debug)]
pub struct Reader {
    pub descriptor: FieldDescriptor,
    pub is_64_bit: bool,
    pub level: usize,
    pub address: u64,
}

/// How a read goes on after a request was answered.
#[derive(Debug)]
pub enum Progress {
    /// Another request has to be made.
    Next(Reader),
    /// The read is over and this is the field's value.
    Value(Vec<u8>),
}

/// How a read goes on after a request was answered, with the value as a
/// sequence.
pub ghost enum Outcome {
    Next(Reader),
    Value(Seq<u8>),
}

impl View for Progress {
    type V = Outcome;

    open spec fn view(&self) -> Outcome {
        match *self {
            Progress::Next(reader) => Outcome::Next(reader),
            Progress::Value(bytes) => Outcome::Value(bytes@),
        }
    }
}

/// The unsigned value of eight bytes, least significant first.
pub open spec fn u64_le(bytes: Seq<u8>) -> int {
    u32_le(bytes[0], bytes[1], bytes[2], bytes[3]) + 0x1_0000_0000 * u32_le(
        bytes[4],
        bytes[5],
        bytes[6],
        bytes[7],
    )
}

/// The number of bytes of a pointer.
pub open spec fn pointer_len(is_64_bit: bool) -> int {
    if is_64_bit {
        8
    } else {
        4
    }
}

/// The address that the bytes of a pointer hold.
pub open spec fn pointer_value(bytes: Seq<u8>, is_64_bit: bool) -> int {
    if is_64_bit {
        u64_le(bytes)
    } else {
        u32_le(bytes[0], bytes[1], bytes[2], bytes[3])
    }
}

/// The value of a field that could not be read: as many zero bytes as the
/// field is wide.
pub open spec fn default_value(width: int) -> Seq<u8> {
    Seq::new(width as nat, |i: int| 0u8)
}

/// What the process holds: for an address and a length, the bytes there, or
/// nothing where they cannot be read.
pub type Memory = spec_fn(int, int) -> Option<Seq<u8>>;

impl Chain {
    /// The offsets of the chain in the order in which they are added.
    pub open spec fn offsets(self) -> Seq<u64> {
        match self {
            Chain::Direct => seq![],
            Chain::One(a) => seq![a],
            Chain::Two(a, b) => seq![a, b],
        }
    }

    /// The number of pointers that are followed.
    pub fn depth(&self) -> (n: usize)
        ensures
            n == self.offsets().len(),
    {
        match self {
            Chain::Direct => 0,
            Chain::One(_) => 1,
            Chain::Two(_, _) => 2,
        }
    }

    /// The offset that is added to the pointer of the given level.
    pub fn offset(&self, level: usize) -> (offset: Option<u64>)
        ensures
            offset == if level < self.offsets().len() {
                Some(self.offsets()[level as int])
            } else {
                None
            },
    {
        match self {
            Chain::Direct => None,
            Chain::One(a) => if level == 0 {
                Some(*a)
            } else {
                None
            },
            Chain::Two(a, b) => if level == 0 {
                Some(*a)
            } else if level == 1 {
                Some(*b)
            } else {
                None
            },
        }
    }
}

impl Reader {
    /// The bytes that are needed next: a pointer while the chain goes on,
    /// the value at its end.
    pub open spec fn wanted(self) -> Request {
        Request {
            address: self.address,
            len: if self.level < self.descriptor.chain.offsets().len() {
                if self.is_64_bit {
                    8usize
                } else {
                    4usize
                }
            } else {
                self.descriptor.width
            },
        }
    }

    /// What follows from the answer to the request. Bytes that are missing,
    /// or not as many as were asked for, end the read with the default
    /// value. So does a pointer that, with its offset, leads beyond the last
    /// 64-bit address. Otherwise a pointer leads to the next request, and
    /// the bytes at the end of the chain are the value.
    pub open spec fn supplied(self, fetched: Option<Seq<u8>>) -> Outcome {
        let miss = Outcome::Value(default_value(self.descriptor.width as int));
        match fetched {
            Some(bytes) => if bytes.len() != self.wanted().len {
                miss
            } else if self.level < self.descriptor.chain.offsets().len() {
                let next = pointer_value(bytes, self.is_64_bit)
                    + self.descriptor.chain.offsets()[self.level as int];
                if next <= u64::MAX {
                    Outcome::Next(
                        Reader {
                            descriptor: self.descriptor,
                            is_64_bit: self.is_64_bit,
                            level: (self.level + 1) as usize,
                            address: next as u64,
                        },
                    )
                } else {
                    miss
                }
            } else {
                Outcome::Value(bytes)
            },
            None => miss,
        }
    }

    /// The value that the read ends with when every request is answered
    /// from `memory`.
    pub open spec fn value_in(self, memory: Memory) -> Seq<u8>
        decreases self.descriptor.chain.offsets().len() - self.level,
    {
        match self.supplied(memory(self.wanted().address as int, self.wanted().len as int)) {
            Outcome::Next(reader) => reader.value_in(memory),
            Outcome::Value(bytes) => bytes,
        }
    }

    /// A read that has followed no pointer yet and stands at the field's
    /// base address.
    pub open spec fn started(descriptor: FieldDescriptor, is_64_bit: bool) -> Reader {
        Reader { descriptor, is_64_bit, level: 0, address: descriptor.base }
    }

    /// The read of a field from its base address.
    pub fn begin(descriptor: FieldDescriptor, is_64_bit: bool) -> (reader: Reader)
        ensures
            reader == Reader::started(descriptor, is_64_bit),
    {
        Reader { descriptor, is_64_bit, level: 0, address: descriptor.base }
    }

    /// The bytes that the caller has to read next.
    pub fn request(&self) -> (request: Request)
        ensures
            request == self.wanted(),
    {
        let len: usize = if self.level < self.descriptor.chain.depth() {
            if self.is_64_bit {
                8
            } else {
                4
            }
        } else {
            self.descriptor.width
        };
        Request { address: self.address, len }
    }

    /// Takes the answer to the request: the bytes read, or nothing where
    /// the read failed.
    pub fn supply(&self, fetched: Option<&[u8]>) -> (progress: Progress)
        ensures
            progress@ == self.supplied(
                match fetched {
                    Some(bytes) => Some(bytes@),
                    None => None,
                },
            ),
    {
        let wanted = self.request();
        let bytes: &[u8] = match fetched {
            Some(bytes) => bytes,
            None => {
                return Progress::Value(zeros(self.descriptor.width));
            },
        };
        if bytes.len() != wanted.len {
            return Progress::Value(zeros(self.descriptor.width));
        }
        match self.descriptor.chain.offset(self.level) {
            Some(offset) => {
                let Some(pointer) = decode_pointer(bytes, self.is_64_bit) else {
                    return Progress::Value(zeros(self.descriptor.width));
                };
                if pointer > u64::MAX - offset {
                    return Progress::Value(zeros(self.descriptor.width));
                }
                Progress::Next(
                    Reader {
                        descriptor: self.descriptor,
                        is_64_bit: self.is_64_bit,
                        level: self.level + 1,
                        address: pointer + offset,
                    },
                )
            },
            None => Progress::Value(copy_of(bytes)),
        }
    }
}

/// As many zero bytes as a field is wide.
pub fn zeros(width: usize) -> (bytes: Vec<u8>)
    ensures
        bytes@ == default_value(width as int),
{
    let mut bytes: Vec<u8> = Vec::new();
    let mut i: usize = 0;
    while i < width
        invariant
            0 <= i <= width,
            bytes@ == default_value(i as int),
        decreases width - i,
    {
        bytes.push(0);
        assert(bytes@ =~= default_value(i + 1));
        i += 1;
    }
    bytes
}

/// A vector with the bytes of a slice.
fn copy_of(source: &[u8]) -> (bytes: Vec<u8>)
    ensures
        bytes@ == source@,
{
    let mut bytes: Vec<u8> = Vec::new();
    let mut i: usize = 0;
    while i < source.len()
        invariant
            0 <= i <= source@.len(),
            bytes@ == source@.subrange(0, i as int),
        decreases source@.len() - i,
    {
        bytes.push(source[i]);
        assert(bytes@ =~= source@.subrange(0, i + 1));
        i += 1;
    }
    assert(source@.subrange(0, i as int) =~= source@);
    bytes
}

/// Decodes the little-endian bytes of a pointer. Bytes that are not as many
/// as a pointer is wide hold no pointer.
pub fn decode_pointer(bytes: &[u8], is_64_bit: bool) -> (pointer: Option<u64>)
    ensures
        pointer == if bytes@.len() == pointer_len(is_64_bit) {
            Some(pointer_value(bytes@, is_64_bit) as u64)
        } else {
            None
        },
        pointer is Some ==> pointer->0 == pointer_value(bytes@, is_64_bit),
{
    if is_64_bit {
        if bytes.len() != 8 {
            return None;
        }
        let low: u64 = bytes[0] as u64 + 0x100 * (bytes[1] as u64) + 0x1_0000 * (bytes[2] as u64)
            + 0x100_0000 * (bytes[3] as u64);
        let high: u64 = bytes[4] as u64 + 0x100 * (bytes[5] as u64) + 0x1_0000 * (bytes[6] as u64)
            + 0x100_0000 * (bytes[7] as u64);
        Some(low + 0x1_0000_0000 * high)
    } else {
        if bytes.len() != 4 {
            return None;
        }
        Some(
            bytes[0] as u64 + 0x100 * (bytes[1] as u64) + 0x1_0000 * (bytes[2] as u64) + 0x100_0000
                * (bytes[3] as u64),
        )
    }
}

/// The bytes of a snapshot as the memory that a read is answered from.
pub open spec fn memory_of(window: &MemoryWindow) -> Memory {
    |address: int, len: int| window.bytes_at(address, len)
}

/// Whatever the memory holds, a read ends with as many bytes as the field
/// is wide.
pub proof fn lemma_value_has_width(reader: Reader, memory: Memory)
    ensures
        reader.value_in(memory).len() == reader.descriptor.width,
    decreases reader.descriptor.chain.offsets().len() - reader.level,
{
    let wanted = reader.wanted();
    match reader.supplied(memory(wanted.address as int, wanted.len as int)) {
        Outcome::Next(next) => {
            lemma_value_has_width(next, memory);
        },
        Outcome::Value(bytes) => {},
    }
}

/// Reads a field from a snapshot: every request of the reader is answered
/// from the bytes of `window`.
pub fn read_field(window: &MemoryWindow, descriptor: FieldDescriptor, is_64_bit: bool) -> (value:
    Vec<u8>)
    ensures
        value@ == Reader::started(descriptor, is_64_bit).value_in(memory_of(window)),
        value@.len() == descriptor.width,
{
    let ghost memory = memory_of(window);
    let mut reader = Reader::begin(descriptor, is_64_bit);
    proof {
        lemma_value_has_width(reader, memory);
    }
    loop
        invariant
            memory == memory_of(window),
            reader.descriptor == descriptor,
            reader.value_in(memory) == Reader::started(descriptor, is_64_bit).value_in(memory),
            reader.value_in(memory).len() == descriptor.width,
        decreases descriptor.chain.offsets().len() - reader.level,
    {
        let wanted = reader.request();
        let fetched = window.read_bytes(wanted.address, wanted.len);
        let progress = match &fetched {
            Some(bytes) => reader.supply(Some(bytes.as_slice())),
            None => reader.supply(None),
        };
        match progress {
            Progress::Next(next) => {
                reader = next;
            },
            Progress::Value(value) => {
                return value;
            },
        }
    }
}

} // verus!
