//! A snapshot of one module of the observed process: a base address and the
//! bytes that follow it, some of which could not be read.

use crate::pattern::{matches_at, Pattern};
use vstd::prelude::*;

verus! {

/// The unsigned value of four bytes, least significant first.
pub open spec fn u32_le(b0: u8, b1: u8, b2: u8, b3: u8) -> int {
    b0 as int + 0x100 * (b1 as int) + 0x1_0000 * (b2 as int) + 0x100_0000 * (b3 as int)
}

/// The value of an unsigned 32-bit number read as two's complement.
pub open spec fn signed32(v: int) -> int {
    if v < 0x8000_0000 {
        v
    } else {
        v - 0x1_0000_0000
    }
}

/// Whether `pattern` occurs in `cells` at index `i`: the whole span lies
/// inside the snapshot, every byte of the span was read, and every cell of
/// the pattern that names a byte finds that byte.
pub open spec fn occurs_at(cells: Seq<Option<u8>>, pattern: Seq<Option<u8>>, i: int) -> bool {
    &&& 0 <= i
    &&& i + pattern.len() <= cells.len()
    &&& forall|j: int| 0 <= j < pattern.len() ==> (#[trigger] cells[i + j]) is Some
    &&& forall|j: int|
        0 <= j < pattern.len() && pattern[j] is Some ==> cells[i + j] == #[trigger] pattern[j]
}

/// The index that a search of `cells` for `pattern` yields: the smallest
/// index at which the pattern occurs, and nothing where it occurs nowhere.
pub open spec fn first_occurrence(
    cells: Seq<Option<u8>>,
    pattern: Seq<Option<u8>>,
    found: Option<int>,
) -> bool {
    match found {
        Some(i) => occurs_at(cells, pattern, i) && forall|k: int|
            0 <= k < i ==> !occurs_at(cells, pattern, k),
        None => forall|k: int| !occurs_at(cells, pattern, k),
    }
}

/// The smallest index at which `pattern` occurs in `cells`, if it occurs.
pub open spec fn lowest_occurrence(cells: Seq<Option<u8>>, pattern: Seq<Option<u8>>) -> Option<int> {
    if exists|i: int| occurs_at(cells, pattern, i) {
        Some(
            choose|i: int|
                occurs_at(cells, pattern, i) && forall|k: int|
                    0 <= k < i ==> !occurs_at(cells, pattern, k),
        )
    } else {
        None
    }
}

/// An index at which `pattern` occurs, with no occurrence below it, is the
/// smallest such index.
pub proof fn lemma_lowest_occurrence(cells: Seq<Option<u8>>, pattern: Seq<Option<u8>>, i: int)
    requires
        first_occurrence(cells, pattern, Some(i)),
    ensures
        lowest_occurrence(cells, pattern) == Some(i),
{
    let c = choose|c: int|
        occurs_at(cells, pattern, c) && forall|k: int|
            0 <= k < c ==> !occurs_at(cells, pattern, k);
    assert(occurs_at(cells, pattern, c));
    if c < i {
        assert(!occurs_at(cells, pattern, c));
    }
    if i < c {
        assert(!occurs_at(cells, pattern, i));
    }
}

/// In a snapshot whose every byte was read, a pattern occurs exactly where it
/// matches the bytes.
pub proof fn lemma_read_bytes_match(bytes: Seq<u8>, pattern: Seq<Option<u8>>, i: int)
    ensures
        occurs_at(Seq::new(bytes.len(), |k: int| Some(bytes[k])), pattern, i) == matches_at(
            bytes,
            pattern,
            i,
        ),
{
    let cells = Seq::new(bytes.len(), |k: int| Some(bytes[k]));
    if matches_at(bytes, pattern, i) {
        assert forall|j: int| 0 <= j < pattern.len() implies (#[trigger] cells[i + j]) is Some by {}
        assert forall|j: int| 0 <= j < pattern.len() && pattern[j] is Some implies cells[i + j]
            == #[trigger] pattern[j] by {
            assert(bytes[i + j] == pattern[j]->0);
        }
    }
    if occurs_at(cells, pattern, i) {
        assert forall|j: int| 0 <= j < pattern.len() && pattern[j] is Some implies bytes[i + j]
            == #[trigger] pattern[j]->0 by {
            assert(cells[i + j] == pattern[j]);
        }
    }
}

/// A scan region: the address of its first byte and one cell per byte, `None`
/// where the byte could not be read.
#[derive(Debug)]
pub struct MemoryWindow {
    base: u64,
    cells: Vec<Option<u8>>,
}

impl View for MemoryWindow {
    type V = Seq<Option<u8>>;

    closed spec fn view(&self) -> Seq<Option<u8>> {
        self.cells@
    }
}

impl MemoryWindow {
    /// The address of the window's first byte.
    pub closed spec fn origin(&self) -> int {
        self.base as int
    }

    /// Whether every address of the window is a 64-bit address. This holds
    /// of every window that the program holds.
    #[verifier::type_invariant]
    pub closed spec fn wf(&self) -> bool {
        self.base + self.cells@.len() <= u64::MAX
    }

    /// The last address of a window is a 64-bit address.
    pub proof fn lemma_bounded(&self)
        requires
            self.wf(),
        ensures
            self.origin() + self@.len() <= u64::MAX,
    {
    }

    /// The byte held at `address`, where the window covers that address and
    /// the byte was read.
    pub open spec fn byte_at(&self, address: int) -> Option<u8> {
        if self.origin() <= address < self.origin() + self@.len() {
            self@[address - self.origin()]
        } else {
            None
        }
    }

    /// The little-endian 32-bit number held in the four bytes from
    /// `address`, where all four were read.
    pub open spec fn u32_at(&self, address: int) -> Option<int> {
        if self.byte_at(address) is Some && self.byte_at(address + 1) is Some && self.byte_at(
            address + 2,
        ) is Some && self.byte_at(address + 3) is Some {
            Some(
                u32_le(
                    self.byte_at(address)->0,
                    self.byte_at(address + 1)->0,
                    self.byte_at(address + 2)->0,
                    self.byte_at(address + 3)->0,
                ),
            )
        } else {
            None
        }
    }

    /// The `len` bytes from `address`, where the window covers them and all
    /// of them were read.
    pub open spec fn bytes_at(&self, address: int, len: int) -> Option<Seq<u8>> {
        if len >= 0 && forall|i: int|
            0 <= i < len ==> (#[trigger] self.byte_at(address + i)) is Some {
            Some(Seq::new(len as nat, |i: int| self.byte_at(address + i)->0))
        } else {
            None
        }
    }

    /// The lowest address at which `pattern` occurs in the window, if it
    /// occurs.
    pub open spec fn find(&self, pattern: Seq<Option<u8>>) -> Option<int> {
        match lowest_occurrence(self@, pattern) {
            Some(i) => Some(self.origin() + i),
            None => None,
        }
    }

    /// The address at which a search of the window for `pattern` ends.
    pub open spec fn located(&self, pattern: Seq<Option<u8>>, found: Option<int>) -> bool {
        first_occurrence(
            self@,
            pattern,
            match found {
                Some(a) => Some(a - self.origin()),
                None => None,
            },
        )
    }

    /// A window holds no byte beyond the last 64-bit address.
    pub proof fn lemma_covers_addresses(&self, address: int)
        requires
            self.wf(),
            address > u64::MAX,
        ensures
            self.byte_at(address) is None,
            self.u32_at(address) is None,
    {
    }

    /// A window that starts at `base` and holds `cells`. There is none where
    /// its last address would not fit in 64 bits.
    pub fn new(base: u64, cells: Vec<Option<u8>>) -> (made: Option<MemoryWindow>)
        ensures
            made is Some <==> base + cells@.len() <= u64::MAX,
            made is Some ==> made->0.origin() == base && made->0@ == cells@ && made->0.wf(),
    {
        if cells.len() as u64 > u64::MAX - base {
            None
        } else {
            Some(MemoryWindow { base, cells })
        }
    }

    /// The address of the window's first byte.
    pub fn base(&self) -> (b: u64)
        ensures
            b == self.origin(),
    {
        self.base
    }

    /// The number of bytes that the window covers.
    pub fn size(&self) -> (n: usize)
        ensures
            n == self@.len(),
            self.wf(),
    {
        proof {
            use_type_invariant(self);
        }
        self.cells.len()
    }

    /// Reads the byte at `address`.
    pub fn read_u8(&self, address: u64) -> (value: Option<u8>)
        ensures
            value == self.byte_at(address as int),
    {
        proof {
            use_type_invariant(self);
        }
        if address < self.base {
            return None;
        }
        let at: u64 = address - self.base;
        if at >= self.cells.len() as u64 {
            return None;
        }
        self.cells[at as usize]
    }

    /// Reads the `len` bytes from `address`.
    pub fn read_bytes(&self, address: u64, len: usize) -> (bytes: Option<Vec<u8>>)
        ensures
            match bytes {
                Some(v) => self.bytes_at(address as int, len as int) == Some(v@),
                None => self.bytes_at(address as int, len as int) is None,
            },
    {
        proof {
            use_type_invariant(self);
        }
        let mut bytes: Vec<u8> = Vec::new();
        let mut i: usize = 0;
        while i < len
            invariant
                self.wf(),
                0 <= i <= len,
                bytes@.len() == i,
                forall|t: int| 0 <= t < i ==> (#[trigger] self.byte_at(address + t)) is Some,
                forall|t: int| 0 <= t < i ==> bytes@[t] == self.byte_at(address + t)->0,
            decreases len - i,
        {
            if i as u64 > u64::MAX - address {
                assert(self.byte_at(address + i) is None);
                return None;
            }
            match self.read_u8(address + i as u64) {
                Some(b) => {
                    bytes.push(b);
                },
                None => {
                    assert(self.byte_at(address + i) is None);
                    return None;
                },
            }
            i += 1;
        }
        assert(bytes@ =~= Seq::new(len as nat, |t: int| self.byte_at(address + t)->0));
        Some(bytes)
    }

    /// Reads the little-endian 32-bit number in the four bytes from
    /// `address`.
    pub fn read_u32(&self, address: u64) -> (value: Option<u32>)
        ensures
            match value {
                Some(v) => self.u32_at(address as int) == Some(v as int),
                None => self.u32_at(address as int) is None,
            },
    {
        proof {
            use_type_invariant(self);
        }
        if address > u64::MAX - 3 {
            assert(self.byte_at(address + 3) is None);
            return None;
        }
        let b0 = self.read_u8(address);
        let b1 = self.read_u8(address + 1);
        let b2 = self.read_u8(address + 2);
        let b3 = self.read_u8(address + 3);
        match (b0, b1, b2, b3) {
            (Some(b0), Some(b1), Some(b2), Some(b3)) => Some(
                b0 as u32 + 0x100 * (b1 as u32) + 0x1_0000 * (b2 as u32) + 0x100_0000 * (b3 as u32),
            ),
            _ => None,
        }
    }

    /// Reads the four bytes from `address` as a little-endian number in
    /// two's complement.
    pub fn read_i32(&self, address: u64) -> (value: Option<i32>)
        ensures
            match value {
                Some(v) => self.u32_at(address as int) is Some && signed32(
                    self.u32_at(address as int)->0,
                ) == v,
                None => self.u32_at(address as int) is None,
            },
    {
        match self.read_u32(address) {
            Some(v) => {
                if v < 0x8000_0000 {
                    Some(v as i32)
                } else {
                    Some(((v - 0x8000_0000) as i32) - 0x7FFF_FFFF - 1)
                }
            },
            None => None,
        }
    }

    /// Tells whether `pattern` occurs in the window at index `i`.
    fn occurs(&self, pattern: &Pattern, i: usize) -> (hit: bool)
        ensures
            hit == occurs_at(self@, pattern@, i as int),
    {
        let n: usize = pattern.cells.len();
        if n > self.cells.len() || i > self.cells.len() - n {
            return false;
        }
        let mut j: usize = 0;
        while j < n
            invariant
                n == pattern@.len(),
                i + n <= self@.len() <= usize::MAX,
                0 <= j <= n,
                forall|t: int| 0 <= t < j ==> (#[trigger] self@[i + t]) is Some,
                forall|t: int|
                    0 <= t < j && pattern@[t] is Some ==> self@[i + t] == #[trigger] pattern@[t],
            decreases n - j,
        {
            match self.cells[i + j] {
                Some(b) => {
                    match pattern.cells[j] {
                        Some(want) => {
                            if b != want {
                                assert(pattern@[j as int] is Some);
                                return false;
                            }
                        },
                        None => {},
                    }
                },
                None => {
                    assert(self@[i + j] is None);
                    return false;
                },
            }
            j += 1;
        }
        true
    }

    /// Searches the window for `pattern` and returns the lowest address at
    /// which it occurs. A span that holds an unread byte is no occurrence,
    /// and the search goes on behind it.
    pub fn scan(&self, pattern: &Pattern) -> (found: Option<u64>)
        ensures
            self.located(
                pattern@,
                match found {
                    Some(a) => Some(a as int),
                    None => None,
                },
            ),
            match found {
                Some(a) => self.find(pattern@) == Some(a as int),
                None => self.find(pattern@) is None,
            },
            found is Some ==> self.origin() <= found->0 && found->0 + pattern@.len()
                <= self.origin() + self@.len(),
    {
        proof {
            use_type_invariant(self);
        }
        let n: usize = pattern.cells.len();
        if n > self.cells.len() {
            return None;
        }
        let last: usize = self.cells.len() - n;
        let mut i: usize = 0;
        while i < last
            invariant
                n == pattern@.len(),
                last + n == self@.len(),
                self.base + self@.len() <= u64::MAX,
                0 <= i <= last,
                forall|k: int| 0 <= k < i ==> !occurs_at(self@, pattern@, k),
            decreases last - i,
        {
            if self.occurs(pattern, i) {
                proof {
                    lemma_lowest_occurrence(self@, pattern@, i as int);
                }
                return Some(self.base + i as u64);
            }
            i += 1;
        }
        if self.occurs(pattern, last) {
            proof {
                lemma_lowest_occurrence(self@, pattern@, last as int);
            }
            Some(self.base + last as u64)
        } else {
            None
        }
    }
}

} // verus!
