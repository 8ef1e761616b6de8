//! Wildcard byte patterns and the search for their first occurrence in a
//! buffer.

use vstd::prelude::*;

verus! {

/// Whether `pattern` occurs in `bytes` at index `i`: the whole span lies
/// inside the buffer and every cell that names a byte finds that byte.
pub open spec fn matches_at(bytes: Seq<u8>, pattern: Seq<Option<u8>>, i: int) -> bool {
    &&& 0 <= i
    &&& i + pattern.len() <= bytes.len()
    &&& forall|j: int|
        0 <= j < pattern.len() && pattern[j] is Some ==> bytes[i + j] == #[trigger] pattern[j]->0
}

/// Whether `pattern` occurs nowhere in `bytes` below index `limit`.
pub open spec fn no_match_below(bytes: Seq<u8>, pattern: Seq<Option<u8>>, limit: int) -> bool {
    forall|k: int| 0 <= k < limit ==> !matches_at(bytes, pattern, k)
}

/// The index that a search of `bytes` for `pattern` yields: the smallest
/// index at which the pattern occurs, and nothing where it occurs nowhere.
pub open spec fn first_match(bytes: Seq<u8>, pattern: Seq<Option<u8>>, found: Option<int>) -> bool {
    match found {
        Some(i) => matches_at(bytes, pattern, i) && no_match_below(bytes, pattern, i),
        None => forall|k: int| !matches_at(bytes, pattern, k),
    }
}

/// The code that stands for a wildcard where a pattern is written as a row of
/// numbers; every code below it stands for the byte of that value.
pub const ANY: u16 = 0x100;

/// The cell that a code stands for: the byte of that value, or a wildcard for
/// a code that is no byte.
pub open spec fn cell_of(code: u16) -> Option<u8> {
    if code < 0x100 {
        Some(code as u8)
    } else {
        None
    }
}

/// The cells that a row of codes stands for.
pub open spec fn cells_of(codes: Seq<u16>) -> Seq<Option<u8>> {
    Seq::new(codes.len(), |i: int| cell_of(codes[i]))
}

/// A fixed sequence of cells, each either one exact byte or a wildcard that
/// stands for any byte.
#[derive(Debug)]
pub struct Pattern {
    pub cells: Vec<Option<u8>>,
}

impl View for Pattern {
    type V = Seq<Option<u8>>;

    open spec fn view(&self) -> Seq<Option<u8>> {
        self.cells@
    }
}

impl Pattern {
    /// A pattern made of the given cells, `None` being a wildcard.
    pub fn new(cells: Vec<Option<u8>>) -> (p: Pattern)
        ensures
            p@ == cells@,
    {
        Pattern { cells }
    }

    /// The pattern that a row of codes stands for.
    pub fn from_codes(codes: &[u16]) -> (p: Pattern)
        ensures
            p@ == cells_of(codes@),
    {
        let mut cells: Vec<Option<u8>> = Vec::new();
        let mut i: usize = 0;
        while i < codes.len()
            invariant
                0 <= i <= codes@.len(),
                cells@ == cells_of(codes@.subrange(0, i as int)),
            decreases codes@.len() - i,
        {
            let code: u16 = codes[i];
            let cell: Option<u8> = if code < 0x100 {
                Some(code as u8)
            } else {
                None
            };
            cells.push(cell);
            assert(cells@ =~= cells_of(codes@.subrange(0, i + 1)));
            i += 1;
        }
        assert(codes@.subrange(0, i as int) =~= codes@);
        Pattern { cells }
    }

    /// The number of bytes that an occurrence of the pattern spans.
    pub fn len(&self) -> (n: usize)
        ensures
            n == self@.len(),
    {
        self.cells.len()
    }

    /// Tells whether the pattern occurs in `bytes` at index `i`.
    pub fn matches(&self, bytes: &[u8], i: usize) -> (hit: bool)
        ensures
            hit == matches_at(bytes@, self@, i as int),
    {
        let n: usize = self.cells.len();
        if n > bytes.len() || i > bytes.len() - n {
            return false;
        }
        let mut j: usize = 0;
        while j < n
            invariant
                n == self.cells@.len(),
                i + n <= bytes@.len() <= usize::MAX,
                0 <= j <= n,
                forall|t: int|
                    0 <= t < j && self@[t] is Some ==> bytes@[i + t] == #[trigger] self@[t]->0,
            decreases n - j,
        {
            match self.cells[j] {
                Some(b) => {
                    if bytes[i + j] != b {
                        assert(self@[j as int] is Some);
                        return false;
                    }
                },
                None => {},
            }
            j += 1;
        }
        true
    }

    /// Searches `bytes` for the pattern and returns the lowest index at which
    /// it occurs.
    pub fn scan(&self, bytes: &[u8]) -> (found: Option<usize>)
        ensures
            first_match(
                bytes@,
                self@,
                match found {
                    Some(i) => Some(i as int),
                    None => None,
                },
            ),
    {
        let n: usize = self.cells.len();
        if n > bytes.len() {
            return None;
        }
        let last: usize = bytes.len() - n;
        let mut i: usize = 0;
        while i < last
            invariant
                n == self@.len(),
                last + n == bytes@.len(),
                0 <= i <= last,
                no_match_below(bytes@, self@, i as int),
            decreases last - i,
        {
            if self.matches(bytes, i) {
                return Some(i);
            }
            i += 1;
        }
        if self.matches(bytes, last) {
            Some(last)
        } else {
            None
        }
    }
}

} // verus!
