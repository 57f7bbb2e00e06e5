//! The tape: an unbounded row of cells, each blank or holding one symbol,
//! together with the range of positions that the trace displays.

use std::collections::HashMap;
use vstd::prelude::*;
use crate::rule::symbol_of;
use crate::text::{chars_of, contains_char};

verus! {

broadcast use vstd::std_specs::hash::group_hash_axioms;

/// The mathematical content of a `Tape`: the written cells by position, and
/// the least and greatest position inside the displayed range.
#[verifier::ext_equal]
pub struct TapeView {
    pub cells: Map<int, char>,
    pub min_head: int,
    pub max_head: int,
}

impl TapeView {
    /// The symbol at `position`, or `None` on a blank cell.
    pub open spec fn read(self, position: int) -> Option<char> {
        if self.cells.contains_key(position) {
            Some(self.cells[position])
        } else {
            None
        }
    }

    /// The tape with `symbol` in the cell at `position`. The displayed range
    /// stays as it is.
    pub open spec fn write(self, position: int, symbol: char) -> TapeView {
        TapeView { cells: self.cells.insert(position, symbol), ..self }
    }

    /// The tape with a blank cell at `position`. The displayed range stays as
    /// it is.
    pub open spec fn erase(self, position: int) -> TapeView {
        TapeView { cells: self.cells.remove(position), ..self }
    }

    /// The tape whose displayed range also covers `position`.
    pub open spec fn visit(self, position: int) -> TapeView {
        TapeView {
            cells: self.cells,
            min_head: if position < self.min_head {
                position
            } else {
                self.min_head
            },
            max_head: if position > self.max_head {
                position
            } else {
                self.max_head
            },
        }
    }
}

/// Whether the symbol at index `i` of `symbols` is put on the tape: only
/// symbols of the alphabet are.
pub open spec fn is_loaded(symbols: Seq<char>, alphabet: Seq<char>, i: int) -> bool {
    0 <= i < symbols.len() && alphabet.contains(symbols[i])
}

/// The cells of a tape loaded from `symbols`, whose first symbol stands at
/// position `offset`.
pub open spec fn loaded_cells(symbols: Seq<char>, offset: int, alphabet: Seq<char>) -> Map<
    int,
    char,
> {
    Map::new(
        |p: int| is_loaded(symbols, alphabet, p - offset),
        |p: int| symbols[p - offset],
    )
}

/// Whether every loaded symbol lands on a position that a tape can address.
pub open spec fn in_reach(symbols: Seq<char>, offset: int, alphabet: Seq<char>) -> bool {
    forall|i: int| is_loaded(symbols, alphabet, i) ==> offset + i <= i32::MAX
}

/// Whether `lo` and `hi` are the least and greatest written position of
/// `cells`, or both 0 where nothing is written.
pub open spec fn spans(cells: Map<int, char>, lo: int, hi: int) -> bool {
    if exists|p: int| cells.contains_key(p) {
        &&& cells.contains_key(lo)
        &&& cells.contains_key(hi)
        &&& forall|p: int| cells.contains_key(p) ==> lo <= p <= hi
    } else {
        lo == 0 && hi == 0
    }
}

/// The cells of a hash map keyed by machine integers, as a map over all
/// integers.
pub open spec fn widen(cells: Map<i32, char>) -> Map<int, char> {
    Map::new(
        |p: int| i32::MIN <= p <= i32::MAX && cells.contains_key(p as i32),
        |p: int| cells[p as i32],
    )
}

/// A range of positions that is never empty.
struct Span {
    lo: i32,
    hi: i32,
}

impl Span {
    #[verifier::type_invariant]
    spec fn ordered(self) -> bool {
        self.lo <= self.hi
    }

    fn new(lo: i32, hi: i32) -> (r: Span)
        requires
            lo <= hi,
        ensures
            r.lo == lo,
            r.hi == hi,
    {
        Span { lo, hi }
    }

    fn ends(&self) -> (r: (i32, i32))
        ensures
            r.0 == self.lo,
            r.1 == self.hi,
            r.0 <= r.1,
    {
        proof {
            use_type_invariant(self);
        }
        (self.lo, self.hi)
    }

    fn cover(&mut self, position: i32)
        ensures
            final(self).lo == if position < old(self).lo {
                position
            } else {
                old(self).lo
            },
            final(self).hi == if position > old(self).hi {
                position
            } else {
                old(self).hi
            },
    {
        proof {
            use_type_invariant(&*self);
        }
        if position < self.lo {
            self.lo = position;
        }
        if position > self.hi {
            self.hi = position;
        }
    }
}

/// A sparse tape. Positions that hold no symbol are blank.
pub struct Tape {
    cells: HashMap<i32, char>,
    span: Span,
}

impl View for Tape {
    type V = TapeView;

    closed spec fn view(&self) -> TapeView {
        TapeView {
            cells: widen(self.cells@),
            min_head: self.span.lo as int,
            max_head: self.span.hi as int,
        }
    }
}

impl Default for Tape {
    /// A blank tape whose displayed range is the single position 0.
    fn default() -> (r: Tape)
        ensures
            r@ == (TapeView { cells: Map::empty(), min_head: 0, max_head: 0 }),
    {
        Tape::new()
    }
}

impl Tape {
    /// A blank tape whose displayed range is the single position 0.
    pub fn new() -> (r: Tape)
        ensures
            r@ == (TapeView { cells: Map::empty(), min_head: 0, max_head: 0 }),
    {
        let r = Tape { cells: HashMap::new(), span: Span::new(0, 0) };
        assert(r@.cells =~= Map::empty());
        r
    }

    /// Loads a tape from `symbols`, whose first character stands at position
    /// `offset`. Characters outside `alphabet` are skipped and leave their cell
    /// blank. The displayed range runs from the least to the greatest written
    /// position. Returns `None` where a symbol would land beyond the greatest
    /// position that a tape can address.
    pub fn load(symbols: &str, offset: i32, alphabet: &str) -> (r: Option<Tape>)
        ensures
            r is Some <==> in_reach(symbols@, offset as int, alphabet@),
            r matches Some(tape) ==> {
                &&& tape@.cells == loaded_cells(symbols@, offset as int, alphabet@)
                &&& spans(tape@.cells, tape@.min_head, tape@.max_head)
            },
    {
        let text = chars_of(symbols);
        let letters = chars_of(alphabet);
        let mut cells: HashMap<i32, char> = HashMap::new();
        let mut lo: i32 = 0;
        let mut hi: i32 = 0;
        let mut any = false;
        let mut i: usize = 0;
        while i < text.len()
            invariant
                text@ == symbols@,
                letters@ == alphabet@,
                i <= text@.len(),
                forall|j: int| is_loaded(text@, letters@, j) && j < i ==> offset + j <= i32::MAX,
                forall|p: i32| #[trigger]
                    cells@.contains_key(p) <==> is_loaded(text@, letters@, p - offset) && p - offset
                        < i,
                forall|p: i32| #[trigger] cells@.contains_key(p) ==> cells@[p] == text@[p - offset],
                !any ==> forall|p: i32| !cells@.contains_key(p),
                any ==> cells@.contains_key(lo) && cells@.contains_key(hi),
                any ==> forall|p: i32| #[trigger] cells@.contains_key(p) ==> lo <= p <= hi,
                !any ==> lo == 0 && hi == 0,
                lo <= hi,
            decreases text@.len() - i,
        {
            let symbol = text[i];
            if contains_char(&letters, symbol) {
                let position: i128 = offset as i128 + i as i128;
                if position > i32::MAX as i128 {
                    assert(is_loaded(symbols@, alphabet@, i as int));
                    return None;
                }
                let position: i32 = position as i32;
                cells.insert(position, symbol);
                if !any {
                    lo = position;
                }
                hi = position;
                any = true;
            }
            i += 1;
        }
        let tape = Tape { cells, span: Span::new(lo, hi) };
        proof {
            let want = loaded_cells(symbols@, offset as int, alphabet@);
            assert forall|p: int| tape@.cells.contains_key(p) <==> want.contains_key(p) by {
                if want.contains_key(p) {
                    assert(is_loaded(symbols@, alphabet@, p - offset));
                    assert(cells@.contains_key(p as i32));
                }
            }
            assert(tape@.cells =~= want);
            if any {
                assert(tape@.cells.contains_key(lo as int));
            }
        }
        Some(tape)
    }

    /// The symbol at `position`, or `None` on a blank cell.
    pub fn read(&self, position: i32) -> (r: Option<&char>)
        ensures
            symbol_of(r) == self@.read(position as int),
    {
        self.cells.get(&position)
    }

    /// Puts `symbol` into the cell at `position`.
    pub fn write(&mut self, position: i32, symbol: char)
        ensures
            final(self)@ == old(self)@.write(position as int, symbol),
    {
        self.cells.insert(position, symbol);
        assert(self@.cells =~= old(self)@.cells.insert(position as int, symbol));
    }

    /// Makes the cell at `position` blank.
    pub fn erase(&mut self, position: i32)
        ensures
            final(self)@ == old(self)@.erase(position as int),
    {
        self.cells.remove(&position);
        assert(self@.cells =~= old(self)@.cells.remove(position as int));
    }

    /// Every written cell stands on a position that a tape can address.
    pub proof fn lemma_cells_in_range(&self)
        ensures
            forall|p: int| self@.cells.contains_key(p) ==> i32::MIN <= p <= i32::MAX,
    {
    }

    /// The least and the greatest position of the displayed range.
    pub fn bounds(&self) -> (r: (i32, i32))
        ensures
            r.0 == self@.min_head,
            r.1 == self@.max_head,
            r.0 <= r.1,
    {
        self.span.ends()
    }

    /// Widens the displayed range so that it covers `position`.
    pub fn visit(&mut self, position: i32)
        ensures
            final(self)@ == old(self)@.visit(position as int),
    {
        self.span.cover(position);
    }
}

} // verus!
