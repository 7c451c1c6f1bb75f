//! Bookkeeping for the terminal's color table: a bounded slot sequence and a
//! registry that binds named foreground/background pairs to fresh slots. The
//! registry only decides which slots a pair gets; handing the slots to the
//! terminal is the caller's business.

use vstd::prelude::*;

verus! {

/// Why a color or window operation failed.
#[derive(Debug, Clone, PartialEq, Eq, PartialOrd, Ord)]
pub enum CursedError {
    SequenceExhausted(u8),
    ColorNotFound(String),
    ColorAlreadyDefined(String),
}

/// The color slots a registered pair was given.
#[derive(Debug, Clone, Copy, PartialEq, Eq, Structural)]
pub struct ColorPair {
    pub fg: u8,
    pub bg: u8,
    pub pair: u8,
}

impl ColorPair {
    /// Bundle already-allocated slots.
    pub fn new(pair: u8, fg: u8, bg: u8) -> (r: ColorPair)
        ensures
            r.pair == pair,
            r.fg == fg,
            r.bg == bg,
    {
        ColorPair { fg, bg, pair }
    }
}

/// A counter that hands out each slot number at most once and reports
/// exhaustion instead of wrapping.
#[derive(Clone, Debug)]
pub struct Sequence {
    cursor: u8,
}

impl Sequence {
    /// The next slot that would be handed out.
    pub closed spec fn cursor_view(&self) -> int {
        self.cursor as int
    }

    /// A fresh sequence, starting at slot zero.
    pub fn new() -> (r: Sequence)
        ensures
            r.cursor_view() == 0,
    {
        Sequence { cursor: 0 }
    }

    /// The next free slot, or `SequenceExhausted` once the last slot value
    /// is reached.
    pub fn next(&mut self) -> (r: Result<u8, CursedError>)
        ensures
            match r {
                Ok(v) => old(self).cursor_view() < 255 && v as int == old(self).cursor_view()
                    && final(self).cursor_view() == old(self).cursor_view() + 1,
                Err(e) => old(self).cursor_view() == 255 && e == CursedError::SequenceExhausted(255)
                    && *final(self) == *old(self),
            },
    {
        if self.cursor < u8::MAX {
            let value = self.cursor;
            self.cursor = self.cursor + 1;
            Ok(value)
        } else {
            Err(CursedError::SequenceExhausted(self.cursor))
        }
    }
}

/// Whether one of the names reads the same as `key`.
fn contains_name(names: &Vec<String>, key: &String) -> (r: bool)
    ensures
        r == names.deep_view().contains(key@),
{
    let mut i: usize = 0;
    while i < names.len()
        invariant
            i <= names@.len(),
            forall|j: int| 0 <= j < i ==> names.deep_view()[j] != key@,
        decreases names@.len() - i,
    {
        if names[i] == *key {
            proof {
                assert(names.deep_view()[i as int] == key@);
            }
            return true;
        }
        i = i + 1;
    }
    proof {
        assert forall|j: int| 0 <= j < names.deep_view().len() implies names.deep_view()[j]
            != key@ by {}
    }
    false
}

/// The named color pairs registered so far, each bound to three fresh slots
/// (foreground color, background color, pair).
pub struct ColorRegistry {
    sequence: Sequence,
    names: Vec<String>,
    pairs: Vec<ColorPair>,
}

impl ColorRegistry {
    /// The next free slot.
    pub closed spec fn cursor_view(&self) -> int {
        self.sequence.cursor_view()
    }

    /// The registered names, in registration order.
    pub closed spec fn names_view(&self) -> Seq<Seq<char>> {
        self.names.deep_view()
    }

    /// The slot bundles, in registration order.
    pub closed spec fn pairs_view(&self) -> Seq<ColorPair> {
        self.pairs@
    }

    /// An empty registry whose slots start at zero.
    pub fn new() -> (r: ColorRegistry)
        ensures
            r.cursor_view() == 0,
            r.names_view() == Seq::<Seq<char>>::empty(),
            r.pairs_view() == Seq::<ColorPair>::empty(),
    {
        ColorRegistry { sequence: Sequence::new(), names: Vec::new(), pairs: Vec::new() }
    }

    /// Register a named pair: it gets the next three slots (foreground,
    /// background, pair). A name can be registered once; when fewer than
    /// three slots are left, the registry reports exhaustion and stays
    /// unchanged.
    pub fn add_colors(&mut self, key: String) -> (r: Result<ColorPair, CursedError>)
        ensures
            match r {
                Ok(p) => {
                    &&& !old(self).names_view().contains(key@)
                    &&& old(self).cursor_view() + 3 <= 255
                    &&& p.fg as int == old(self).cursor_view()
                    &&& p.bg as int == old(self).cursor_view() + 1
                    &&& p.pair as int == old(self).cursor_view() + 2
                    &&& final(self).cursor_view() == old(self).cursor_view() + 3
                    &&& final(self).names_view() == old(self).names_view().push(key@)
                    &&& final(self).pairs_view() == old(self).pairs_view().push(p)
                },
                Err(e) => {
                    &&& *final(self) == *old(self)
                    &&& if old(self).names_view().contains(key@) {
                        e matches CursedError::ColorAlreadyDefined(k) && k@ == key@
                    } else {
                        old(self).cursor_view() + 3 > 255 && e == CursedError::SequenceExhausted(
                            255,
                        )
                    }
                },
            },
    {
        if contains_name(&self.names, &key) {
            return Err(CursedError::ColorAlreadyDefined(key));
        }
        if self.sequence.cursor > 252 {
            return Err(CursedError::SequenceExhausted(255));
        }
        let fg = self.sequence.next().unwrap();
        let bg = self.sequence.next().unwrap();
        let pair = self.sequence.next().unwrap();
        let p = ColorPair { fg, bg, pair };
        let ghost key_view = key@;
        let ghost names_prev = self.names.deep_view();
        self.names.push(key);
        self.pairs.push(p);
        proof {
            assert(self.names.deep_view() =~~= names_prev.push(key_view));
        }
        Ok(p)
    }
}

} // verus!
