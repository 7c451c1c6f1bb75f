//! Display colors as plain values: an RGB triple, and the pairing of
//! foreground and background color lists into the per-column color pairs,
//! repeating each list periodically over consecutive columns. Turning a CSS
//! color string into a triple is the binary's business.

use vstd::prelude::*;

verus! {

/// The larger of two values.
pub open spec fn spec_max(a: int, b: int) -> int {
    if a > b {
        a
    } else {
        b
    }
}

/// One color, as the red, green and blue components the terminal is fed.
#[derive(Debug, Clone, Copy, PartialEq, Eq, PartialOrd, Ord, Structural)]
pub struct Rgb {
    pub red: u8,
    pub green: u8,
    pub blue: u8,
}

impl Rgb {
    /// A color from its components.
    pub fn new(red: u8, green: u8, blue: u8) -> (r: Rgb)
        ensures
            r == (Rgb { red, green, blue }),
    {
        Rgb { red, green, blue }
    }

    /// The components, in red, green, blue order.
    pub fn components(&self) -> (r: (u8, u8, u8))
        ensures
            r == (self.red, self.green, self.blue),
    {
        (self.red, self.green, self.blue)
    }
}

/// A named foreground/background pair, ready to be registered.
#[derive(Debug, Clone, PartialEq)]
pub struct RgbPair {
    pub name: String,
    pub fg: Rgb,
    pub bg: Rgb,
}

impl RgbPair {
    /// A pair from its parts.
    pub fn new(name: String, fg: Rgb, bg: Rgb) -> (r: RgbPair)
        ensures
            r.name@ == name@,
            r.fg == fg,
            r.bg == bg,
    {
        RgbPair { name, fg, bg }
    }

    /// Zip two color lists into pairs, one per column, repeating each list
    /// periodically until the longer one is exhausted; `name_generator`
    /// names the pair of each index. Both lists must be empty or neither.
    pub fn bind<F: Fn(usize) -> String>(
        name_generator: F,
        fg_vector: &Vec<Rgb>,
        bg_vector: &Vec<Rgb>,
    ) -> (pairs: Vec<RgbPair>)
        requires
            (fg_vector@.len() == 0) == (bg_vector@.len() == 0),
            forall|i: usize| name_generator.requires((i,)),
        ensures
            pairs@.len() == spec_max(fg_vector@.len() as int, bg_vector@.len() as int),
            forall|i: int|
                0 <= i < pairs@.len() ==> (#[trigger] pairs@[i]).fg == fg_vector@[
                    i % (fg_vector@.len() as int)
                ] && pairs@[i].bg == bg_vector@[i % (bg_vector@.len() as int)],
    {
        let mut pairs: Vec<RgbPair> = Vec::new();
        let bg_length = bg_vector.len();
        let fg_length = fg_vector.len();
        let bound = if fg_length > bg_length {
            fg_length
        } else {
            bg_length
        };
        let mut i: usize = 0;
        while i < bound
            invariant
                i <= bound,
                bound as int == spec_max(fg_vector@.len() as int, bg_vector@.len() as int),
                bound > 0 ==> fg_vector@.len() >= 1 && bg_vector@.len() >= 1,
                fg_length == fg_vector@.len(),
                bg_length == bg_vector@.len(),
                forall|i: usize| name_generator.requires((i,)),
                pairs@.len() == i,
                forall|j: int|
                    0 <= j < pairs@.len() ==> (#[trigger] pairs@[j]).fg == fg_vector@[
                        j % (fg_vector@.len() as int)
                    ] && pairs@[j].bg == bg_vector@[j % (bg_vector@.len() as int)],
            decreases bound - i,
        {
            let bg_color = bg_vector[i % bg_length];
            let fg_color = fg_vector[i % fg_length];
            let pair = RgbPair::new(name_generator(i), fg_color, bg_color);
            pairs.push(pair);
            i = i + 1;
        }
        pairs
    }
}

/// Why a color definition could not be parsed.
#[derive(Debug, Clone, PartialEq, Eq, PartialOrd, Ord)]
pub enum RgbError {
    ParseColorError { string: String, reason: String },
}

} // verus!
