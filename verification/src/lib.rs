//! A terminal viewer library for delimited (CSV) data: a column store for
//! parsed fields, a grapheme-cluster-aware cell formatter, and a viewport
//! engine that maps rows and columns onto a fixed character grid.

use vstd::prelude::*;

pub mod aesthetics;
pub mod builder;
pub mod cli;
pub mod config;
pub mod csv;
pub mod cursed;
pub mod data;
pub mod display;
pub mod screen;
pub mod unicode;

verus! {

/// The viewer itself. Reading the command line and opening the file belong
/// to the binary; the parsed values come to this library's types.
pub struct HamsterCsv;

} // verus!
