//! Grapheme-cluster-aware text shaping: segmentation of raw field text into
//! clusters, and cutting or padding a line of clusters to an exact width.

use unicode_segmentation::UnicodeSegmentation;
use vstd::prelude::*;
use vstd::string::StringExecFns;

verus! {

/// The grapheme clusters of a string, in order, as `unicode_segmentation`'s
/// extended cluster segmentation produces them. The segmentation depends on
/// the characters alone, so the result is a function of the string.
pub uninterp spec fn graphemes_of(s: Seq<char>) -> Seq<Seq<char>>;

/// Relies on `unicode_segmentation::UnicodeSegmentation::graphemes` with
/// `is_extended = true`: it yields the extended grapheme clusters of the
/// string in order, and an empty string has no clusters.
#[verifier::external_body]
pub(crate) fn grapheme_clusters(s: &str) -> (r: Vec<String>)
    ensures
        r.deep_view() == graphemes_of(s@),
        s@.len() == 0 <==> r@.len() == 0,
{
    s.graphemes(true).map(|g| g.to_owned()).collect()
}

/// The single cluster that marks a line cut short on the right.
pub open spec fn ellipsis_seq() -> Seq<char> {
    seq!['…']
}

/// The single cluster that marks a cell with more lines than fit its height.
pub open spec fn page_seq() -> Seq<char> {
    seq!['⤶']
}

/// The horizontal overflow marker as a slot value.
pub fn elipsis() -> (r: &'static str)
    ensures
        r@ == ellipsis_seq(),
{
    proof {
        reveal_strlit("…");
    }
    let r = "…";
    proof {
        assert(r@ =~~= ellipsis_seq());
    }
    r
}

/// The vertical overflow marker as a slot value.
pub fn page() -> (r: &'static str)
    ensures
        r@ == page_seq(),
{
    proof {
        reveal_strlit("⤶");
    }
    let r = "⤶";
    proof {
        assert(r@ =~~= page_seq());
    }
    r
}

/// `width` copies of the pad token: one fully padded line.
pub open spec fn pad_row(width: int, pad: Seq<char>) -> Seq<Seq<char>> {
    Seq::new(if width >= 0 { width as nat } else { 0 }, |i: int| pad)
}

/// What cutting or padding a line of grapheme clusters to `width` slots
/// yields: an empty result for width zero; for an overlong line, its first
/// `width - 1` clusters followed by one overflow marker; otherwise the line
/// followed by pad tokens up to `width`.
pub open spec fn formatted_line(gs: Seq<Seq<char>>, width: int, pad: Seq<char>) -> Seq<Seq<char>> {
    if width <= 0 {
        Seq::empty()
    } else if gs.len() > width {
        gs.take(width - 1).push(ellipsis_seq())
    } else {
        gs + pad_row(width - gs.len(), pad)
    }
}

/// What cutting or padding a whole cell (a sequence of lines, each a sequence
/// of grapheme clusters) to `width` by `height` yields. Every line is cut or
/// padded to `width`; a cell with more lines than `height` keeps its first
/// `height` lines, with the last slot of the last kept line replaced by the
/// page overflow marker; a shorter cell is extended with fully padded lines.
pub open spec fn formatted_cell(
    lines: Seq<Seq<Seq<char>>>,
    width: int,
    height: int,
    pad: Seq<char>,
) -> Seq<Seq<Seq<char>>> {
    if width <= 0 || height <= 0 {
        Seq::empty()
    } else if lines.len() > height {
        let f = lines.take(height).map_values(|l: Seq<Seq<char>>| formatted_line(l, width, pad));
        f.update(height - 1, f[height - 1].take(width - 1).push(page_seq()))
    } else {
        lines.map_values(|l: Seq<Seq<char>>| formatted_line(l, width, pad)) + Seq::new(
            (height - lines.len()) as nat,
            |i: int| pad_row(width, pad),
        )
    }
}

/// A grapheme cluster that ends a logical line: a bare line feed, a bare
/// carriage return, or the single CRLF cluster.
pub open spec fn is_line_break(g: Seq<char>) -> bool {
    g == seq!['\n'] || g == seq!['\r'] || g == seq!['\r', '\n']
}

/// The logical lines of a sequence of grapheme clusters: line-break clusters
/// separate lines and are dropped; the result always holds at least one
/// (possibly empty) line.
pub open spec fn split_lines(gs: Seq<Seq<char>>) -> Seq<Seq<Seq<char>>>
    decreases gs.len(),
{
    if gs.len() == 0 {
        seq![Seq::<Seq<char>>::empty()]
    } else {
        let prefix = split_lines(gs.drop_last());
        if is_line_break(gs.last()) {
            prefix.push(Seq::empty())
        } else {
            prefix.update(prefix.len() - 1, prefix.last().push(gs.last()))
        }
    }
}

/// Splitting always yields at least one line.
pub proof fn lemma_split_lines_nonempty(gs: Seq<Seq<char>>)
    ensures
        split_lines(gs).len() >= 1,
    decreases gs.len(),
{
    if gs.len() > 0 {
        lemma_split_lines_nonempty(gs.drop_last());
    }
}

/// Clones of the first `n` slots of a line.
fn cloned_prefix(line: &Vec<String>, n: usize) -> (r: Vec<String>)
    requires
        n <= line@.len(),
    ensures
        r.deep_view() == line.deep_view().take(n as int),
{
    let mut r: Vec<String> = Vec::new();
    let mut i: usize = 0;
    while i < n
        invariant
            i <= n <= line@.len(),
            r.deep_view() =~~= line.deep_view().take(i as int),
        decreases n - i,
    {
        let ghost prev = r.deep_view();
        r.push(line[i].clone());
        i = i + 1;
        proof {
            assert(r.deep_view() =~~= prev.push(line@[i - 1].deep_view()));
            assert(prev.push(line@[i - 1].deep_view()) =~~= line.deep_view().take(i as int));
        }
    }
    proof {
        assert(r.deep_view() =~~= line.deep_view().take(n as int));
    }
    r
}

/// Cut or pad one line of grapheme clusters to exactly `width` slots. An
/// overlong line keeps its first `width - 1` clusters and ends with the
/// overflow marker; a short line is right-padded with `pad_with`. Clusters
/// are kept whole: a slot is always a whole cluster, a pad token, or the
/// marker.
pub fn cut_or_pad_line(line: &Vec<String>, width: usize, pad_with: &str) -> (r: Vec<String>)
    ensures
        r.deep_view() == formatted_line(line.deep_view(), width as int, pad_with@),
{
    if width == 0 {
        let r: Vec<String> = Vec::new();
        proof {
            assert(r.deep_view() =~~= formatted_line(line.deep_view(), width as int, pad_with@));
        }
        return r;
    }
    if line.len() > width {
        let mut r = cloned_prefix(line, width - 1);
        r.push(String::from_str(elipsis()));
        proof {
            assert(r.deep_view() =~~= formatted_line(line.deep_view(), width as int, pad_with@));
        }
        r
    } else {
        let mut r = cloned_prefix(line, line.len());
        proof {
            assert(r.deep_view().len() == r@.len());
            assert(r@.len() == line@.len());
        }
        while r.len() < width
            invariant
                line@.len() <= r@.len() <= width,
                r.deep_view() =~~= line.deep_view() + pad_row(
                    r@.len() - line@.len(),
                    pad_with@,
                ),
            decreases width - r@.len(),
        {
            let ghost prev = r.deep_view();
            r.push(pad_with.to_owned());
            proof {
                assert(r.deep_view() =~~= prev.push(pad_with@));
                assert(prev.push(pad_with@) =~~= line.deep_view() + pad_row(
                    r@.len() - line@.len(),
                    pad_with@,
                ));
            }
        }
        proof {
            assert(r.deep_view() =~~= formatted_line(line.deep_view(), width as int, pad_with@));
        }
        r
    }
}

/// One fully padded line of `width` slots.
fn padded_row(width: usize, pad_with: &str) -> (r: Vec<String>)
    ensures
        r.deep_view() == pad_row(width as int, pad_with@),
{
    let mut r: Vec<String> = Vec::new();
    while r.len() < width
        invariant
            r@.len() <= width,
            r.deep_view() =~~= pad_row(r@.len() as int, pad_with@),
        decreases width - r@.len(),
    {
        let ghost prev = r.deep_view();
        r.push(pad_with.to_owned());
        proof {
            assert(r.deep_view() =~~= prev.push(pad_with@));
            assert(prev.push(pad_with@) =~~= pad_row(r@.len() as int, pad_with@));
        }
    }
    proof {
        assert(r.deep_view() =~~= pad_row(width as int, pad_with@));
    }
    r
}

/// Cut or pad a cell's lines to exactly `height` lines of exactly `width`
/// slots each. The last kept line of an overlong cell ends with the page
/// overflow marker in place of its last slot; missing lines are fully padded.
pub fn cut_or_pad_cell(lines: &Vec<Vec<String>>, width: usize, height: usize, pad_with: &str) -> (r:
    Vec<Vec<String>>)
    ensures
        r.deep_view() == formatted_cell(lines.deep_view(), width as int, height as int, pad_with@),
{
    let ghost goal = formatted_cell(lines.deep_view(), width as int, height as int, pad_with@);
    if width == 0 || height == 0 {
        let r: Vec<Vec<String>> = Vec::new();
        proof {
            assert(r.deep_view() =~~= goal);
        }
        return r;
    }
    let shown: usize = if lines.len() < height {
        lines.len()
    } else {
        height
    };
    let mut r: Vec<Vec<String>> = Vec::new();
    let mut i: usize = 0;
    while i < shown
        invariant
            i <= shown <= lines@.len() || i <= shown <= height,
            shown <= lines@.len(),
            width >= 1,
            r@.len() == i,
            r.deep_view() =~~= lines.deep_view().take(i as int).map_values(
                |l: Seq<Seq<char>>| formatted_line(l, width as int, pad_with@),
            ),
        decreases shown - i,
    {
        let ghost prev = r.deep_view();
        let row = cut_or_pad_line(&lines[i], width, pad_with);
        r.push(row);
        i = i + 1;
        proof {
            assert(lines.deep_view()[i - 1] == lines@[i - 1].deep_view());
            assert(r.deep_view() =~~= prev.push(
                formatted_line(lines.deep_view()[i - 1], width as int, pad_with@),
            ));
            assert(r.deep_view() =~~= lines.deep_view().take(i as int).map_values(
                |l: Seq<Seq<char>>| formatted_line(l, width as int, pad_with@),
            ));
        }
    }
    if lines.len() > height {
        // Replace the last slot of the last kept line with the page marker.
        let last = r.pop().unwrap();
        proof {
            lemma_formatted_line_len(lines.deep_view()[height - 1], width as int, pad_with@);
            assert(last.deep_view().len() == last@.len());
        }
        let mut marked = cloned_prefix(&last, width - 1);
        marked.push(String::from_str(page()));
        let ghost before_mark = r.deep_view();
        r.push(marked);
        proof {
            assert(r.deep_view() =~~= before_mark.push(marked.deep_view()));
            assert(r.deep_view() =~~= goal);
        }
    } else {
        while r.len() < height
            invariant
                lines@.len() <= r@.len() <= height,
                width >= 1,
                r.deep_view() =~~= lines.deep_view().map_values(
                    |l: Seq<Seq<char>>| formatted_line(l, width as int, pad_with@),
                ) + Seq::new((r@.len() - lines@.len()) as nat, |i: int| pad_row(width as int, pad_with@)),
            decreases height - r@.len(),
        {
            let ghost prev = r.deep_view();
            let filler = padded_row(width, pad_with);
            r.push(filler);
            proof {
                assert(r.deep_view() =~~= prev.push(pad_row(width as int, pad_with@)));
                assert(r.deep_view() =~~= lines.deep_view().map_values(
                    |l: Seq<Seq<char>>| formatted_line(l, width as int, pad_with@),
                ) + Seq::new(
                    (r@.len() - lines@.len()) as nat,
                    |i: int| pad_row(width as int, pad_with@),
                ));
            }
        }
        proof {
            assert(r.deep_view() =~~= goal);
        }
    }
    r
}

/// Whether one exec grapheme cluster is a logical line break.
fn is_break(g: &String) -> (r: bool)
    ensures
        r == is_line_break(g@),
{
    let s = g.as_str();
    let n = s.unicode_len();
    if n == 1 {
        let c = s.get_char(0);
        proof {
            if c == '\n' {
                assert(g@ =~= seq!['\n']);
            }
            if c == '\r' {
                assert(g@ =~= seq!['\r']);
            }
        }
        c == '\n' || c == '\r'
    } else if n == 2 {
        let c0 = s.get_char(0);
        let c1 = s.get_char(1);
        proof {
            if c0 == '\r' && c1 == '\n' {
                assert(g@ =~= seq!['\r', '\n']);
            }
        }
        c0 == '\r' && c1 == '\n'
    } else {
        false
    }
}

/// Split a sequence of grapheme clusters into logical lines.
pub(crate) fn split_grapheme_lines(gs: &Vec<String>) -> (r: Vec<Vec<String>>)
    ensures
        r.deep_view() == split_lines(gs.deep_view()),
        r@.len() >= 1,
{
    let mut done: Vec<Vec<String>> = Vec::new();
    let mut current: Vec<String> = Vec::new();
    let mut i: usize = 0;
    while i < gs.len()
        invariant
            i <= gs@.len(),
            done.deep_view().push(current.deep_view()) =~~= split_lines(
                gs.deep_view().take(i as int),
            ),
        decreases gs@.len() - i,
    {
        let ghost done_prev = done.deep_view();
        let ghost current_prev = current.deep_view();
        if is_break(&gs[i]) {
            done.push(current);
            current = Vec::new();
            proof {
                assert(done.deep_view() =~~= done_prev.push(current_prev));
            }
        } else {
            current.push(gs[i].clone());
            proof {
                assert(current.deep_view() =~~= current_prev.push(gs@[i as int]@));
            }
        }
        i = i + 1;
        proof {
            assert(gs.deep_view().take(i as int).drop_last() =~~= gs.deep_view().take(i - 1));
            assert(gs.deep_view().take(i as int).last() == gs@[i - 1]@);
            assert(done.deep_view().push(current.deep_view()) =~~= split_lines(
                gs.deep_view().take(i as int),
            ));
        }
    }
    proof {
        assert(gs.deep_view().take(gs@.len() as int) =~~= gs.deep_view());
    }
    let ghost done_final = done.deep_view();
    let ghost current_final = current.deep_view();
    done.push(current);
    proof {
        assert(done.deep_view() =~~= done_final.push(current_final));
    }
    done
}

/// An ASCII capital letter mapped to its small form; every other character
/// stays itself.
pub open spec fn lower_char(c: char) -> char {
    if 'A' <= c && c <= 'Z' {
        ((c as u8) + 32) as char
    } else {
        c
    }
}

/// A string with its ASCII capitals mapped to small letters.
pub open spec fn lower_seq(s: Seq<char>) -> Seq<char> {
    s.map_values(|c: char| lower_char(c))
}

/// One character, ASCII-lowercased.
fn lower_char_exec(c: char) -> (r: char)
    ensures
        r == lower_char(c),
{
    if 'A' <= c && c <= 'Z' {
        ((c as u8) + 32) as char
    } else {
        c
    }
}

/// Whether two strings read the same after ASCII lowercasing.
pub fn eq_ignore_ascii_case(a: &str, b: &str) -> (r: bool)
    ensures
        r == (lower_seq(a@) == lower_seq(b@)),
{
    let n = a.unicode_len();
    if n != b.unicode_len() {
        proof {
            assert(lower_seq(a@).len() != lower_seq(b@).len());
        }
        return false;
    }
    let mut i: usize = 0;
    while i < n
        invariant
            i <= n,
            n == a@.len(),
            n == b@.len(),
            forall|j: int| 0 <= j < i ==> lower_char(a@[j]) == lower_char(b@[j]),
        decreases n - i,
    {
        let ca = lower_char_exec(a.get_char(i));
        let cb = lower_char_exec(b.get_char(i));
        if ca != cb {
            proof {
                assert(lower_seq(a@)[i as int] != lower_seq(b@)[i as int]);
            }
            return false;
        }
        i = i + 1;
    }
    proof {
        assert(lower_seq(a@) =~= lower_seq(b@));
    }
    true
}

/// All slots run together into one string.
pub open spec fn joined(slots: Seq<Seq<char>>) -> Seq<char>
    decreases slots.len(),
{
    if slots.len() == 0 {
        Seq::empty()
    } else {
        joined(slots.drop_last()) + slots.last()
    }
}

/// Run a line of slots together into one string, in order.
pub fn join_slots(slots: &Vec<String>) -> (r: String)
    ensures
        r@ == joined(slots.deep_view()),
{
    let mut r = String::new();
    let mut i: usize = 0;
    while i < slots.len()
        invariant
            i <= slots@.len(),
            r@ =~~= joined(slots.deep_view().take(i as int)),
        decreases slots@.len() - i,
    {
        r.append(slots[i].as_str());
        i = i + 1;
        proof {
            assert(slots.deep_view().take(i as int).drop_last() =~~= slots.deep_view().take(i - 1));
            assert(slots.deep_view().take(i as int).last() == slots@[i - 1]@);
        }
    }
    proof {
        assert(slots.deep_view().take(slots@.len() as int) =~~= slots.deep_view());
    }
    r
}

/// Text that can be cut or padded to an exact target shape, producing slots
/// of whole grapheme clusters.
pub trait MaleableUnicode: Sized {
    /// The target shape: a width for a single line, width and height for a
    /// whole cell.
    type Dimensions: Copy;

    /// The produced slots.
    type Output: DeepView;

    /// What the shaped output holds, as a function of the receiver's text.
    spec fn formatted(&self, dimensions: Self::Dimensions, pad: Seq<char>) -> <Self::Output as DeepView>::V;

    /// Cut or pad the receiver to exactly `dimensions`, padding with
    /// `pad_with`.
    fn cut_or_pad_to(&self, dimensions: Self::Dimensions, pad_with: &str) -> (r: Self::Output)
        ensures
            r.deep_view() == self.formatted(dimensions, pad_with@),
    ;
}

impl MaleableUnicode for String {
    type Dimensions = usize;

    type Output = Vec<String>;

    open spec fn formatted(&self, width: usize, pad: Seq<char>) -> Seq<Seq<char>> {
        formatted_line(graphemes_of(self@), width as int, pad)
    }

    fn cut_or_pad_to(&self, width: usize, pad_with: &str) -> (r: Vec<String>) {
        let gs = grapheme_clusters(self.as_str());
        cut_or_pad_line(&gs, width, pad_with)
    }
}

/// Cutting or padding to a positive width always yields exactly `width`
/// slots, whatever the line holds.
pub proof fn lemma_formatted_line_len(gs: Seq<Seq<char>>, width: int, pad: Seq<char>)
    requires
        width > 0,
    ensures
        formatted_line(gs, width, pad).len() == width,
{
}

/// A line with more clusters than fit ends with one overflow marker in the
/// last slot, and every slot before it is the corresponding whole cluster of
/// the line: nothing is split across slots, and no slot becomes a marker
/// unless the line itself held that cluster.
pub proof fn lemma_formatted_line_overflow(gs: Seq<Seq<char>>, width: int, pad: Seq<char>)
    requires
        width > 0,
        gs.len() > width,
    ensures
        formatted_line(gs, width, pad).last() == ellipsis_seq(),
        forall|i: int|
            0 <= i < width - 1 ==> #[trigger] formatted_line(gs, width, pad)[i] == gs[i],
        forall|i: int|
            0 <= i < width - 1 ==> (#[trigger] formatted_line(gs, width, pad)[i] == ellipsis_seq()
                <==> gs[i] == ellipsis_seq()),
{
}

/// A line that fits is kept whole and followed by exactly
/// `width - len` pad tokens.
pub proof fn lemma_formatted_line_fits(gs: Seq<Seq<char>>, width: int, pad: Seq<char>)
    requires
        width > 0,
        gs.len() <= width,
    ensures
        formatted_line(gs, width, pad).take(gs.len() as int) == gs,
        forall|i: int|
            gs.len() <= i < width ==> #[trigger] formatted_line(gs, width, pad)[i] == pad,
{
    assert(formatted_line(gs, width, pad).take(gs.len() as int) =~= gs);
}

/// A formatted cell is exactly the target shape: `height` lines of exactly
/// `width` slots each, whatever the cell holds.
pub proof fn lemma_formatted_cell_shape(
    lines: Seq<Seq<Seq<char>>>,
    width: int,
    height: int,
    pad: Seq<char>,
)
    requires
        width > 0,
        height > 0,
    ensures
        formatted_cell(lines, width, height, pad).len() == height,
        forall|i: int|
            0 <= i < height ==> (#[trigger] formatted_cell(lines, width, height, pad)[i]).len()
                == width,
{
    let out = formatted_cell(lines, width, height, pad);
    if lines.len() > height {
        let f = lines.take(height).map_values(|l: Seq<Seq<char>>| formatted_line(l, width, pad));
        assert forall|i: int| 0 <= i < height implies (#[trigger] out[i]).len() == width by {
            lemma_formatted_line_len(lines.take(height)[i], width, pad);
            if i == height - 1 {
                lemma_formatted_line_len(lines.take(height)[height - 1], width, pad);
                assert(f[height - 1].take(width - 1).push(page_seq()).len() == width);
            }
        }
    } else {
        assert forall|i: int| 0 <= i < height implies (#[trigger] out[i]).len() == width by {
            if i < lines.len() {
                lemma_formatted_line_len(lines[i], width, pad);
            } else {
                assert(out[i] == pad_row(width, pad));
            }
        }
    }
}

/// Formatting a line that is already exactly the target width returns it
/// unchanged.
pub proof fn lemma_formatted_line_idempotent(gs: Seq<Seq<char>>, width: int, pad: Seq<char>)
    requires
        width > 0,
        gs.len() == width,
    ensures
        formatted_line(gs, width, pad) == gs,
{
    assert(formatted_line(gs, width, pad) =~= gs);
}

} // verus!
