//! The progress bar of one interval: how many cells are filled after a given
//! time, the elapsed-time readout, and the line that shows both.

use vstd::prelude::*;
use vstd::string::*;

use crate::paint::{cell_glyph, escape, grey, paint_cell, painted, truecolor, Rgb};
use crate::text::{blanks, lemma_two_places_digits, push_blanks, push_two_places, two_places};

verus! {

/// The number of cells of a progress bar.
pub const LENGTH: u16 = 100;

/// The column at which the readout begins, counted from zero: after the
/// opening bracket, the cells, the closing bracket and one blank.
pub const READOUT_COLUMN: u16 = LENGTH + 3;

/// The cells filled once `elapsed_ms` milliseconds of an interval of
/// `duration_s` seconds have passed: the share of the interval that is over,
/// in hundredths, rounded down, and all of them from the end of the interval
/// on.
pub open spec fn cells_at(elapsed_ms: nat, duration_s: nat) -> nat {
    if elapsed_ms >= duration_s * 1000 {
        LENGTH as nat
    } else {
        (elapsed_ms * (LENGTH as nat)) / (duration_s * 1000)
    }
}

/// Before the end of the interval at least one cell is still empty.
pub proof fn lemma_cells_below_length(elapsed_ms: nat, duration_s: nat)
    requires
        elapsed_ms < duration_s * 1000,
    ensures
        cells_at(elapsed_ms, duration_s) < LENGTH,
{
    let total: nat = duration_s * 1000;
    let x: nat = elapsed_ms * 100;
    assert(x / total < 100) by (nonlinear_arith)
        requires
            0 <= x < total * 100,
            total > 0,
    ;
}

/// For an interval of any duration, the number of filled cells never goes
/// down as time goes on, and it is the whole bar exactly from the end of the
/// interval on.
pub proof fn lemma_cells_monotonic(earlier_ms: nat, later_ms: nat, duration_s: nat)
    requires
        earlier_ms <= later_ms,
    ensures
        cells_at(earlier_ms, duration_s) <= cells_at(later_ms, duration_s) <= LENGTH,
        cells_at(later_ms, duration_s) == LENGTH <==> later_ms >= duration_s * 1000,
{
    let total: nat = duration_s * 1000;
    if later_ms < total {
        lemma_cells_below_length(later_ms, duration_s);
        let x: nat = earlier_ms * 100;
        let y: nat = later_ms * 100;
        assert(x / total <= y / total) by (nonlinear_arith)
            requires
                0 <= x <= y,
                total > 0,
        ;
    } else if earlier_ms < total {
        lemma_cells_below_length(earlier_ms, duration_s);
    }
}

/// The cells filled `elapsed_ms` milliseconds into an interval of
/// `duration_s` seconds.
pub fn filled_cells(elapsed_ms: u64, duration_s: u64) -> (cells: u16)
    ensures
        cells == cells_at(elapsed_ms as nat, duration_s as nat),
        cells <= LENGTH,
        cells == LENGTH <==> elapsed_ms >= duration_s * 1000,
{
    let total: u128 = duration_s as u128 * 1000;
    let elapsed: u128 = elapsed_ms as u128;
    if elapsed >= total {
        LENGTH
    } else {
        proof {
            lemma_cells_below_length(elapsed_ms as nat, duration_s as nat);
        }
        let cells: u128 = elapsed * 100 / total;
        cells as u16
    }
}

/// The readout of `seconds`: minutes and seconds in brackets, each on at
/// least two places, as in `(07:05)`.
pub open spec fn clock_text(seconds: nat) -> Seq<char> {
    seq!['('] + two_places(seconds / 60) + seq![':'] + two_places(seconds % 60) + seq![')']
}

/// A readout holds no escape character.
pub proof fn lemma_clock_text_plain(seconds: nat)
    ensures
        !clock_text(seconds).contains(escape()),
{
    lemma_two_places_digits(seconds / 60);
    lemma_two_places_digits(seconds % 60);
    let minutes = two_places(seconds / 60);
    let rest = two_places(seconds % 60);
    let text = clock_text(seconds);
    assert forall|i: int| 0 <= i < text.len() implies text[i] != escape() by {
        if i == 0 {
        } else if i < 1 + minutes.len() {
            assert(text[i] == minutes[i - 1]);
        } else if i == 1 + minutes.len() {
        } else if i < 2 + minutes.len() + rest.len() {
            assert(text[i] == rest[i - 2 - minutes.len()]);
        } else {
        }
    }
}

/// The readout of a time given in seconds.
pub fn format_time(duration: u64) -> (text: String)
    ensures
        text@ == clock_text(duration as nat),
{
    let minutes: u64 = duration / 60;
    let seconds: u64 = duration % 60;
    let mut text: String = String::new();
    proof {
        reveal_strlit("(");
        reveal_strlit(":");
        reveal_strlit(")");
    }
    text.append("(");
    push_two_places(&mut text, minutes);
    text.append(":");
    push_two_places(&mut text, seconds);
    text.append(")");
    assert(text@ =~= clock_text(duration as nat));
    text
}

/// What one redraw of the bar shows: the filled cells, each already painted,
/// the number of blanks that stand for the empty cells, and the painted
/// readout.
#[derive(Clone, Debug, PartialEq, Eq)]
pub struct Frame {
    pub cells: Vec<String>,
    pub padding: u16,
    pub clock: String,
}

/// The text of each string of `cells`.
pub open spec fn texts(cells: Seq<String>) -> Seq<Seq<char>> {
    cells.map_values(|s: String| s@)
}

impl Frame {
    /// True when the frame shows `colors` as its filled cells and `seconds`
    /// as its readout, in a bar of `LENGTH` cells.
    pub open spec fn shows(self, colors: Seq<Rgb>, seconds: nat) -> bool {
        &&& self.cells@.len() == colors.len()
        &&& forall|i: int|
            0 <= i < colors.len() ==> painted(cell_glyph(), colors[i], #[trigger] self.cells@[i]@)
        &&& self.padding + colors.len() == LENGTH
        &&& painted(clock_text(seconds), grey(), self.clock@)
    }

    /// The line as it is printed: an opening bracket, the filled cells, the
    /// blanks, a closing bracket, one blank and the readout.
    pub open spec fn line_text(self) -> Seq<char> {
        seq!['['] + texts(self.cells@).flatten() + blanks(self.padding as nat) + seq![']', ' ']
            + self.clock@
    }

    /// The line to print.
    pub fn line(&self) -> (out: String)
        ensures
            out@ == self.line_text(),
    {
        let mut out: String = String::new();
        proof {
            reveal_strlit("[");
            reveal_strlit("] ");
        }
        out.append("[");
        let mut i: usize = 0;
        assert(texts(self.cells@).take(0) =~= Seq::<Seq<char>>::empty());
        while i < self.cells.len()
            invariant
                i <= self.cells.len(),
                out@ == seq!['['] + texts(self.cells@).take(i as int).flatten(),
            decreases self.cells.len() - i,
        {
            out.append(self.cells[i].as_str());
            proof {
                let all = texts(self.cells@);
                let piece = self.cells@[i as int]@;
                assert(all.take(i + 1) =~= all.take(i as int).push(piece));
                all.take(i as int).lemma_flatten_push(piece);
                assert(out@ =~= seq!['['] + all.take(i + 1).flatten());
            }
            i = i + 1;
        }
        assert(texts(self.cells@).take(i as int) =~= texts(self.cells@));
        push_blanks(&mut out, self.padding);
        out.append("] ");
        out.append(self.clock.as_str());
        assert(out@ =~= self.line_text());
        out
    }
}

/// The frame that shows `colors` as the filled cells of the bar and `seconds`
/// as the time elapsed.
pub fn render(colors: &Vec<Rgb>, seconds: u64) -> (frame: Frame)
    requires
        colors.len() <= LENGTH,
    ensures
        frame.shows(colors@, seconds as nat),
{
    let mut cells: Vec<String> = Vec::new();
    let mut i: usize = 0;
    while i < colors.len()
        invariant
            i <= colors.len(),
            cells@.len() == i,
            forall|j: int| 0 <= j < i ==> painted(cell_glyph(), colors@[j], #[trigger] cells@[j]@),
        decreases colors.len() - i,
    {
        cells.push(paint_cell(colors[i]));
        i = i + 1;
    }
    let padding: u16 = LENGTH - colors.len() as u16;
    let text: String = format_time(seconds);
    proof {
        lemma_clock_text_plain(seconds as nat);
    }
    let clock: String = truecolor(text.as_str(), 127, 127, 127);
    Frame { cells, padding, clock }
}

} // verus!
