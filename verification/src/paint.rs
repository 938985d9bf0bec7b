//! Text in 24-bit foreground colour, as the `colored` crate writes it.

use colored::Colorize;
use vstd::prelude::*;

use crate::text::decimal;

verus! {

/// A colour as red, green and blue.
pub type Rgb = (u8, u8, u8);

/// The escape character that opens every terminal control sequence.
pub open spec fn escape() -> char {
    '\u{1b}'
}

/// `text` between the sequence that selects the style `code` and the one that
/// resets all styles.
pub open spec fn styled(code: Seq<char>, text: Seq<char>) -> Seq<char> {
    seq![escape(), '['] + code + seq!['m'] + text + seq![escape(), '[', '0', 'm']
}

/// The style code of a 24-bit foreground colour: `38;2;r;g;b`.
pub open spec fn truecolor_code(rgb: Rgb) -> Seq<char> {
    seq!['3', '8', ';', '2', ';'] + decimal(rgb.0 as nat) + seq![';'] + decimal(rgb.1 as nat)
        + seq![';'] + decimal(rgb.2 as nat)
}

/// The style codes of the sixteen named foreground colours: `30` to `37` and
/// `90` to `97`.
pub open spec fn named_code(code: Seq<char>) -> bool {
    &&& code.len() == 2
    &&& (code[0] == '3' || code[0] == '9')
    &&& '0' <= code[1] <= '7'
}

/// What `text` may look like once painted in `rgb`: left as it is where
/// colours are switched off, wrapped in the 24-bit colour where the terminal
/// announces support for it, and wrapped in one of the sixteen named colours
/// otherwise.
pub open spec fn painted(text: Seq<char>, rgb: Rgb, out: Seq<char>) -> bool {
    ||| out == text
    ||| out == styled(truecolor_code(rgb), text)
    ||| (out.len() == text.len() + 9 && named_code(out.subrange(2, 4)) && out == styled(
        out.subrange(2, 4),
        text,
    ))
}

/// The grey of notes and readouts.
pub open spec fn grey() -> Rgb {
    (127, 127, 127)
}

/// The glyph of one filled cell of a progress bar.
pub open spec fn cell_glyph() -> Seq<char> {
    seq!['░']
}

/// `colored::Colorize::truecolor` on a string slice, then the `Display` of the
/// `ColoredString` it gives.
///
/// Not proved. The claim is read off the crate's source: with colours off the
/// text is written as it is; otherwise it is written between `ESC [ code m`
/// and `ESC [ 0 m`, where the code is `38;2;r;g;b` if the terminal announces
/// 24-bit colour and the code of the nearest named colour if not. Which of the
/// three it is depends on the environment and on the crate's override switch,
/// so the contract names none; it takes the switch to stay put while the call
/// runs. Text that holds an escape character is left out, because a reset
/// sequence inside the text would be rewritten.
#[verifier::external_body]
pub(crate) fn truecolor(text: &str, r: u8, g: u8, b: u8) -> (out: String)
    requires
        !text@.contains(escape()),
    ensures
        painted(text@, (r, g, b), out@),
{
    text.truecolor(r, g, b).to_string()
}

/// One filled cell of a progress bar in the colour `rgb`.
pub fn paint_cell(rgb: Rgb) -> (out: String)
    ensures
        painted(cell_glyph(), rgb, out@),
{
    let glyph: &str = "░";
    proof {
        reveal_strlit("░");
        assert(glyph@ =~= cell_glyph());
    }
    truecolor(glyph, rgb.0, rgb.1, rgb.2)
}

} // verus!
