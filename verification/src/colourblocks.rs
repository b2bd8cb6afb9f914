//! The decorative block of colour swatches printed below a report.
use vstd::prelude::*;
use crate::ansi::COLOUR_RESET;
use crate::text::{append_spaces, decimal, push_decimal, spaces};

verus! {

/// One swatch: three blanks whose foreground and background are both set to
/// entry `i` of the 256-colour palette.
pub open spec fn swatch(i: nat) -> Seq<char> {
    "\x1b[38;5;"@ + decimal(i) + "m\x1b[48;5;"@ + decimal(i) + "m   "@
}

/// The break before a swatch that starts a new line: the colouring is
/// reset, the line ends, and the next one starts at the left margin.
pub open spec fn line_break(indent: nat) -> Seq<char> {
    COLOUR_RESET@ + seq!['\n'] + spaces(indent)
}

/// Whether swatch `i` is the first of a line other than the first line.
pub open spec fn starts_line(i: nat, line_length: nat) -> bool {
    i != 0 && i % line_length == 0
}

/// The first `count` swatches, in lines of `line_length` swatches each.
pub open spec fn swatches(indent: nat, count: nat, line_length: nat) -> Seq<char>
    decreases count,
{
    if count == 0 {
        Seq::empty()
    } else {
        let i = (count - 1) as nat;
        swatches(indent, i, line_length) + (if starts_line(i, line_length) {
            line_break(indent)
        } else {
            Seq::empty()
        }) + swatch(i)
    }
}

/// The whole block: the left margin, the swatches and a final reset.
pub open spec fn colourblocks_text(indent: nat, colours: nat, line_length: nat) -> Seq<char> {
    spaces(indent) + swatches(indent, colours, line_length) + COLOUR_RESET@
}

/// Produces `colours` swatches, numbered from 0, in lines of `line_length`
/// swatches that each start `indent` blanks from the left, with the
/// colouring reset at the end of every line.
pub fn colourblocks(indent: usize, colours: usize, line_length: usize) -> (blocks: String)
    requires
        colours > 0 ==> line_length > 0,
    ensures
        blocks@ == colourblocks_text(indent as nat, colours as nat, line_length as nat),
{
    let mut blocks = String::new();
    append_spaces(&mut blocks, indent);
    let mut i: usize = 0;
    while i < colours
        invariant
            i <= colours,
            colours > 0 ==> line_length > 0,
            blocks@ == spaces(indent as nat) + swatches(indent as nat, i as nat, line_length as nat),
        decreases colours - i,
    {
        let ghost before = blocks@;
        if (i % line_length == 0) && (i != 0) {
            blocks.append(COLOUR_RESET);
            blocks.push('\n');
            append_spaces(&mut blocks, indent);
        }
        blocks.append("\x1b[38;5;");
        push_decimal(&mut blocks, i as u128);
        blocks.append("m\x1b[48;5;");
        push_decimal(&mut blocks, i as u128);
        blocks.append("m   ");
        assert(blocks@ =~= before + (if starts_line(i as nat, line_length as nat) {
            line_break(indent as nat)
        } else {
            Seq::empty()
        }) + swatch(i as nat));
        i = i + 1;
    }
    blocks.append(COLOUR_RESET);
    blocks
}

} // verus!
