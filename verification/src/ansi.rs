//! The escape sequences that colour a terminal's text.
use vstd::prelude::*;

verus! {

/// The escape sequence that ends every colouring.
pub const COLOUR_RESET: &'static str = "\x1b[0m";

/// The character that opens an escape sequence.
pub open spec fn escape() -> char {
    '\x1b'
}

/// The escape sequence that selects the graphic rendition `colour`, a list
/// of numbers separated by semicolons.
pub open spec fn sgr(colour: Seq<char>) -> Seq<char> {
    "\x1b["@ + colour + "m"@
}

/// `text` shown in `colour`, where there is one: the sequence that selects
/// the colour, the text, and the reset. Without a colour the text stands
/// as it is.
pub open spec fn coloured(text: Seq<char>, colour: Option<Seq<char>>) -> Seq<char> {
    match colour {
        Some(c) => sgr(c) + text + COLOUR_RESET@,
        None => text,
    }
}

/// Appends `text` to `f`, wrapped in the escape sequences for `colour`
/// where one is given.
pub fn push_coloured(f: &mut String, text: &str, colour: &Option<String>)
    ensures
        final(f)@ == old(f)@ + coloured(text@, crate::text::option_view(*colour)),
{
    match colour {
        Some(c) => {
            f.append("\x1b[");
            f.append(c.as_str());
            f.append("m");
            f.append(text);
            f.append(COLOUR_RESET);
        },
        None => {
            f.append(text);
        },
    }
}

/// Whether `c` can stand among the parameters of a colour sequence: a
/// digit or a semicolon.
pub open spec fn is_parameter(c: char) -> bool {
    ('0' <= c && c <= '9') || c == ';'
}

/// Whether `colour` is a list of parameters: digits and semicolons only.
pub open spec fn is_parameters(colour: Seq<char>) -> bool {
    forall|i: int| 0 <= i < colour.len() ==> is_parameter(#[trigger] colour[i])
}

/// Whether no escape sequence can start in `text`.
pub open spec fn no_escape(text: Seq<char>) -> bool {
    crate::chars::free_of(text, escape())
}

/// The position of the first character of `s` at or behind `from` that is
/// no parameter, and the length of `s` where only parameters follow.
pub open spec fn parameters_end(s: Seq<char>, from: int) -> int
    decreases s.len() - from,
{
    if from < 0 || from >= s.len() {
        s.len() as int
    } else if is_parameter(s[from]) {
        parameters_end(s, from + 1)
    } else {
        from
    }
}

/// The length of the colour sequence that `s` starts with, and 0 where it
/// starts with none. A colour sequence is the escape character, an opening
/// square bracket, any number of parameters and the letter `m`.
pub open spec fn sequence_len(s: Seq<char>) -> nat {
    if s.len() >= 2 && s[0] == escape() && s[1] == '[' && parameters_end(s, 2) < s.len()
        && s[parameters_end(s, 2)] == 'm' {
        (parameters_end(s, 2) + 1) as nat
    } else {
        0
    }
}

/// `s` without its colour sequences.
pub open spec fn strip_sgr(s: Seq<char>) -> Seq<char>
    decreases s.len(),
{
    if s.len() == 0 {
        s
    } else if 0 < sequence_len(s) <= s.len() {
        strip_sgr(s.skip(sequence_len(s) as int))
    } else {
        seq![s[0]] + strip_sgr(s.skip(1))
    }
}

/// Where the parameters end depends only on the text up to that place.
pub proof fn lemma_parameters_end_unique(s: Seq<char>, from: int, end: int)
    requires
        0 <= from <= end < s.len(),
        forall|i: int| from <= i < end ==> is_parameter(#[trigger] s[i]),
        !is_parameter(s[end]),
    ensures
        parameters_end(s, from) == end,
    decreases end - from,
{
    if from < end {
        lemma_parameters_end_unique(s, from + 1, end);
    }
}

/// A text without the escape character stays as it is when the colour
/// sequences are taken out of what follows it.
pub proof fn lemma_strip_plain_prefix(text: Seq<char>, tail: Seq<char>)
    requires
        no_escape(text),
    ensures
        strip_sgr(text + tail) == text + strip_sgr(tail),
    decreases text.len(),
{
    if text.len() == 0 {
        assert(text + tail =~= tail);
    } else {
        let all = text + tail;
        assert(all.skip(1) =~= text.skip(1) + tail);
        assert forall|i: int| 0 <= i < text.skip(1).len() implies #[trigger] text.skip(1)[i]
            != escape() by {
            assert(text.skip(1)[i] == text[i + 1]);
        }
        lemma_strip_plain_prefix(text.skip(1), tail);
    }
}

/// The sequence that selects a colour is taken out whole.
pub proof fn lemma_strip_sgr_prefix(colour: Seq<char>, tail: Seq<char>)
    requires
        is_parameters(colour),
    ensures
        strip_sgr(sgr(colour) + tail) == strip_sgr(tail),
{
    reveal_strlit("\x1b[");
    reveal_strlit("m");
    let all = sgr(colour) + tail;
    let end = 2 + colour.len();
    assert forall|i: int| 2 <= i < end implies is_parameter(#[trigger] all[i]) by {
        assert(all[i] == colour[i - 2]);
    }
    lemma_parameters_end_unique(all, 2, end as int);
    assert(all.skip((end + 1) as int) =~= tail);
}

/// The reset is taken out whole.
pub proof fn lemma_strip_reset_prefix(tail: Seq<char>)
    ensures
        strip_sgr(COLOUR_RESET@ + tail) == strip_sgr(tail),
{
    reveal_strlit("\x1b[0m");
    reveal_strlit("\x1b[");
    reveal_strlit("m");
    let zero = seq!['0'];
    assert(sgr(zero) =~= COLOUR_RESET@);
    lemma_strip_sgr_prefix(zero, tail);
}

/// A text that is shown in a colour, with its escape sequences taken out,
/// is the text.
pub proof fn lemma_strip_coloured(text: Seq<char>, colour: Option<Seq<char>>, tail: Seq<char>)
    requires
        no_escape(text),
        colour matches Some(c) ==> is_parameters(c),
    ensures
        strip_sgr(coloured(text, colour) + tail) == text + strip_sgr(tail),
{
    match colour {
        Some(c) => {
            assert(coloured(text, colour) + tail =~= sgr(c) + (text + (COLOUR_RESET@ + tail)));
            lemma_strip_sgr_prefix(c, text + (COLOUR_RESET@ + tail));
            lemma_strip_plain_prefix(text, COLOUR_RESET@ + tail);
            lemma_strip_reset_prefix(tail);
        },
        None => {
            lemma_strip_plain_prefix(text, tail);
        },
    }
}

/// Takes the colour sequences out of `text`.
pub fn strip_colours(text: &str) -> (plain: String)
    ensures
        plain@ == strip_sgr(text@),
{
    let chars = crate::chars::to_chars(text);
    let mut plain = String::new();
    let mut at: usize = 0;
    assert(chars@.skip(0) =~= chars@);
    while at < chars.len()
        invariant
            at <= chars.len(),
            plain@ + strip_sgr(chars@.skip(at as int)) == strip_sgr(chars@),
        decreases chars.len() - at,
    {
        let ghost rest = chars@.skip(at as int);
        let mut skipped: usize = 0;
        if chars.len() - at >= 2 && chars[at] == '\x1b' && chars[at + 1] == '[' {
            let mut end: usize = at + 2;
            while end < chars.len() && (('0' <= chars[end] && chars[end] <= '9') || chars[end]
                == ';')
                invariant
                    at + 2 <= end <= chars.len(),
                    rest == chars@.skip(at as int),
                    parameters_end(rest, end - at) == parameters_end(rest, 2),
                decreases chars.len() - end,
            {
                end = end + 1;
            }
            if end < chars.len() && chars[end] == 'm' {
                skipped = end + 1 - at;
            }
        }
        if skipped > 0 {
            at = at + skipped;
            assert(rest.skip(skipped as int) =~= chars@.skip(at as int));
        } else {
            plain.push(chars[at]);
            at = at + 1;
            assert(rest.skip(1) =~= chars@.skip(at as int));
        }
    }
    plain
}

} // verus!
