//! The character-sequence model of text, and the small pieces every report
//! line is assembled from: runs of blanks, right-aligned names, decimal
//! numbers and lines joined by newlines.
use vstd::prelude::*;
use vstd::utf8::encode_utf8;

verus! {

/// `String::push` appends one character to the end of the string.
pub assume_specification[ String::push ](s: &mut String, c: char)
    ensures
        final(s)@ == old(s)@.push(c),
;

/// A run of `n` blanks.
pub open spec fn spaces(n: nat) -> Seq<char> {
    Seq::new(n, |i: int| ' ')
}

/// The number of bytes `s` takes once encoded as UTF-8: the length that
/// `str::len` reports, and the measure by which names are aligned.
pub open spec fn byte_len(s: Seq<char>) -> nat {
    encode_utf8(s).len()
}

/// `s` right-aligned in a field of `width` characters. A sequence that is
/// already as wide as the field, or wider, is left as it is.
pub open spec fn pad_left(s: Seq<char>, width: nat) -> Seq<char> {
    if width > s.len() {
        spaces((width - s.len()) as nat) + s
    } else {
        s
    }
}

/// The character that stands for the digit `d`.
pub open spec fn digit_char(d: nat) -> char
    recommends
        d < 10,
{
    (48 + d) as u8 as char
}

/// The decimal notation of `n`, without sign or leading zeros.
pub open spec fn decimal(n: nat) -> Seq<char>
    decreases n,
{
    if n < 10 {
        seq![digit_char(n)]
    } else {
        decimal(n / 10).push(digit_char(n % 10))
    }
}

/// The lines of a text put together, with a newline between each two of
/// them and none after the last.
pub open spec fn join_lines(lines: Seq<Seq<char>>) -> Seq<char>
    decreases lines.len(),
{
    if lines.len() == 0 {
        Seq::empty()
    } else if lines.len() == 1 {
        lines[0]
    } else {
        join_lines(lines.drop_last()) + seq!['\n'] + lines.last()
    }
}

/// The texts `parts` put together, with `separator` between each two of
/// them.
pub open spec fn join_with(parts: Seq<Seq<char>>, separator: Seq<char>) -> Seq<char>
    decreases parts.len(),
{
    if parts.len() == 0 {
        Seq::empty()
    } else if parts.len() == 1 {
        parts[0]
    } else {
        join_with(parts.drop_last(), separator) + separator + parts.last()
    }
}

/// The views of a sequence of strings, in the same order.
pub open spec fn string_views(strings: Seq<String>) -> Seq<Seq<char>> {
    Seq::new(strings.len(), |i: int| strings[i]@)
}

/// The view of an optional string: the view of the string, where there is one.
pub open spec fn option_view(s: Option<String>) -> Option<Seq<char>> {
    match s {
        Some(s) => Some(s@),
        None => None,
    }
}

/// Every character takes at least one byte, so a text has no more
/// characters than bytes.
pub proof fn lemma_byte_len_bounds_chars(s: Seq<char>)
    ensures
        s.len() <= byte_len(s),
    decreases s.len(),
{
    if s.len() > 0 {
        lemma_byte_len_bounds_chars(s.drop_first());
    }
}

/// Joining lines distributes over concatenation: the two joined halves are
/// separated by one newline where both hold a line.
pub proof fn lemma_join_lines_concat(a: Seq<Seq<char>>, b: Seq<Seq<char>>)
    ensures
        join_lines(a + b) == if a.len() == 0 {
            join_lines(b)
        } else if b.len() == 0 {
            join_lines(a)
        } else {
            join_lines(a) + seq!['\n'] + join_lines(b)
        },
    decreases b.len(),
{
    if a.len() == 0 {
        assert(a + b =~= b);
    } else if b.len() == 0 {
        assert(a + b =~= a);
    } else {
        assert((a + b).drop_last() =~= a + b.drop_last());
        lemma_join_lines_concat(a, b.drop_last());
        if b.len() == 1 {
            assert(b.drop_last().len() == 0);
        } else {
            assert(join_lines(a + b) =~= join_lines(a) + seq!['\n'] + join_lines(b));
        }
    }
}

/// Appends `count` blanks to `s`.
pub fn append_spaces(s: &mut String, count: usize)
    ensures
        final(s)@ == old(s)@ + spaces(count as nat),
{
    let mut i: usize = 0;
    while i < count
        invariant
            i <= count,
            s@ == old(s)@ + spaces(i as nat),
        decreases count - i,
    {
        s.push(' ');
        i = i + 1;
    }
}

/// Appends `text` to `f`, right-aligned in a field of `width` characters.
pub fn push_padded(f: &mut String, text: &str, width: usize)
    ensures
        final(f)@ == old(f)@ + pad_left(text@, width as nat),
{
    let len = text.unicode_len();
    if width > len {
        append_spaces(f, width - len);
    }
    f.append(text);
}

/// Appends the decimal notation of `n` to `f`.
pub fn push_decimal(f: &mut String, n: u128)
    ensures
        final(f)@ == old(f)@ + decimal(n as nat),
    decreases n,
{
    if n >= 10 {
        push_decimal(f, n / 10);
    }
    let d: u8 = (n % 10) as u8;
    f.push((48u8 + d) as char);
}

/// The strings `parts` put together, with `separator` between each two
/// of them.
pub fn join_strings(parts: &Vec<String>, separator: &str) -> (joined: String)
    ensures
        joined@ == join_with(string_views(parts@), separator@),
{
    let ghost views = string_views(parts@);
    let mut joined = String::new();
    let mut i: usize = 0;
    while i < parts.len()
        invariant
            i <= parts.len(),
            views == string_views(parts@),
            joined@ == join_with(views.take(i as int), separator@),
        decreases parts.len() - i,
    {
        if i > 0 {
            joined.append(separator);
        }
        joined.append(parts[i].as_str());
        assert(views.take(i + 1).drop_last() =~= views.take(i as int));
        i = i + 1;
    }
    assert(views.take(i as int) =~= views);
    joined
}

} // verus!
