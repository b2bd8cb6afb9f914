//! One line of a report: a name and its text.
use vstd::prelude::*;
use vstd::std_specs::convert::FromSpecImpl;
use crate::ansi::{coloured, push_coloured};
use crate::text::{byte_len, option_view, pad_left, push_padded};

verus! {

/// What stands between a name and its text.
pub const SEPARATOR: &'static str = ": ";

/// A named field whose content is a single text.
pub struct Line {
    pub name: String,
    pub content: String,
}

/// A line as two sequences of characters.
pub struct LineView {
    pub name: Seq<char>,
    pub content: Seq<char>,
}

impl View for Line {
    type V = LineView;

    open spec fn view(&self) -> LineView {
        LineView { name: self.name@, content: self.content@ }
    }
}

/// The views of a sequence of lines, in the same order.
pub open spec fn line_views(lines: Seq<Line>) -> Seq<LineView> {
    Seq::new(lines.len(), |i: int| lines[i]@)
}

/// A name as it is printed: right-aligned in a field of `indent`
/// characters and then, where a colour is given, wrapped in its escape
/// sequences. The alignment never counts the escape sequences.
pub open spec fn styled_name(name: Seq<char>, indent: nat, colour: Option<Seq<char>>) -> Seq<
    char,
> {
    coloured(pad_left(name, indent), colour)
}

/// A line as it is printed: the name, the separator and the content.
pub open spec fn line_text(line: LineView, indent: nat, colour: Option<Seq<char>>) -> Seq<char> {
    styled_name(line.name, indent, colour) + SEPARATOR@ + line.content
}

impl Line {
    /// A line made of copies of `name` and `content`.
    pub fn new(name: &str, content: &str) -> (line: Line)
        ensures
            line@ == (LineView { name: name@, content: content@ }),
    {
        Line { name: name.to_owned(), content: content.to_owned() }
    }

    /// Writes the line to `f`, its name right-aligned to `indent` columns
    /// and shown in `colour` where one is given.
    pub fn fmt(&self, indent: usize, f: &mut String, colour: Option<String>)
        ensures
            final(f)@ == old(f)@ + line_text(self@, indent as nat, option_view(colour)),
    {
        let mut name_text = String::new();
        push_padded(&mut name_text, self.name.as_str(), indent);
        push_coloured(f, name_text.as_str(), &colour);
        f.append(SEPARATOR);
        f.append(self.content.as_str());
    }

    /// The width that the name needs in the column of names.
    pub fn get_indent(&self) -> (indent: usize)
        ensures
            indent == byte_len(self.name@),
    {
        self.name.as_str().as_bytes().len()
    }
}

impl From<(String, String)> for Line {
    /// The line with the name `value.0` and the content `value.1`.
    fn from(value: (String, String)) -> (line: Line) {
        Line { name: value.0, content: value.1 }
    }
}

impl FromSpecImpl<(String, String)> for Line {
    open spec fn obeys_from_spec() -> bool {
        true
    }

    open spec fn from_spec(value: (String, String)) -> Line {
        Line { name: value.0, content: value.1 }
    }
}

} // verus!
