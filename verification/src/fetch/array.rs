//! The flat report collection.
use vstd::prelude::*;
use vstd::std_specs::convert::FromSpecImpl;
use crate::fetch::line::{line_text, line_views, Line, LineView};
use crate::fetch::Fetch;
use crate::text::{byte_len, join_lines, option_view};

verus! {

/// The lines of one report in the order in which they are shown, and the
/// colour, if any, in which their names are shown.
pub struct Array {
    sections: Vec<Line>,
    colour: Option<String>,
}

/// A flat report as sequences of characters.
pub struct ArrayView {
    pub sections: Seq<LineView>,
    pub colour: Option<Seq<char>>,
}

impl View for Array {
    type V = ArrayView;

    closed spec fn view(&self) -> ArrayView {
        ArrayView { sections: line_views(self.sections@), colour: option_view(self.colour) }
    }
}

/// The width of the column of names: the width of the longest name, and 0
/// where there is no line.
pub open spec fn flat_indent(lines: Seq<LineView>) -> nat
    decreases lines.len(),
{
    if lines.len() == 0 {
        0
    } else {
        let rest = flat_indent(lines.drop_last());
        let own = byte_len(lines.last().name);
        if own > rest {
            own
        } else {
            rest
        }
    }
}

/// The printed lines of a report, each name aligned to the common column.
pub open spec fn flat_lines(report: ArrayView) -> Seq<Seq<char>> {
    Seq::new(
        report.sections.len(),
        |i: int| line_text(report.sections[i], flat_indent(report.sections), report.colour),
    )
}

/// The text of a report: its printed lines, separated by newlines.
pub open spec fn flat_text(report: ArrayView) -> Seq<char> {
    join_lines(flat_lines(report))
}

impl Array {
    /// A report without lines and without a colour.
    pub fn new() -> (array: Array)
        ensures
            array@.sections == Seq::<LineView>::empty(),
            array@.colour is None,
    {
        let array = Array { sections: Vec::new(), colour: None };
        array
    }

    /// Sets or removes the colour in which the names are shown.
    pub fn set_colour(&mut self, colour: Option<String>)
        ensures
            final(self)@.sections == old(self)@.sections,
            final(self)@.colour == option_view(colour),
    {
        self.colour = colour;
    }

    /// Adds a line at the end of the report.
    pub fn push(&mut self, value: Line)
        ensures
            final(self)@.sections == old(self)@.sections.push(value@),
            final(self)@.colour == old(self)@.colour,
    {
        self.sections.push(value);
    }

    /// Adds lines at the end of the report, in their order.
    pub fn push_multi(&mut self, values: Vec<Line>)
        ensures
            final(self)@.sections == old(self)@.sections + line_views(values@),
            final(self)@.colour == old(self)@.colour,
    {
        let mut values = values;
        let ghost added = line_views(values@);
        self.sections.append(&mut values);
        assert(self@.sections =~= old(self)@.sections + added);
    }

    /// Adds the lines of a fact at the end of the report.
    pub fn push_obj<T: Fetch>(&mut self, value: &T)
        requires
            value.fetchable(),
        ensures
            final(self)@.sections == old(self)@.sections + value.lines_view(),
            final(self)@.colour == old(self)@.colour,
    {
        self.push_multi(value.as_fetchlines());
    }

    /// Adds the lines of a fact at the end of the report, if the fact is
    /// there; a fact that could not be had leaves the report as it is.
    pub fn push_obj_opt<T: Fetch>(&mut self, value: Option<T>)
        requires
            value matches Some(v) ==> v.fetchable(),
        ensures
            final(self)@.colour == old(self)@.colour,
            final(self)@.sections == match value {
                Some(v) => old(self)@.sections + v.lines_view(),
                None => old(self)@.sections,
            },
    {
        if let Some(v) = value {
            self.push_obj(&v);
        }
    }

    /// The width of the column of names.
    pub fn get_indent(&self) -> (indent: usize)
        ensures
            indent == flat_indent(self@.sections),
    {
        let mut indent: usize = 0;
        let mut i: usize = 0;
        while i < self.sections.len()
            invariant
                i <= self.sections.len(),
                indent == flat_indent(self@.sections.take(i as int)),
            decreases self.sections.len() - i,
        {
            let length = self.sections[i].get_indent();
            assert(self@.sections.take(i + 1).drop_last() =~= self@.sections.take(i as int));
            indent = if length > indent { length } else { indent };
            i = i + 1;
        }
        assert(self@.sections.take(i as int) =~= self@.sections);
        indent
    }

    /// Moves every line of `value` to the end of this report and leaves
    /// `value` without lines.
    pub fn append(&mut self, value: &mut Self)
        ensures
            final(self)@.sections == old(self)@.sections + old(value)@.sections,
            final(self)@.colour == old(self)@.colour,
            final(value)@.sections == Seq::<LineView>::empty(),
            final(value)@.colour == old(value)@.colour,
    {
        self.sections.append(&mut value.sections);
    }

    /// The text of the report: one line for each of its lines, in their
    /// order, separated by newlines, with no newline after the last.
    pub fn render(&self) -> (text: String)
        ensures
            text@ == flat_text(self@),
    {
        let indent = self.get_indent();
        let mut text = String::new();
        let mut i: usize = 0;
        while i < self.sections.len()
            invariant
                i <= self.sections.len(),
                indent == flat_indent(self@.sections),
                text@ == join_lines(flat_lines(self@).take(i as int)),
            decreases self.sections.len() - i,
        {
            if i > 0 {
                text.push('\n');
            }
            self.sections[i].fmt(indent, &mut text, self.colour.clone());
            assert(flat_lines(self@).take(i + 1).drop_last() =~= flat_lines(self@).take(i as int));
            i = i + 1;
        }
        assert(flat_lines(self@).take(i as int) =~= flat_lines(self@));
        text
    }
}

impl Default for Array {
    fn default() -> (array: Array)
        ensures
            array@.sections == Seq::<LineView>::empty(),
            array@.colour is None,
    {
        Array::new()
    }
}

impl From<Vec<Line>> for Array {
    /// The report made of the lines of `value`, without a colour.
    fn from(value: Vec<Line>) -> (array: Array)
        ensures
            array@.sections == line_views(value@),
            array@.colour is None,
    {
        Array { sections: value, colour: None }
    }
}

impl FromSpecImpl<Vec<Line>> for Array {
    open spec fn obeys_from_spec() -> bool {
        true
    }

    closed spec fn from_spec(value: Vec<Line>) -> Array {
        Array { sections: value, colour: None }
    }
}

} // verus!
