//! The flat report: one line for each fact.
mod array;
mod line;

use vstd::prelude::*;
use crate::error::Error;

pub use array::{flat_indent, flat_lines, flat_text, Array, ArrayView};
pub use line::{line_text, line_views, styled_name, Line, LineView, SEPARATOR};

verus! {

/// What a provider of one fact about the host offers to a report: the name
/// of the fact and its text.
pub trait Fetch {
    /// Whether the fact can be shown. A provider says here what must hold
    /// of its data for its text to be computed.
    spec fn fetchable(&self) -> bool;

    /// The name under which the fact is reported.
    spec fn name_view(&self) -> Seq<char>;

    /// The text of the fact.
    spec fn content_view(&self) -> Seq<char>;

    /// The lines that the fact contributes to a report. Most facts
    /// contribute `single_line`: one line, made of the name and the text.
    spec fn lines_view(&self) -> Seq<LineView>;

    fn name(&self) -> (name: &'static str)
        ensures
            name@ == self.name_view(),
    ;

    fn content(&self) -> (content: String)
        requires
            self.fetchable(),
        ensures
            content@ == self.content_view(),
    ;

    /// The fact as a single line.
    fn as_fetchsection(&self) -> (line: Line)
        requires
            self.fetchable(),
        ensures
            line@ == (LineView { name: self.name_view(), content: self.content_view() }),
    {
        let content = self.content();
        Line::new(self.name(), content.as_str())
    }

    /// The fact as the lines it contributes to a report.
    fn as_fetchlines(&self) -> (lines: Vec<Line>)
        requires
            self.fetchable(),
        ensures
            line_views(lines@) == self.lines_view(),
    ;
}

/// The line of a fact that may not be there: a fact that could not be had
/// gives no line.
pub fn try_line<T: Fetch>(value: Option<T>) -> (line: Result<Line, Error>)
    requires
        value matches Some(v) ==> v.fetchable(),
    ensures
        match value {
            Some(v) => line matches Ok(l) && l@ == (LineView {
                name: v.name_view(),
                content: v.content_view(),
            }),
            None => line == Err::<Line, Error>(Error::IsNone),
        },
{
    match value {
        Some(v) => Ok(v.as_fetchsection()),
        None => Err(Error::IsNone),
    }
}

/// The one line made of a name and a text.
pub open spec fn single_line(name: Seq<char>, content: Seq<char>) -> Seq<LineView> {
    seq![LineView { name, content }]
}

/// The report lines of a fact that contributes the single line `line`.
pub fn one_line(line: Line) -> (lines: Vec<Line>)
    ensures
        line_views(lines@) == single_line(line@.name, line@.content),
{
    let mut lines: Vec<Line> = Vec::new();
    lines.push(line);
    lines
}

} // verus!
