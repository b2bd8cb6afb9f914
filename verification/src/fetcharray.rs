//! The report collection: the fields of one report, as trees.
use vstd::prelude::*;
use vstd::std_specs::convert::FromSpecImpl;
use crate::fetchsection::{
    lemma_sections_height_bounds, section_indent, section_lines, section_views, sections_height,
    sections_indent, sections_lines, FetchSection, SectionView, NESTED_INDENT,
};
use crate::text::{join_lines, lemma_join_lines_concat, option_view};

verus! {

/// The fields of one report in the order in which they are shown, and the
/// colour, if any, in which their names are shown.
pub struct FetchArray {
    sections: Vec<FetchSection>,
    colour: Option<String>,
}

/// A report as sequences of characters.
pub struct ReportView {
    pub sections: Seq<SectionView>,
    pub colour: Option<Seq<char>>,
}

impl View for FetchArray {
    type V = ReportView;

    closed spec fn view(&self) -> ReportView {
        ReportView { sections: section_views(self.sections@), colour: option_view(self.colour) }
    }
}

/// The width of the first column of names of a report: the largest width
/// that one of its fields asks at the outermost level, and 0 for a report
/// without fields.
pub open spec fn report_indent(report: ReportView) -> nat {
    sections_indent(report.sections, 0)
}

/// The printed lines of a report.
pub open spec fn report_lines(report: ReportView) -> Seq<Seq<char>> {
    sections_lines(report.sections, report_indent(report), report.colour)
}

/// The text of a report: its printed lines, separated by newlines, with no
/// newline after the last.
pub open spec fn report_text(report: ReportView) -> Seq<char> {
    join_lines(report_lines(report))
}

impl FetchArray {
    /// A report without fields and without a colour.
    pub fn new() -> (array: FetchArray)
        ensures
            array@.sections == Seq::<SectionView>::empty(),
            array@.colour is None,
    {
        let array = FetchArray { sections: Vec::new(), colour: None };
        array
    }

    /// Sets or removes the colour in which the names are shown.
    pub fn set_colour(&mut self, colour: Option<String>)
        ensures
            final(self)@.sections == old(self)@.sections,
            final(self)@.colour == option_view(colour),
    {
        self.colour = colour;
    }

    /// Adds a field at the end of the report.
    pub fn push(&mut self, value: FetchSection)
        ensures
            final(self)@.sections == old(self)@.sections.push(value@),
            final(self)@.colour == old(self)@.colour,
    {
        self.sections.push(value);
    }

    /// Adds fields at the end of the report, in their order.
    pub fn push_multi(&mut self, values: Vec<FetchSection>)
        ensures
            final(self)@.sections == old(self)@.sections + section_views(values@),
            final(self)@.colour == old(self)@.colour,
    {
        let mut values = values;
        let ghost added = section_views(values@);
        self.sections.append(&mut values);
        assert(self@.sections =~= old(self)@.sections + added);
    }

    /// The width of the first column of names.
    pub fn get_indent(&self) -> (indent: usize)
        requires
            sections_height(self@.sections) * NESTED_INDENT <= usize::MAX,
        ensures
            indent == report_indent(self@),
    {
        let ghost views = self@.sections;
        let mut indent: usize = 0;
        let mut i: usize = 0;
        while i < self.sections.len()
            invariant
                i <= self.sections.len(),
                views == section_views(self.sections@),
                sections_height(views) * NESTED_INDENT <= usize::MAX,
                indent == sections_indent(views.take(i as int), 0),
            decreases self.sections.len() - i,
        {
            proof {
                lemma_sections_height_bounds(views, i as int);
                assert(views.take(i + 1).drop_last() =~= views.take(i as int));
            }
            let length = self.sections[i].get_indent(0);
            indent = if length > indent { length } else { indent };
            i = i + 1;
        }
        assert(views.take(i as int) =~= views);
        indent
    }

    /// Moves every field of `value` to the end of this report and leaves
    /// `value` without fields.
    pub fn append(&mut self, value: &mut Self)
        ensures
            final(self)@.sections == old(self)@.sections + old(value)@.sections,
            final(self)@.colour == old(self)@.colour,
            final(value)@.sections == Seq::<SectionView>::empty(),
            final(value)@.colour == old(value)@.colour,
    {
        self.sections.append(&mut value.sections);
    }

    /// The text of the report: the lines of its fields in their order,
    /// every name of the outermost level aligned to the column that
    /// `get_indent` gives, separated by newlines, with no newline after the
    /// last line.
    pub fn render(&self) -> (text: String)
        requires
            report_indent(self@) + sections_height(self@.sections) * NESTED_INDENT <= usize::MAX,
        ensures
            text@ == report_text(self@),
    {
        let indent = self.get_indent();
        let ghost views = self@.sections;
        let ghost shown = self@.colour;
        let mut text = String::new();
        let mut printed = false;
        let mut i: usize = 0;
        while i < self.sections.len()
            invariant
                i <= self.sections.len(),
                views == section_views(self.sections@),
                shown == option_view(self.colour),
                indent + sections_height(views) * NESTED_INDENT <= usize::MAX,
                printed == (sections_lines(views.take(i as int), indent as nat, shown).len() > 0),
                text@ == join_lines(sections_lines(views.take(i as int), indent as nat, shown)),
            decreases self.sections.len() - i,
        {
            let ghost done = sections_lines(views.take(i as int), indent as nat, shown);
            let ghost next = section_lines(views[i as int], indent as nat, shown);
            proof {
                lemma_sections_height_bounds(views, i as int);
                assert(views.take(i + 1).drop_last() =~= views.take(i as int));
                lemma_join_lines_concat(done, next);
            }
            if !self.sections[i].is_absent() {
                if printed {
                    text.push('\n');
                }
                self.sections[i].fmt(indent, &mut text, &self.colour);
                printed = true;
            }
            i = i + 1;
        }
        assert(views.take(i as int) =~= views);
        text
    }
}

impl Default for FetchArray {
    fn default() -> (array: FetchArray)
        ensures
            array@.sections == Seq::<SectionView>::empty(),
            array@.colour is None,
    {
        FetchArray::new()
    }
}

impl From<Vec<FetchSection>> for FetchArray {
    /// The report made of the fields of `value`, without a colour.
    fn from(value: Vec<FetchSection>) -> (array: FetchArray)
        ensures
            array@.sections == section_views(value@),
            array@.colour is None,
    {
        FetchArray { sections: value, colour: None }
    }
}

impl FromSpecImpl<Vec<FetchSection>> for FetchArray {
    open spec fn obeys_from_spec() -> bool {
        true
    }

    closed spec fn from_spec(value: Vec<FetchSection>) -> FetchArray {
        FetchArray { sections: value, colour: None }
    }
}

} // verus!
