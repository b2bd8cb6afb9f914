//! The report as a tree: a field is a line of text, a group of further
//! fields, or a name without a value.
use vstd::prelude::*;
use vstd::std_specs::convert::FromSpecImpl;
use crate::ansi::push_coloured;
use crate::fetch::{styled_name, Line, SEPARATOR};
use crate::text::{byte_len, join_lines, lemma_join_lines_concat, option_view, push_padded};

verus! {

/// The number of columns by which the fields of a group stand to the
/// right of the group's own name.
pub const NESTED_INDENT: usize = 4;

/// What a field holds.
pub enum FetchType {
    /// A single text, printed on the line of the name.
    Short(String),
    /// Further fields, printed below the name and one level deeper.
    Long(Vec<FetchSection>),
    /// Nothing: the field is known, but has no value, and is not printed.
    Absent,
}

/// A named field of a report.
pub struct FetchSection {
    pub name: String,
    pub content: FetchType,
}

/// A field that holds a text, seen by itself: a line.
pub type FetchLine = Line;

/// The content of a field as sequences of characters.
pub enum ContentView {
    Short(Seq<char>),
    Long(Seq<SectionView>),
    Absent,
}

/// A field as sequences of characters.
pub struct SectionView {
    pub name: Seq<char>,
    pub content: ContentView,
}

/// The views of a sequence of fields, in the same order.
pub open spec fn section_views(sections: Seq<FetchSection>) -> Seq<SectionView>
    decreases sections,
{
    Seq::new(
        sections.len(),
        |i: int|
            if 0 <= i < sections.len() {
                sections[i].view()
            } else {
                arbitrary()
            },
    )
}

impl View for FetchSection {
    type V = SectionView;

    open spec fn view(&self) -> SectionView
        decreases self,
    {
        SectionView {
            name: self.name@,
            content: match self.content {
                FetchType::Short(text) => ContentView::Short(text@),
                FetchType::Long(children) => ContentView::Long(section_views(children@)),
                FetchType::Absent => ContentView::Absent,
            },
        }
    }
}

/// The larger of two numbers.
pub open spec fn max(a: nat, b: nat) -> nat {
    if a >= b {
        a
    } else {
        b
    }
}

/// `a - b`, and 0 where `b` is the larger.
pub open spec fn saturating_sub(a: nat, b: nat) -> nat {
    if a >= b {
        (a - b) as nat
    } else {
        0
    }
}

/// The width that the fields `sections`, which stand at nesting level
/// `level`, ask of the column of names: the largest of their own
/// `section_indent`, and 0 where there is none.
pub open spec fn sections_indent(sections: Seq<SectionView>, level: nat) -> nat
    decreases sections, 0nat,
{
    if sections.len() == 0 {
        0
    } else {
        max(sections_indent(sections.drop_last(), level), section_indent(sections.last(), level))
    }
}

/// The width that a field at nesting level `level` asks of the column of
/// names: the width of its own name or, if that is larger, what the fields
/// of its group ask one level deeper; less the columns by which its level
/// is already moved to the right, and never less than 0.
pub open spec fn section_indent(section: SectionView, level: nat) -> nat
    decreases section, 1nat,
{
    let own = byte_len(section.name);
    let widest = match section.content {
        ContentView::Long(children) => max(own, sections_indent(children, level + 1)),
        _ => own,
    };
    saturating_sub(widest, level * NESTED_INDENT as nat)
}

/// How many levels of groups that hold a field lie below the fields
/// `sections`.
pub open spec fn sections_height(sections: Seq<SectionView>) -> nat
    decreases sections, 0nat,
{
    if sections.len() == 0 {
        0
    } else {
        max(sections_height(sections.drop_last()), section_height(sections.last()))
    }
}

/// How many levels of groups that hold a field lie below a field: 0 for a
/// field that holds no further field.
pub open spec fn section_height(section: SectionView) -> nat
    decreases section, 1nat,
{
    match section.content {
        ContentView::Long(children) => if children.len() == 0 {
            0
        } else {
            1 + sections_height(children)
        },
        _ => 0,
    }
}

/// The printed lines of the fields `sections`, one field after the other.
pub open spec fn sections_lines(
    sections: Seq<SectionView>,
    indent: nat,
    colour: Option<Seq<char>>,
) -> Seq<Seq<char>>
    decreases sections, 0nat,
{
    if sections.len() == 0 {
        Seq::empty()
    } else {
        sections_lines(sections.drop_last(), indent, colour) + section_lines(
            sections.last(),
            indent,
            colour,
        )
    }
}

/// The printed lines of a field whose name is aligned to `indent` columns.
/// A text gives one line. A group gives a header, the name and a colon,
/// and below it the lines of its fields, aligned `NESTED_INDENT` columns
/// further to the right. A field without a value gives no line.
pub open spec fn section_lines(section: SectionView, indent: nat, colour: Option<Seq<char>>) -> Seq<
    Seq<char>,
>
    decreases section, 1nat,
{
    match section.content {
        ContentView::Short(text) => seq![
            styled_name(section.name, indent, colour) + SEPARATOR@ + text,
        ],
        ContentView::Long(children) => seq![styled_name(section.name, indent, colour) + seq![':']]
            + sections_lines(children, indent + NESTED_INDENT as nat, colour),
        ContentView::Absent => Seq::empty(),
    }
}

/// A field is printed unless it has no value.
pub proof fn lemma_printed_unless_absent(
    section: SectionView,
    indent: nat,
    colour: Option<Seq<char>>,
)
    ensures
        section_lines(section, indent, colour).len() == 0 <==> section.content is Absent,
{
}

/// The height of a sequence of fields bounds the height of each.
pub proof fn lemma_sections_height_bounds(sections: Seq<SectionView>, i: int)
    requires
        0 <= i < sections.len(),
    ensures
        section_height(sections[i]) <= sections_height(sections),
    decreases sections.len(),
{
    if i < sections.len() - 1 {
        lemma_sections_height_bounds(sections.drop_last(), i);
    }
}

impl FetchSection {
    /// A field that holds the text `content`.
    pub fn new_short(name: &str, content: &str) -> (section: FetchSection)
        ensures
            section@ == (SectionView { name: name@, content: ContentView::Short(content@) }),
    {
        FetchSection { name: name.to_owned(), content: FetchType::Short(content.to_owned()) }
    }

    /// A field that holds the fields `children`, in their order.
    pub fn new_long(name: &str, children: Vec<FetchSection>) -> (section: FetchSection)
        ensures
            section@ == (SectionView {
                name: name@,
                content: ContentView::Long(section_views(children@)),
            }),
    {
        FetchSection { name: name.to_owned(), content: FetchType::Long(children) }
    }

    /// A field that is known by name and has no value.
    pub fn new_absent(name: &str) -> (section: FetchSection)
        ensures
            section@ == (SectionView { name: name@, content: ContentView::Absent }),
    {
        FetchSection { name: name.to_owned(), content: FetchType::Absent }
    }

    /// Whether the field has no value, and so is not printed.
    pub fn is_absent(&self) -> (absent: bool)
        ensures
            absent == (self@.content is Absent),
    {
        match &self.content {
            FetchType::Absent => true,
            _ => false,
        }
    }

    /// The width that the field, standing at nesting level `level`, asks of
    /// the column of names.
    pub fn get_indent(&self, level: usize) -> (indent: usize)
        requires
            (level + section_height(self@)) * NESTED_INDENT <= usize::MAX,
        ensures
            indent == section_indent(self@, level as nat),
        decreases self,
    {
        let mut widest = self.name.as_str().as_bytes().len();
        if let FetchType::Long(children) = &self.content {
            let ghost views = section_views(children@);
            let mut i: usize = 0;
            while i < children.len()
                invariant
                    i <= children.len(),
                    views == section_views(children@),
                    self.content == FetchType::Long(*children),
                    self@.content == ContentView::Long(views),
                    (level + section_height(self@)) * NESTED_INDENT <= usize::MAX,
                    widest == max(
                        byte_len(self.name@),
                        sections_indent(views.take(i as int), level as nat + 1),
                    ),
                decreases children.len() - i,
            {
                proof {
                    lemma_sections_height_bounds(views, i as int);
                    assert(views.take(i + 1).drop_last() =~= views.take(i as int));
                    vstd::std_specs::vec::axiom_vec_index_decreases(*children, i as int);
                }
                let asked = children[i].get_indent(level + 1);
                if asked > widest {
                    widest = asked;
                }
                i = i + 1;
            }
            assert(views.take(i as int) =~= views);
        }
        widest.saturating_sub(level * NESTED_INDENT)
    }

    /// Writes the lines of the field to `f`, separated by newlines, the
    /// name aligned to `indent` columns and shown in `colour` where one is
    /// given. A field without a value writes nothing.
    pub fn fmt(&self, indent: usize, f: &mut String, colour: &Option<String>)
        requires
            indent + section_height(self@) * NESTED_INDENT <= usize::MAX,
        ensures
            final(f)@ == old(f)@ + join_lines(
                section_lines(self@, indent as nat, option_view(*colour)),
            ),
        decreases self,
    {
        let ghost shown = option_view(*colour);
        match &self.content {
            FetchType::Short(text) => {
                self.write_name(indent, f, colour);
                f.append(SEPARATOR);
                f.append(text.as_str());
            },
            FetchType::Long(children) => {
                self.write_name(indent, f, colour);
                f.push(':');
                let ghost views = section_views(children@);
                let ghost header = seq![styled_name(self.name@, indent as nat, shown) + seq![':']];
                let ghost below = indent as nat + NESTED_INDENT as nat;
                let mut i: usize = 0;
                while i < children.len()
                    invariant
                        i <= children.len(),
                        views == section_views(children@),
                        self.content == FetchType::Long(*children),
                        self@.content == ContentView::Long(views),
                        shown == option_view(*colour),
                        below == indent as nat + NESTED_INDENT as nat,
                        header.len() == 1,
                        indent + section_height(self@) * NESTED_INDENT <= usize::MAX,
                        f@ == old(f)@ + join_lines(
                            header + sections_lines(views.take(i as int), below, shown),
                        ),
                    decreases children.len() - i,
                {
                    let ghost done = header + sections_lines(views.take(i as int), below, shown);
                    let ghost next = section_lines(views[i as int], below, shown);
                    proof {
                        lemma_sections_height_bounds(views, i as int);
                        vstd::std_specs::vec::axiom_vec_index_decreases(*children, i as int);
                        assert(views.take(i + 1).drop_last() =~= views.take(i as int));
                        assert(header + sections_lines(views.take(i + 1), below, shown) =~= done
                            + next);
                        lemma_join_lines_concat(done, next);
                    }
                    if !children[i].is_absent() {
                        f.push('\n');
                        children[i].fmt(indent + NESTED_INDENT, f, colour);
                    }
                    i = i + 1;
                }
                assert(views.take(i as int) =~= views);
            },
            FetchType::Absent => {
                assert(f@ =~= old(f)@ + join_lines(section_lines(self@, indent as nat, shown)));
            },
        }
    }

    /// Writes the name, aligned and coloured, to `f`.
    fn write_name(&self, indent: usize, f: &mut String, colour: &Option<String>)
        ensures
            final(f)@ == old(f)@ + styled_name(self.name@, indent as nat, option_view(*colour)),
    {
        let mut name_text = String::new();
        push_padded(&mut name_text, self.name.as_str(), indent);
        push_coloured(f, name_text.as_str(), colour);
    }
}

impl From<(String, String)> for FetchSection {
    /// The field that holds the text `value.1` under the name `value.0`.
    fn from(value: (String, String)) -> (section: FetchSection) {
        FetchSection { name: value.0, content: FetchType::Short(value.1) }
    }
}

impl FromSpecImpl<(String, String)> for FetchSection {
    open spec fn obeys_from_spec() -> bool {
        true
    }

    open spec fn from_spec(value: (String, String)) -> FetchSection {
        FetchSection { name: value.0, content: FetchType::Short(value.1) }
    }
}

impl From<Line> for FetchSection {
    /// The field that holds the text of `line` under the name of `line`.
    fn from(line: Line) -> (section: FetchSection) {
        FetchSection { name: line.name, content: FetchType::Short(line.content) }
    }
}

impl FromSpecImpl<Line> for FetchSection {
    open spec fn obeys_from_spec() -> bool {
        true
    }

    open spec fn from_spec(line: Line) -> FetchSection {
        FetchSection { name: line.name, content: FetchType::Short(line.content) }
    }
}

} // verus!
