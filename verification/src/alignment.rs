//! What holds of every report: how many lines it has, and where the names
//! and the colons of its lines stand.
use vstd::prelude::*;
use crate::ansi::{
    coloured, escape, is_parameters, lemma_strip_coloured, lemma_strip_plain_prefix, no_escape, sgr,
    strip_sgr, COLOUR_RESET,
};
use crate::fetch::{
    flat_indent, flat_lines, flat_text, line_text, styled_name, ArrayView, LineView, SEPARATOR,
};
use crate::fetcharray::{report_indent, report_lines, report_text, ReportView};
use crate::fetchsection::{
    max, saturating_sub, section_height, section_indent, section_lines, sections_height,
    sections_indent, sections_lines, ContentView, SectionView, NESTED_INDENT,
};
use crate::chars::free_of;
use crate::text::{byte_len, join_lines, lemma_byte_len_bounds_chars, pad_left, spaces};

verus! {

/// The number of lines that the fields `sections` are printed on.
pub open spec fn sections_line_count(sections: Seq<SectionView>) -> nat
    decreases sections, 0nat,
{
    if sections.len() == 0 {
        0
    } else {
        sections_line_count(sections.drop_last()) + section_line_count(sections.last())
    }
}

/// The number of lines that a field is printed on: one for a text, none
/// for a field without a value, and for a group one for its header and
/// then those of its fields.
pub open spec fn section_line_count(section: SectionView) -> nat
    decreases section, 1nat,
{
    match section.content {
        ContentView::Short(_) => 1,
        ContentView::Long(children) => 1 + sections_line_count(children),
        ContentView::Absent => 0,
    }
}

/// A field is printed on as many lines as `section_line_count` says,
/// whatever the column and the colour.
pub proof fn lemma_section_line_count(section: SectionView, indent: nat, colour: Option<Seq<char>>)
    ensures
        section_lines(section, indent, colour).len() == section_line_count(section),
    decreases section, 1nat,
{
    match section.content {
        ContentView::Long(children) => {
            lemma_sections_line_count(children, indent + NESTED_INDENT as nat, colour);
        },
        _ => {},
    }
}

/// Fields are printed on as many lines as `sections_line_count` says.
pub proof fn lemma_sections_line_count(
    sections: Seq<SectionView>,
    indent: nat,
    colour: Option<Seq<char>>,
)
    ensures
        sections_lines(sections, indent, colour).len() == sections_line_count(sections),
    decreases sections, 0nat,
{
    if sections.len() > 0 {
        lemma_sections_line_count(sections.drop_last(), indent, colour);
        lemma_section_line_count(sections.last(), indent, colour);
    }
}

/// A report has one line for each field that holds a text, one header for
/// each group and below it the lines of the group's fields, and no line
/// for a field without a value.
pub proof fn lemma_report_line_count(report: ReportView)
    ensures
        report_lines(report).len() == sections_line_count(report.sections),
{
    lemma_sections_line_count(report.sections, report_indent(report), report.colour);
}

/// A flat report has one line for each of its fields, and line `i` is the
/// line of field `i`.
pub proof fn lemma_flat_line_count(report: ArrayView)
    ensures
        flat_lines(report).len() == report.sections.len(),
{
}

/// The lines of fields put one after the other are the lines of the first
/// fields followed by the lines of the others.
pub proof fn lemma_sections_lines_concat(
    a: Seq<SectionView>,
    b: Seq<SectionView>,
    indent: nat,
    colour: Option<Seq<char>>,
)
    ensures
        sections_lines(a + b, indent, colour) == sections_lines(a, indent, colour) + sections_lines(
            b,
            indent,
            colour,
        ),
    decreases b.len(),
{
    if b.len() == 0 {
        assert(a + b =~= a);
    } else {
        assert((a + b).drop_last() =~= a + b.drop_last());
        lemma_sections_lines_concat(a, b.drop_last(), indent, colour);
    }
}

/// The number of characters that the escape sequences of a colour add in
/// front of a name and behind it.
pub open spec fn escapes_before(colour: Option<Seq<char>>) -> nat {
    match colour {
        Some(c) => sgr(c).len(),
        None => 0,
    }
}

/// The number of characters that the reset behind a coloured name takes.
pub open spec fn escapes_after(colour: Option<Seq<char>>) -> nat {
    match colour {
        Some(_) => COLOUR_RESET@.len(),
        None => 0,
    }
}

/// The column of a line in which the colon behind a name stands, counted
/// from 0, where the name is aligned to `indent` columns: behind the name
/// and the escape sequences around it.
pub open spec fn colon_column(indent: nat, colour: Option<Seq<char>>) -> nat {
    escapes_before(colour) + indent + escapes_after(colour)
}

/// A name that is not wider than the column is printed with all of the
/// column's width: blanks, then the name.
pub proof fn lemma_pad_left_width(name: Seq<char>, width: nat)
    requires
        name.len() <= width,
    ensures
        pad_left(name, width).len() == width,
        pad_left(name, width) == spaces((width - name.len()) as nat) + name,
{
    if width == name.len() {
        assert(spaces(0) + name =~= name);
    }
}

/// Where a name fits into its column, the printed name is as wide as the
/// column and the escape sequences around it, whatever the name.
pub proof fn lemma_styled_name_width(name: Seq<char>, indent: nat, colour: Option<Seq<char>>)
    requires
        name.len() <= indent,
    ensures
        styled_name(name, indent, colour).len() == colon_column(indent, colour),
        styled_name(name, indent, colour).subrange(
            escapes_before(colour) as int,
            (escapes_before(colour) + indent) as int,
        ) == pad_left(name, indent),
{
    lemma_pad_left_width(name, indent);
    let padded = pad_left(name, indent);
    match colour {
        Some(c) => {
            assert((sgr(c) + padded + COLOUR_RESET@).subrange(
                sgr(c).len() as int,
                (sgr(c).len() + indent) as int,
            ) =~= padded);
        },
        None => {
            assert(padded.subrange(0, indent as int) =~= padded);
        },
    }
}

/// The column of names of a flat report is wide enough for each name.
pub proof fn lemma_flat_names_fit(lines: Seq<LineView>, i: int)
    requires
        0 <= i < lines.len(),
    ensures
        byte_len(lines[i].name) <= flat_indent(lines),
        lines[i].name.len() <= flat_indent(lines),
    decreases lines.len(),
{
    lemma_byte_len_bounds_chars(lines[i].name);
    if i < lines.len() - 1 {
        lemma_flat_names_fit(lines.drop_last(), i);
    }
}

/// The column of names of a flat report is no wider than its widest name.
pub proof fn lemma_flat_indent_attained(lines: Seq<LineView>)
    requires
        lines.len() > 0,
    ensures
        exists|i: int| 0 <= i < lines.len() && byte_len(#[trigger] lines[i].name) == flat_indent(lines),
    decreases lines.len(),
{
    let rest = lines.drop_last();
    if rest.len() > 0 && flat_indent(rest) >= byte_len(lines.last().name) {
        lemma_flat_indent_attained(rest);
        let i = choose|i: int| 0 <= i < rest.len() && byte_len(#[trigger] rest[i].name) == flat_indent(rest);
    } else {
        assert(rest.len() == 0 ==> flat_indent(rest) == 0);
        assert(byte_len(lines[lines.len() - 1].name) == flat_indent(lines));
    }
}

/// In a flat report the colon stands in the same column of every line:
/// behind a column of names that is as wide as the widest name. In front
/// of the colon stands the name, moved to the right by blanks until it
/// ends at the colon, and behind the colon a blank and the text.
pub proof fn lemma_flat_alignment(report: ArrayView, i: int)
    requires
        0 <= i < report.sections.len(),
    ensures
        ({
            let width = flat_indent(report.sections);
            let line = flat_lines(report)[i];
            let column = colon_column(width, report.colour);
            let before = escapes_before(report.colour);
            &&& column + 2 <= line.len()
            &&& line[column as int] == ':'
            &&& line[(column + 1) as int] == ' '
            &&& line.skip((column + 2) as int) == report.sections[i].content
            &&& line.subrange(before as int, (before + width) as int) == pad_left(
                report.sections[i].name,
                width,
            )
            &&& pad_left(report.sections[i].name, width).len() == width
        }),
{
    let width = flat_indent(report.sections);
    let name = report.sections[i].name;
    let line = flat_lines(report)[i];
    let styled = styled_name(name, width, report.colour);
    lemma_flat_names_fit(report.sections, i);
    lemma_styled_name_width(name, width, report.colour);
    lemma_pad_left_width(name, width);
    reveal_strlit(": ");
    assert(line == styled + SEPARATOR@ + report.sections[i].content);
}

/// The lines of field `k` of `sections` stand in the lines of `sections`
/// behind the lines of the fields before it.
pub proof fn lemma_lines_of_field(
    sections: Seq<SectionView>,
    indent: nat,
    colour: Option<Seq<char>>,
    k: int,
)
    requires
        0 <= k < sections.len(),
    ensures
        sections_line_count(sections.take(k)) + section_line_count(sections[k])
            <= sections_lines(sections, indent, colour).len(),
        sections_lines(sections, indent, colour).subrange(
            sections_line_count(sections.take(k)) as int,
            (sections_line_count(sections.take(k)) + section_line_count(sections[k])) as int,
        ) == section_lines(sections[k], indent, colour),
{
    let before = sections.take(k);
    let from = sections.skip(k);
    let after = sections.skip(k + 1);
    assert(sections =~= before + from);
    assert(from =~= seq![sections[k]] + after);
    let one = seq![sections[k]];
    assert(sections_lines(one.drop_last(), indent, colour) =~= Seq::<Seq<char>>::empty());
    lemma_sections_lines_concat(before, from, indent, colour);
    lemma_sections_lines_concat(seq![sections[k]], after, indent, colour);
    lemma_sections_line_count(before, indent, colour);
    lemma_section_line_count(sections[k], indent, colour);
    let own = section_lines(sections[k], indent, colour);
    let lines = sections_lines(sections, indent, colour);
    assert(lines == sections_lines(before, indent, colour) + (own + sections_lines(
        after,
        indent,
        colour,
    )));
}

/// The first line of a field that is printed carries its name. Where the
/// name fits into the column of names, it ends at the colon, which stands
/// in the column that `colon_column` gives.
pub proof fn lemma_name_line(section: SectionView, indent: nat, colour: Option<Seq<char>>)
    requires
        !(section.content is Absent),
        section.name.len() <= indent,
    ensures
        ({
            let line = section_lines(section, indent, colour)[0];
            let column = colon_column(indent, colour);
            let before = escapes_before(colour);
            &&& section_lines(section, indent, colour).len() > 0
            &&& column < line.len()
            &&& line[column as int] == ':'
            &&& line.subrange(before as int, (before + indent) as int) == pad_left(
                section.name,
                indent,
            )
            &&& pad_left(section.name, indent).len() == indent
        }),
{
    let styled = styled_name(section.name, indent, colour);
    let line = section_lines(section, indent, colour)[0];
    let before = escapes_before(colour);
    lemma_styled_name_width(section.name, indent, colour);
    lemma_pad_left_width(section.name, indent);
    reveal_strlit(": ");
    match section.content {
        ContentView::Short(text) => {
            assert(line == styled + SEPARATOR@ + text);
        },
        ContentView::Long(children) => {
            assert(line == styled + seq![':']);
        },
        ContentView::Absent => {},
    }
    assert(line.subrange(before as int, (before + indent) as int) =~= styled.subrange(
        before as int,
        (before + indent) as int,
    ));
}

/// What field `k` of the fields at nesting level `level` asks of the
/// column of names is granted by what the fields ask together.
pub proof fn lemma_sections_indent_bounds(sections: Seq<SectionView>, level: nat, k: int)
    requires
        0 <= k < sections.len(),
    ensures
        section_indent(sections[k], level) <= sections_indent(sections, level),
    decreases sections.len(),
{
    if k < sections.len() - 1 {
        lemma_sections_indent_bounds(sections.drop_last(), level, k);
    }
}

/// The fields of a group are aligned among themselves: printed below a
/// group whose own name is aligned to `indent` columns, every field whose
/// name fits has its colon in the same column, `NESTED_INDENT` columns to
/// the right of the group's colon, and its name ends at that colon.
pub proof fn lemma_group_alignment(
    group: SectionView,
    indent: nat,
    colour: Option<Seq<char>>,
    k: int,
)
    requires
        group.content is Long,
        0 <= k < group.content->Long_0.len(),
        !(group.content->Long_0[k].content is Absent),
        group.content->Long_0[k].name.len() <= indent + NESTED_INDENT,
    ensures
        ({
            let children = group.content->Long_0;
            let below = indent + NESTED_INDENT as nat;
            let at = 1 + sections_line_count(children.take(k));
            let lines = section_lines(group, indent, colour);
            let column = colon_column(below, colour);
            let before = escapes_before(colour);
            &&& at < lines.len()
            &&& lines[at as int] == section_lines(children[k], below, colour)[0]
            &&& column < lines[at as int].len()
            &&& lines[at as int][column as int] == ':'
            &&& lines[at as int].subrange(before as int, (before + below) as int) == pad_left(
                children[k].name,
                below,
            )
            &&& column == colon_column(indent, colour) + NESTED_INDENT
        }),
{
    let children = group.content->Long_0;
    let below = indent + NESTED_INDENT as nat;
    let header = seq![styled_name(group.name, indent, colour) + seq![':']];
    let inner = sections_lines(children, below, colour);
    let first = sections_line_count(children.take(k));
    lemma_lines_of_field(children, below, colour, k);
    lemma_name_line(children[k], below, colour);
    lemma_section_line_count(children[k], below, colour);
    let own = section_lines(children[k], below, colour);
    assert(inner.subrange(first as int, (first + section_line_count(children[k])) as int)[0]
        == inner[first as int]);
    assert(section_lines(group, indent, colour) == header + inner);
    assert((header + inner)[(1 + first) as int] == inner[first as int]);
}

/// The first column of names of a report is wide enough for the name of
/// each of its fields.
pub proof fn lemma_report_names_fit(report: ReportView, j: int)
    requires
        0 <= j < report.sections.len(),
    ensures
        byte_len(report.sections[j].name) <= report_indent(report),
        report.sections[j].name.len() <= report_indent(report),
{
    lemma_sections_indent_bounds(report.sections, 0, j);
    lemma_byte_len_bounds_chars(report.sections[j].name);
}

/// The column of names of a group at the outermost level of a report is
/// wide enough for the name of each field of the group: the first column
/// of names is as wide as such a name less the columns by which the
/// group's fields are moved to the right.
pub proof fn lemma_report_group_names_fit(report: ReportView, j: int, k: int)
    requires
        0 <= j < report.sections.len(),
        report.sections[j].content is Long,
        0 <= k < report.sections[j].content->Long_0.len(),
    ensures
        byte_len(report.sections[j].content->Long_0[k].name) <= report_indent(report)
            + NESTED_INDENT,
        report.sections[j].content->Long_0[k].name.len() <= report_indent(report) + NESTED_INDENT,
{
    let group = report.sections[j];
    let children = group.content->Long_0;
    lemma_sections_indent_bounds(report.sections, 0, j);
    lemma_sections_indent_bounds(children, 1, k);
    lemma_byte_len_bounds_chars(children[k].name);
}

/// In a report the colon of every field of the outermost level stands in
/// one column, behind a column of names that is `report_indent` wide, and
/// the colon of every field of a group of the outermost level stands
/// `NESTED_INDENT` columns further to the right.
pub proof fn lemma_report_alignment(report: ReportView, j: int)
    requires
        0 <= j < report.sections.len(),
        !(report.sections[j].content is Absent),
    ensures
        ({
            let width = report_indent(report);
            let at = sections_line_count(report.sections.take(j));
            let lines = report_lines(report);
            let column = colon_column(width, report.colour);
            &&& at < lines.len()
            &&& column < lines[at as int].len()
            &&& lines[at as int][column as int] == ':'
            &&& lines[at as int].subrange(
                escapes_before(report.colour) as int,
                (escapes_before(report.colour) + width) as int,
            ) == pad_left(report.sections[j].name, width)
            &&& forall|k: int|
                #![trigger report.sections[j].content->Long_0[k]]
                report.sections[j].content is Long && 0 <= k
                    < report.sections[j].content->Long_0.len()
                    && !(report.sections[j].content->Long_0[k].content is Absent) ==> {
                    let inner = at + 1 + sections_line_count(
                        report.sections[j].content->Long_0.take(k),
                    );
                    &&& inner < lines.len()
                    &&& column + NESTED_INDENT < lines[inner as int].len()
                    &&& lines[inner as int][column + NESTED_INDENT] == ':'
                }
        }),
{
    let width = report_indent(report);
    let section = report.sections[j];
    let at = sections_line_count(report.sections.take(j));
    let lines = report_lines(report);
    let own = section_lines(section, width, report.colour);
    lemma_report_names_fit(report, j);
    lemma_lines_of_field(report.sections, width, report.colour, j);
    lemma_name_line(section, width, report.colour);
    lemma_section_line_count(section, width, report.colour);
    assert(lines.subrange(at as int, (at + section_line_count(section)) as int)[0] == lines[at as int]);
    assert forall|k: int|
        #![trigger section.content->Long_0[k]]
        section.content is Long && 0 <= k < section.content->Long_0.len() && !(
        section.content->Long_0[k].content is Absent) implies {
        let inner = at + 1 + sections_line_count(section.content->Long_0.take(k));
        &&& inner < lines.len()
        &&& colon_column(width, report.colour) + NESTED_INDENT < lines[inner as int].len()
        &&& lines[inner as int][colon_column(width, report.colour) + NESTED_INDENT] == ':'
    } by {
        lemma_report_group_names_fit(report, j, k);
        lemma_group_alignment(section, width, report.colour, k);
        let offset = 1 + sections_line_count(section.content->Long_0.take(k));
        assert(lines.subrange(at as int, (at + section_line_count(section)) as int)[offset as int]
            == lines[(at + offset) as int]);
    }
}

/// Whether `c` stands nowhere in the fields `sections`.
pub open spec fn sections_free_of(sections: Seq<SectionView>, c: char) -> bool
    decreases sections, 0nat,
{
    sections.len() == 0 || (sections_free_of(sections.drop_last(), c) && section_free_of(
        sections.last(),
        c,
    ))
}

/// Whether `c` stands nowhere in a field: not in its name, not in its
/// text, and in none of the fields of its group.
pub open spec fn section_free_of(section: SectionView, c: char) -> bool
    decreases section, 1nat,
{
    &&& free_of(section.name, c)
    &&& match section.content {
        ContentView::Short(text) => free_of(text, c),
        ContentView::Long(children) => sections_free_of(children, c),
        ContentView::Absent => true,
    }
}

/// Whether `c` stands nowhere in the lines `lines`.
pub open spec fn lines_free_of(lines: Seq<LineView>, c: char) -> bool {
    forall|i: int|
        0 <= i < lines.len() ==> free_of((#[trigger] lines[i]).name, c) && free_of(
            lines[i].content,
            c,
        )
}

/// Whether the escape character stands nowhere in the fields `sections`.
pub open spec fn sections_plain(sections: Seq<SectionView>) -> bool {
    sections_free_of(sections, escape())
}

/// Whether the escape character stands nowhere in a field.
pub open spec fn section_plain(section: SectionView) -> bool {
    section_free_of(section, escape())
}

/// Whether the escape character stands nowhere in the lines `lines`.
pub open spec fn lines_plain(lines: Seq<LineView>) -> bool {
    lines_free_of(lines, escape())
}

/// Whether the lines `shown` are the lines `plain` once the colour
/// sequences are taken out, each line by itself and whatever follows it.
pub open spec fn strips_to(shown: Seq<Seq<char>>, plain: Seq<Seq<char>>) -> bool {
    &&& shown.len() == plain.len()
    &&& forall|i: int, tail: Seq<char>|
        0 <= i < shown.len() ==> #[trigger] strip_sgr(shown[i] + tail) == plain[i] + strip_sgr(
            tail,
        )
}

/// Lines that strip to plain lines one by one strip to them when joined.
pub proof fn lemma_strip_joined(shown: Seq<Seq<char>>, plain: Seq<Seq<char>>, tail: Seq<char>)
    requires
        strips_to(shown, plain),
    ensures
        strip_sgr(join_lines(shown) + tail) == join_lines(plain) + strip_sgr(tail),
    decreases shown.len(),
{
    if shown.len() == 0 {
        assert(join_lines(shown) + tail =~= tail);
    } else if shown.len() == 1 {
        assert(strip_sgr(shown[0] + tail) == plain[0] + strip_sgr(tail));
    } else {
        let newline = seq!['\n'];
        let rest = newline + (shown.last() + tail);
        assert forall|i: int, t: Seq<char>| 0 <= i < shown.drop_last().len() implies #[trigger] strip_sgr(
            shown.drop_last()[i] + t,
        ) == plain.drop_last()[i] + strip_sgr(t) by {
            assert(strip_sgr(shown[i] + t) == plain[i] + strip_sgr(t));
        }
        lemma_strip_joined(shown.drop_last(), plain.drop_last(), rest);
        lemma_strip_plain_prefix(newline, shown.last() + tail);
        assert(join_lines(shown) + tail =~= join_lines(shown.drop_last()) + rest);
    }
}

/// A name shown in a colour, and what follows it on its line, is the
/// aligned name and what follows once the colour sequences are taken out.
pub proof fn lemma_strip_name_line(
    name: Seq<char>,
    rest: Seq<char>,
    indent: nat,
    colour: Option<Seq<char>>,
    tail: Seq<char>,
)
    requires
        no_escape(name),
        no_escape(rest),
        colour matches Some(c) ==> is_parameters(c),
    ensures
        strip_sgr(styled_name(name, indent, colour) + rest + tail) == pad_left(name, indent) + rest
            + strip_sgr(tail),
{
    let padded = pad_left(name, indent);
    assert(no_escape(padded)) by {
        assert forall|i: int| 0 <= i < padded.len() implies #[trigger] padded[i]
            != escape() by {
            if indent > name.len() {
                if i >= indent - name.len() {
                    assert(padded[i] == name[i - (indent - name.len())]);
                }
            }
        }
    }
    lemma_strip_coloured(padded, colour, rest + tail);
    lemma_strip_plain_prefix(rest, tail);
    assert(styled_name(name, indent, colour) + rest + tail =~= coloured(padded, colour) + (rest
        + tail));
}

/// Lines that strip to plain lines, followed by more such lines, strip to
/// the plain lines in the same order.
pub proof fn lemma_strips_to_concat(
    a: Seq<Seq<char>>,
    plain_a: Seq<Seq<char>>,
    b: Seq<Seq<char>>,
    plain_b: Seq<Seq<char>>,
)
    requires
        strips_to(a, plain_a),
        strips_to(b, plain_b),
    ensures
        strips_to(a + b, plain_a + plain_b),
{
    assert forall|i: int, tail: Seq<char>| 0 <= i < (a + b).len() implies #[trigger] strip_sgr(
        (a + b)[i] + tail,
    ) == (plain_a + plain_b)[i] + strip_sgr(tail) by {
        if i < a.len() {
            assert(strip_sgr(a[i] + tail) == plain_a[i] + strip_sgr(tail));
        } else {
            assert(strip_sgr(b[i - a.len()] + tail) == plain_b[i - a.len()] + strip_sgr(tail));
        }
    }
}

/// The lines of a field shown in a colour are its lines without a colour
/// once the colour sequences are taken out.
pub proof fn lemma_section_strips(section: SectionView, indent: nat, colour: Option<Seq<char>>)
    requires
        section_plain(section),
        colour matches Some(c) ==> is_parameters(c),
    ensures
        strips_to(section_lines(section, indent, colour), section_lines(section, indent, None)),
    decreases section, 1nat,
{
    let shown = section_lines(section, indent, colour);
    let plain = section_lines(section, indent, None);
    reveal_strlit(": ");
    match section.content {
        ContentView::Short(text) => {
            let rest = SEPARATOR@ + text;
            assert forall|i: int, tail: Seq<char>| 0 <= i < shown.len() implies #[trigger] strip_sgr(
                shown[i] + tail,
            ) == plain[i] + strip_sgr(tail) by {
                lemma_strip_name_line(section.name, rest, indent, colour, tail);
                assert(shown[0] + tail =~= styled_name(section.name, indent, colour) + rest + tail);
            }
        },
        ContentView::Long(children) => {
            let rest = seq![':'];
            let header = seq![styled_name(section.name, indent, colour) + rest];
            let plain_header = seq![styled_name(section.name, indent, None) + rest];
            assert forall|i: int, tail: Seq<char>| 0 <= i < header.len() implies #[trigger] strip_sgr(
                header[i] + tail,
            ) == plain_header[i] + strip_sgr(tail) by {
                lemma_strip_name_line(section.name, rest, indent, colour, tail);
            }
            lemma_sections_strip(children, indent + NESTED_INDENT as nat, colour);
            lemma_strips_to_concat(
                header,
                plain_header,
                sections_lines(children, indent + NESTED_INDENT as nat, colour),
                sections_lines(children, indent + NESTED_INDENT as nat, None),
            );
        },
        ContentView::Absent => {},
    }
}

/// The lines of fields shown in a colour are their lines without a colour
/// once the colour sequences are taken out.
pub proof fn lemma_sections_strip(
    sections: Seq<SectionView>,
    indent: nat,
    colour: Option<Seq<char>>,
)
    requires
        sections_plain(sections),
        colour matches Some(c) ==> is_parameters(c),
    ensures
        strips_to(sections_lines(sections, indent, colour), sections_lines(sections, indent, None)),
    decreases sections, 0nat,
{
    if sections.len() > 0 {
        lemma_sections_strip(sections.drop_last(), indent, colour);
        lemma_section_strips(sections.last(), indent, colour);
        lemma_strips_to_concat(
            sections_lines(sections.drop_last(), indent, colour),
            sections_lines(sections.drop_last(), indent, None),
            section_lines(sections.last(), indent, colour),
            section_lines(sections.last(), indent, None),
        );
    }
}

/// A colour changes nothing but the escape sequences around the names:
/// the text of a report shown in a colour, with its colour sequences taken
/// out, is the text of the same report without a colour. This holds of a
/// report whose names and texts are free of the escape character and
/// whose colour is a list of parameters.
pub proof fn lemma_report_colour(report: ReportView)
    requires
        sections_plain(report.sections),
        report.colour matches Some(c) ==> is_parameters(c),
    ensures
        strip_sgr(report_text(report)) == report_text(
            ReportView { sections: report.sections, colour: None },
        ),
{
    let plain = ReportView { sections: report.sections, colour: None };
    lemma_sections_strip(report.sections, report_indent(report), report.colour);
    lemma_strip_joined(report_lines(report), report_lines(plain), Seq::empty());
}

/// The same of a flat report: shown in a colour and with the colour
/// sequences taken out, its text is its text without a colour.
pub proof fn lemma_flat_colour(report: ArrayView)
    requires
        lines_plain(report.sections),
        report.colour matches Some(c) ==> is_parameters(c),
    ensures
        strip_sgr(flat_text(report)) == flat_text(
            ArrayView { sections: report.sections, colour: None },
        ),
{
    let plain = ArrayView { sections: report.sections, colour: None };
    let shown_lines = flat_lines(report);
    let plain_lines = flat_lines(plain);
    let width = flat_indent(report.sections);
    reveal_strlit(": ");
    assert forall|i: int, tail: Seq<char>| 0 <= i < shown_lines.len() implies #[trigger] strip_sgr(
        shown_lines[i] + tail,
    ) == plain_lines[i] + strip_sgr(tail) by {
        let line = report.sections[i];
        let rest = SEPARATOR@ + line.content;
        lemma_strip_name_line(line.name, rest, width, report.colour, tail);
        assert(shown_lines[i] + tail =~= styled_name(line.name, width, report.colour) + rest + tail);
    }
    lemma_strip_joined(shown_lines, plain_lines, Seq::empty());
}

/// The number of newlines in `text`.
pub open spec fn newlines(text: Seq<char>) -> nat
    decreases text.len(),
{
    if text.len() == 0 {
        0
    } else {
        newlines(text.drop_last()) + if text.last() == '\n' {
            1nat
        } else {
            0
        }
    }
}

/// The newlines of a text are those of its parts.
pub proof fn lemma_newlines_concat(a: Seq<char>, b: Seq<char>)
    ensures
        newlines(a + b) == newlines(a) + newlines(b),
    decreases b.len(),
{
    if b.len() == 0 {
        assert(a + b =~= a);
    } else {
        assert((a + b).drop_last() =~= a + b.drop_last());
        lemma_newlines_concat(a, b.drop_last());
    }
}

/// A text in which no newline stands has no newlines.
pub proof fn lemma_newlines_none(text: Seq<char>)
    requires
        free_of(text, '\n'),
    ensures
        newlines(text) == 0,
    decreases text.len(),
{
    if text.len() > 0 {
        assert forall|i: int| 0 <= i < text.drop_last().len() implies #[trigger] text.drop_last()[i]
            != '\n' by {
            assert(text.drop_last()[i] == text[i]);
        }
        lemma_newlines_none(text.drop_last());
    }
}

/// Whether none of the lines `lines` holds a newline.
pub open spec fn unbroken(lines: Seq<Seq<char>>) -> bool {
    forall|i: int| 0 <= i < lines.len() ==> newlines(#[trigger] lines[i]) == 0
}

/// Lines that hold no newline, joined, hold the newlines between them:
/// one fewer than there are lines.
pub proof fn lemma_joined_newlines(lines: Seq<Seq<char>>)
    requires
        unbroken(lines),
    ensures
        newlines(join_lines(lines)) == if lines.len() == 0 {
            0
        } else {
            lines.len() - 1
        },
    decreases lines.len(),
{
    if lines.len() == 1 {
        assert(newlines(lines[0]) == 0);
    } else if lines.len() > 1 {
        assert forall|i: int| 0 <= i < lines.drop_last().len() implies newlines(
            #[trigger] lines.drop_last()[i],
        ) == 0 by {
            assert(lines.drop_last()[i] == lines[i]);
        }
        lemma_joined_newlines(lines.drop_last());
        let newline = seq!['\n'];
        assert(newlines(newline.drop_last()) == 0);
        lemma_newlines_concat(join_lines(lines.drop_last()), newline);
        lemma_newlines_concat(join_lines(lines.drop_last()) + newline, lines.last());
    }
}

/// The line of a name and what follows it holds no newline, where no
/// newline stands in the name, in what follows, and in the colour.
pub proof fn lemma_name_line_unbroken(
    name: Seq<char>,
    rest: Seq<char>,
    indent: nat,
    colour: Option<Seq<char>>,
)
    requires
        free_of(name, '\n'),
        free_of(rest, '\n'),
        colour matches Some(c) ==> free_of(c, '\n'),
    ensures
        newlines(styled_name(name, indent, colour) + rest) == 0,
{
    let padded = pad_left(name, indent);
    let line = styled_name(name, indent, colour) + rest;
    reveal_strlit("\x1b[");
    reveal_strlit("m");
    reveal_strlit("\x1b[0m");
    assert forall|i: int| 0 <= i < padded.len() implies #[trigger] padded[i] != '\n' by {
        if indent > name.len() {
            if i >= indent - name.len() {
                assert(padded[i] == name[i - (indent - name.len())]);
            }
        }
    }
    assert forall|i: int| 0 <= i < line.len() implies #[trigger] line[i] != '\n' by {
        match colour {
            Some(c) => {
                let start = sgr(c);
                if i < 2 {
                } else if i < 2 + c.len() {
                    assert(line[i] == c[i - 2]);
                } else if i < start.len() {
                } else if i < start.len() + padded.len() {
                    assert(line[i] == padded[i - start.len()]);
                } else if i < start.len() + padded.len() + 4 {
                } else {
                    assert(line[i] == rest[i - start.len() - padded.len() - 4]);
                }
            },
            None => {
                if i < padded.len() {
                    assert(line[i] == padded[i]);
                } else {
                    assert(line[i] == rest[i - padded.len()]);
                }
            },
        }
    }
    lemma_newlines_none(line);
}

/// None of the lines of a field holds a newline, where no newline stands
/// in the field and in the colour.
pub proof fn lemma_section_unbroken(section: SectionView, indent: nat, colour: Option<Seq<char>>)
    requires
        section_free_of(section, '\n'),
        colour matches Some(c) ==> free_of(c, '\n'),
    ensures
        unbroken(section_lines(section, indent, colour)),
    decreases section, 1nat,
{
    reveal_strlit(": ");
    match section.content {
        ContentView::Short(text) => {
            let rest = SEPARATOR@ + text;
            assert forall|i: int| 0 <= i < rest.len() implies #[trigger] rest[i] != '\n' by {
                if i >= 2 {
                    assert(rest[i] == text[i - 2]);
                }
            }
            lemma_name_line_unbroken(section.name, rest, indent, colour);
            assert(styled_name(section.name, indent, colour) + SEPARATOR@ + text =~= styled_name(
                section.name,
                indent,
                colour,
            ) + rest);
        },
        ContentView::Long(children) => {
            lemma_name_line_unbroken(section.name, seq![':'], indent, colour);
            lemma_sections_unbroken(children, indent + NESTED_INDENT as nat, colour);
        },
        ContentView::Absent => {},
    }
}

/// None of the lines of fields holds a newline, where no newline stands
/// in the fields and in the colour.
pub proof fn lemma_sections_unbroken(
    sections: Seq<SectionView>,
    indent: nat,
    colour: Option<Seq<char>>,
)
    requires
        sections_free_of(sections, '\n'),
        colour matches Some(c) ==> free_of(c, '\n'),
    ensures
        unbroken(sections_lines(sections, indent, colour)),
    decreases sections, 0nat,
{
    if sections.len() > 0 {
        lemma_sections_unbroken(sections.drop_last(), indent, colour);
        lemma_section_unbroken(sections.last(), indent, colour);
    }
}

/// The text of a report is made of as many lines as its fields are
/// printed on: where no newline stands in a name, a text or the colour,
/// the text holds one newline fewer than `sections_line_count` says, and
/// a report of which nothing is printed has an empty text.
pub proof fn lemma_report_newlines(report: ReportView)
    requires
        sections_free_of(report.sections, '\n'),
        report.colour matches Some(c) ==> free_of(c, '\n'),
    ensures
        sections_line_count(report.sections) == 0 ==> report_text(report).len() == 0,
        sections_line_count(report.sections) > 0 ==> newlines(report_text(report)) + 1
            == sections_line_count(report.sections),
{
    lemma_sections_unbroken(report.sections, report_indent(report), report.colour);
    lemma_joined_newlines(report_lines(report));
    lemma_report_line_count(report);
}

/// The text of a flat report is made of as many lines as the report has
/// fields: where no newline stands in a name, a text or the colour, the
/// text holds one newline fewer than there are fields.
pub proof fn lemma_flat_newlines(report: ArrayView)
    requires
        lines_free_of(report.sections, '\n'),
        report.colour matches Some(c) ==> free_of(c, '\n'),
    ensures
        report.sections.len() == 0 ==> flat_text(report).len() == 0,
        report.sections.len() > 0 ==> newlines(flat_text(report)) + 1 == report.sections.len(),
{
    let lines = flat_lines(report);
    let width = flat_indent(report.sections);
    reveal_strlit(": ");
    assert forall|i: int| 0 <= i < lines.len() implies newlines(#[trigger] lines[i]) == 0 by {
        let line = report.sections[i];
        let rest = SEPARATOR@ + line.content;
        assert forall|k: int| 0 <= k < rest.len() implies #[trigger] rest[k] != '\n' by {
            if k >= 2 {
                assert(rest[k] == line.content[k - 2]);
            }
        }
        lemma_name_line_unbroken(line.name, rest, width, report.colour);
        assert(lines[i] =~= styled_name(line.name, width, report.colour) + rest);
    }
    lemma_joined_newlines(lines);
}

/// The lines `lines` as fields that each hold a text.
pub open spec fn as_sections(lines: Seq<LineView>) -> Seq<SectionView> {
    Seq::new(
        lines.len(),
        |i: int| SectionView { name: lines[i].name, content: ContentView::Short(lines[i].content) },
    )
}

/// Fields that each hold a text ask the column of names that their lines
/// ask, and are printed as their lines are.
pub proof fn lemma_lines_as_sections(lines: Seq<LineView>, indent: nat, colour: Option<Seq<char>>)
    ensures
        sections_indent(as_sections(lines), 0) == flat_indent(lines),
        sections_lines(as_sections(lines), indent, colour) == Seq::new(
            lines.len(),
            |i: int| line_text(lines[i], indent, colour),
        ),
    decreases lines.len(),
{
    let sections = as_sections(lines);
    if lines.len() > 0 {
        lemma_lines_as_sections(lines.drop_last(), indent, colour);
        assert(sections.drop_last() =~= as_sections(lines.drop_last()));
        assert(section_indent(sections.last(), 0) == byte_len(lines.last().name));
        let before = sections_lines(sections.drop_last(), indent, colour);
        let own = section_lines(sections.last(), indent, colour);
        let all = Seq::new(lines.len(), |i: int| line_text(lines[i], indent, colour));
        assert forall|i: int| 0 <= i < all.len() implies (before + own)[i] == #[trigger] all[i] by {
            if i < before.len() {
                assert(before[i] == line_text(lines.drop_last()[i], indent, colour));
            }
        }
    } else {
        assert(sections_lines(sections, indent, colour) =~= Seq::new(
            lines.len(),
            |i: int| line_text(lines[i], indent, colour),
        ));
    }
}

/// A flat report is the report of the fields that hold the texts of its
/// lines: both have the same column of names and the same text.
pub proof fn lemma_flat_is_nested(report: ArrayView)
    ensures
        report_indent(ReportView { sections: as_sections(report.sections), colour: report.colour })
            == flat_indent(report.sections),
        report_text(ReportView { sections: as_sections(report.sections), colour: report.colour })
            == flat_text(report),
{
    lemma_lines_as_sections(report.sections, flat_indent(report.sections), report.colour);
}

/// The width of the widest name among the fields `sections`, which stand
/// at nesting level `level`, and the fields of their groups: the largest
/// `section_widest`, and 0 where there is no field.
pub open spec fn sections_widest(sections: Seq<SectionView>, level: nat) -> nat
    decreases sections, 0nat,
{
    if sections.len() == 0 {
        0
    } else {
        max(sections_widest(sections.drop_last(), level), section_widest(sections.last(), level))
    }
}

/// The width of the widest name among a field at nesting level `level`
/// and the fields of its group, each name counted less the columns by
/// which its own level is moved to the right.
pub open spec fn section_widest(section: SectionView, level: nat) -> nat
    decreases section, 1nat,
{
    let own = saturating_sub(byte_len(section.name), level * NESTED_INDENT as nat);
    match section.content {
        ContentView::Long(children) => max(own, sections_widest(children, level + 1)),
        _ => own,
    }
}

/// A field asks no more of the column of names than its widest name
/// needs.
pub proof fn lemma_section_indent_bounded(section: SectionView, level: nat)
    ensures
        section_indent(section, level) <= section_widest(section, level),
    decreases section, 1nat,
{
    match section.content {
        ContentView::Long(children) => {
            lemma_sections_indent_bounded(children, level + 1);
        },
        _ => {},
    }
}

/// Fields ask no more of the column of names than their widest name
/// needs.
pub proof fn lemma_sections_indent_bounded(sections: Seq<SectionView>, level: nat)
    ensures
        sections_indent(sections, level) <= sections_widest(sections, level),
    decreases sections, 0nat,
{
    if sections.len() > 0 {
        lemma_sections_indent_bounded(sections.drop_last(), level);
        lemma_section_indent_bounded(sections.last(), level);
    }
}

/// Fields that hold no field ask exactly what their names need.
pub proof fn lemma_leaves_indent_exact(sections: Seq<SectionView>, level: nat)
    requires
        sections_height(sections) == 0,
    ensures
        sections_indent(sections, level) == sections_widest(sections, level),
    decreases sections.len(),
{
    if sections.len() > 0 {
        lemma_leaves_indent_exact(sections.drop_last(), level);
        let section = sections.last();
        assert(section_height(section) == 0);
        match section.content {
            ContentView::Long(children) => {
                assert(children.len() == 0);
                assert(sections_indent(children, level + 1) == 0);
                assert(sections_widest(children, level + 1) == 0);
            },
            _ => {},
        }
        assert(section_indent(section, level) == section_widest(section, level));
    }
}

/// In a report whose groups hold no further groups, the first column of
/// names is exactly as wide as the widest name needs, each name counted
/// less the columns by which its level is moved to the right. In a
/// report that is nested more deeply the column is never wider than that.
pub proof fn lemma_report_indent_is_widest(report: ReportView)
    ensures
        report_indent(report) <= sections_widest(report.sections, 0),
        sections_height(report.sections) <= 1 ==> report_indent(report) == sections_widest(
            report.sections,
            0,
        ),
{
    lemma_sections_indent_bounded(report.sections, 0);
    if sections_height(report.sections) <= 1 {
        lemma_shallow_indent_exact(report.sections);
    }
}

/// The same of fields at the outermost level.
pub proof fn lemma_shallow_indent_exact(sections: Seq<SectionView>)
    requires
        sections_height(sections) <= 1,
    ensures
        sections_indent(sections, 0) == sections_widest(sections, 0),
    decreases sections.len(),
{
    if sections.len() > 0 {
        lemma_shallow_indent_exact(sections.drop_last());
        let section = sections.last();
        assert(section_height(section) <= 1);
        match section.content {
            ContentView::Long(children) => {
                if children.len() > 0 {
                    lemma_leaves_indent_exact(children, 1);
                } else {
                    assert(sections_indent(children, 1) == 0);
                    assert(sections_widest(children, 1) == 0);
                }
            },
            _ => {},
        }
        assert(section_indent(section, 0) == section_widest(section, 0));
    }
}

} // verus!
