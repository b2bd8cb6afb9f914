use ironfetch::ansi::strip_colours;
use ironfetch::fetch::Line;
use ironfetch::fetcharray::FetchArray;
use ironfetch::fetchsection::{FetchSection, FetchType, NESTED_INDENT};

fn memory() -> FetchSection {
    FetchSection::new_long(
        "Memory",
        vec![
            FetchSection::new_short("Total", "16 GiB"),
            FetchSection::new_absent("Cached"),
            FetchSection::new_long(
                "Devices",
                vec![FetchSection::new_short("DIMM A", "8 GiB"), FetchSection::new_short("B", "8 GiB")],
            ),
            FetchSection::new_short("Used", "4 GiB"),
        ],
    )
}

fn report() -> FetchArray {
    let mut array = FetchArray::new();
    array.push(FetchSection::new_short("OS", "Arch"));
    array.push(FetchSection::new_absent("Physical Cores"));
    array.push(memory());
    array.push(FetchSection::new_short("Hostname", "box"));
    array
}

#[test]
fn nested_indent_is_a_tab_stop() {
    assert_eq!(NESTED_INDENT, 4);
}

#[test]
fn section_indent_follows_the_formula() {
    let leaf = FetchSection::new_short("Hostname", "x");
    assert_eq!(leaf.get_indent(0), 8);
    assert_eq!(leaf.get_indent(1), 4);
    assert_eq!(leaf.get_indent(2), 0);
    assert_eq!(leaf.get_indent(3), 0);
    let absent = FetchSection::new_absent("Physical Cores");
    assert_eq!(absent.get_indent(0), 14);
    // max(6, max(5 - 4, 6 - 4, max(7, max(6 - 8, 1 - 8)) - 4, 4 - 4)) - 0
    assert_eq!(memory().get_indent(0), 6);
    let wide = FetchSection::new_long("A", vec![FetchSection::new_short("A long child name", "x")]);
    assert_eq!(wide.get_indent(0), 13);
    // one level deeper the child asks 17 - 8 = 9 and the group 9 - 4 = 5
    assert_eq!(wide.get_indent(1), 5);
    let deep = FetchSection::new_long(
        "A",
        vec![FetchSection::new_long("B", vec![FetchSection::new_short("twenty characters !!", "x")])],
    );
    // the innermost name asks 20 - 8 = 12 at its level, its group 12 - 4 = 8
    assert_eq!(deep.get_indent(0), 8);
}

#[test]
fn report_indent_is_the_largest_of_its_sections() {
    assert_eq!(FetchArray::new().get_indent(), 0);
    assert_eq!(report().get_indent(), 14);
    let mut array = FetchArray::new();
    array.push(FetchSection::new_short("OS", "Arch"));
    array.push(memory());
    assert_eq!(array.get_indent(), 6);
}

#[test]
fn nested_report_is_rendered_line_by_line() {
    let mut array = FetchArray::new();
    array.push(FetchSection::new_short("OS", "Arch"));
    array.push(FetchSection::new_absent("Odd"));
    array.push(memory());
    array.push(FetchSection::new_short("Host", "box"));
    assert_eq!(array.get_indent(), 6);
    let expected = [
        "    OS: Arch",
        "Memory:",
        "     Total: 16 GiB",
        "   Devices:",
        "        DIMM A: 8 GiB",
        "             B: 8 GiB",
        "      Used: 4 GiB",
        "  Host: box",
    ]
    .join("\n");
    assert_eq!(array.render(), expected);
}

#[test]
fn line_count_is_one_per_text_and_header() {
    let text = report().render();
    // OS, Memory, Total, Devices, DIMM A, B, Used, Hostname
    assert_eq!(text.lines().count(), 8);
    assert!(!text.ends_with('\n'));
    assert!(!text.contains("\n\n"));
    assert!(!text.contains("Cached"));
    assert!(!text.contains("Physical Cores"));
}

#[test]
fn absent_sections_give_no_line() {
    let mut array = FetchArray::new();
    array.push(FetchSection::new_absent("a"));
    assert_eq!(array.render(), "");
    array.push(FetchSection::new_short("b", "1"));
    array.push(FetchSection::new_absent("c"));
    assert_eq!(array.render(), "b: 1");
    array.push(FetchSection::new_short("d", "2"));
    assert_eq!(array.render(), "b: 1\nd: 2");
    assert!(FetchSection::new_absent("a").is_absent());
    assert!(!FetchSection::new_short("a", "b").is_absent());
}

#[test]
fn group_without_fields_prints_its_header_only() {
    let mut array = FetchArray::new();
    array.push(FetchSection::new_long("Devices", vec![]));
    assert_eq!(array.render(), "Devices:");
    array.push(FetchSection::new_short("x", "y"));
    assert_eq!(array.render(), "Devices:\n      x: y");
    let only_absent = FetchSection::new_long("G", vec![FetchSection::new_absent("gone")]);
    let mut out = String::new();
    only_absent.fmt(1, &mut out, &None);
    assert_eq!(out, "G:");
}

#[test]
fn children_are_aligned_four_columns_further() {
    let group = FetchSection::new_long(
        "Group",
        vec![FetchSection::new_short("a", "1"), FetchSection::new_short("bcd", "2")],
    );
    let mut out = String::new();
    group.fmt(5, &mut out, &None);
    assert_eq!(out, "Group:\n        a: 1\n      bcd: 2");
    let lines: Vec<&str> = out.lines().collect();
    assert_eq!(lines[0].find(':'), Some(5));
    assert_eq!(lines[1].find(':'), Some(9));
    assert_eq!(lines[2].find(':'), Some(9));
}

#[test]
fn section_fmt_appends_to_the_writer() {
    let mut out = String::from("> ");
    FetchSection::new_short("OS", "Arch").fmt(3, &mut out, &Some(String::from("1;31")));
    assert_eq!(out, "> \x1b[1;31m OS\x1b[0m: Arch");
    let mut out = String::from("kept");
    FetchSection::new_absent("OS").fmt(3, &mut out, &None);
    assert_eq!(out, "kept");
}

#[test]
fn colour_wraps_every_name_of_a_nested_report() {
    let plain = report().render();
    let mut coloured = report();
    coloured.set_colour(Some(String::from("1;36")));
    let text = coloured.render();
    assert_eq!(text.matches("\x1b[1;36m").count(), 8);
    assert_eq!(text.matches("\x1b[0m").count(), 8);
    assert!(text.contains("\x1b[1;36m        Memory\x1b[0m:\n"));
    assert_eq!(strip_colours(&text), plain);
    assert_eq!(coloured.get_indent(), report().get_indent());
}

#[test]
fn section_from_a_pair() {
    let section = FetchSection::from((String::from("OS"), String::from("Arch")));
    assert_eq!(section.name, "OS");
    assert!(matches!(section.content, FetchType::Short(ref text) if text == "Arch"));
}

#[test]
fn section_from_a_line() {
    let section = FetchSection::from(Line::new("OS", "Arch"));
    assert_eq!(section.name, "OS");
    assert!(matches!(section.content, FetchType::Short(ref text) if text == "Arch"));
}

#[test]
fn nested_push_multi_and_append_keep_the_order() {
    let mut array = FetchArray::default();
    array.push_multi(vec![FetchSection::new_short("a", "1"), FetchSection::new_short("b", "2")]);
    let mut other = FetchArray::from(vec![FetchSection::new_short("c", "3")]);
    array.append(&mut other);
    assert_eq!(array.render(), "a: 1\nb: 2\nc: 3");
    assert_eq!(other.render(), "");
}

#[test]
fn flat_and_nested_reports_agree_on_texts() {
    let mut flat = ironfetch::fetch::Array::new();
    let mut nested = FetchArray::new();
    for (name, content) in [("OS", "X"), ("Hostname", "Y"), ("CPU", "Z")] {
        flat.push(Line::new(name, content));
        nested.push(FetchSection::from(Line::new(name, content)));
    }
    assert_eq!(flat.render(), nested.render());
    assert_eq!(flat.get_indent(), nested.get_indent());
}
