use ironfetch::ansi::strip_colours;
use ironfetch::colourblocks::colourblocks;
use ironfetch::error::Error;
use ironfetch::fetch::{one_line, try_line, Array, Fetch, Line, SEPARATOR};
use ironfetch::modules::hostname::HostName;

fn sample() -> Array {
    let mut array = Array::new();
    array.push(Line::new("OS", "X"));
    array.push(Line::new("Hostname", "Y"));
    array.push(Line::new("CPU", "Z"));
    array
}

#[test]
fn flat_report_aligns_names() {
    let array = sample();
    assert_eq!(array.get_indent(), 8);
    assert_eq!(array.render(), "      OS: X\nHostname: Y\n     CPU: Z");
}

#[test]
fn colon_stands_in_one_column() {
    let text = sample().render();
    for line in text.lines() {
        assert_eq!(line.find(':'), Some(8));
    }
}

#[test]
fn empty_report_is_empty() {
    let array = Array::new();
    assert_eq!(array.get_indent(), 0);
    assert_eq!(array.render(), "");
    assert_eq!(Array::default().render(), "");
}

#[test]
fn single_line_has_no_newline() {
    let mut array = Array::new();
    array.push(Line::new("Kernel", "Linux"));
    assert_eq!(array.render(), "Kernel: Linux");
}

#[test]
fn five_sections_give_five_lines_in_push_order() {
    let mut array = Array::new();
    let names = ["one", "two", "three", "four", "five"];
    for name in names {
        array.push(Line::new(name, "value"));
    }
    assert_eq!(array.get_indent(), 5);
    let text = array.render();
    let lines: Vec<&str> = text.lines().collect();
    assert_eq!(lines.len(), 5);
    assert_eq!(
        lines,
        vec!["  one: value", "  two: value", "three: value", " four: value", " five: value"]
    );
}

#[test]
fn colour_wraps_the_name_only() {
    let mut array = sample();
    array.set_colour(Some(String::from("1;34")));
    assert_eq!(
        array.render(),
        "\x1b[1;34m      OS\x1b[0m: X\n\x1b[1;34mHostname\x1b[0m: Y\n\x1b[1;34m     CPU\x1b[0m: Z"
    );
}

#[test]
fn colour_does_not_change_the_indent() {
    let mut array = sample();
    let before = array.get_indent();
    array.set_colour(Some(String::from("38;2;23;147;209")));
    assert_eq!(array.get_indent(), before);
}

#[test]
fn stripping_the_colour_gives_the_plain_report() {
    let plain = sample().render();
    let mut coloured = sample();
    coloured.set_colour(Some(String::from("38;2;23;147;209")));
    let text = coloured.render();
    assert_ne!(text, plain);
    assert_eq!(strip_colours(&text), plain);
}

#[test]
fn removing_the_colour_gives_the_plain_report() {
    let mut array = sample();
    array.set_colour(Some(String::from("31")));
    array.set_colour(None);
    assert_eq!(array.render(), sample().render());
}

#[test]
fn strip_colours_keeps_what_is_no_colour_sequence() {
    assert_eq!(strip_colours("plain"), "plain");
    assert_eq!(strip_colours("\x1b[0mx"), "x");
    assert_eq!(strip_colours("a\x1b[38;5;12mb\x1b[0m"), "ab");
    assert_eq!(strip_colours("\x1b[12"), "\x1b[12");
    assert_eq!(strip_colours("\x1b[1Ax"), "\x1b[1Ax");
    assert_eq!(strip_colours("\x1bm"), "\x1bm");
    assert_eq!(strip_colours("\x1b[mz"), "z");
}

#[test]
fn get_indent_twice_gives_the_same() {
    let array = sample();
    let before = array.render();
    let first = array.get_indent();
    let second = array.get_indent();
    assert_eq!(first, second);
    assert_eq!(array.render(), before);
}

#[test]
fn line_fmt_pads_to_the_indent() {
    let line = Line::new("OS", "Arch");
    let mut out = String::from(">");
    line.fmt(4, &mut out, None);
    assert_eq!(out, ">  OS: Arch");
    let mut out = String::new();
    line.fmt(0, &mut out, None);
    assert_eq!(out, "OS: Arch");
    let mut out = String::new();
    line.fmt(3, &mut out, Some(String::from("32")));
    assert_eq!(out, "\x1b[32m OS\x1b[0m: Arch");
    assert_eq!(line.get_indent(), 2);
}

#[test]
fn names_are_measured_in_bytes_and_padded_in_characters() {
    let mut array = Array::new();
    array.push(Line::new("é", "1"));
    array.push(Line::new("ab", "2"));
    assert_eq!(array.get_indent(), 2);
    assert_eq!(array.render(), " é: 1\nab: 2");
}

#[test]
fn line_from_a_pair() {
    let line = Line::from((String::from("Shell"), String::from("zsh")));
    assert_eq!(line.name, "Shell");
    assert_eq!(line.content, "zsh");
}

#[test]
fn push_multi_and_append_keep_the_order() {
    let mut array = Array::new();
    array.push_multi(vec![Line::new("a", "1"), Line::new("b", "2")]);
    let mut other = Array::from(vec![Line::new("c", "3")]);
    other.set_colour(Some(String::from("1")));
    array.append(&mut other);
    assert_eq!(array.render(), "a: 1\nb: 2\nc: 3");
    assert_eq!(other.render(), "");
    other.push(Line::new("d", "4"));
    assert_eq!(other.render(), "\x1b[1md\x1b[0m: 4");
}

#[test]
fn push_obj_adds_the_lines_of_a_fact() {
    let host = HostName(String::from("box"));
    assert_eq!(Fetch::name(&host), "Hostname");
    assert_eq!(host.content(), "box");
    let line = host.as_fetchsection();
    assert_eq!(line.name, "Hostname");
    assert_eq!(line.content, "box");
    let mut array = Array::new();
    array.push_obj(&host);
    array.push_obj_opt(None::<HostName>);
    array.push_obj_opt(Some(HostName(String::from("other"))));
    assert_eq!(array.render(), "Hostname: box\nHostname: other");
    let lines = one_line(Line::new("a", "b"));
    assert_eq!(lines.len(), 1);
}

#[test]
fn separator_is_a_colon_and_a_blank() {
    assert_eq!(SEPARATOR, ": ");
}

#[test]
fn swatches_wrap_after_eight() {
    let blocks = colourblocks(0, 16, 8);
    assert_eq!(blocks.matches("\x1b[38;5;").count(), 16);
    assert_eq!(blocks.matches('\n').count(), 1);
    assert!(blocks.ends_with("\x1b[0m"));
    let lines: Vec<&str> = blocks.lines().collect();
    assert_eq!(lines[0].matches("\x1b[38;5;").count(), 8);
    assert!(lines[0].ends_with("\x1b[0m"));
    assert!(lines[1].starts_with("\x1b[38;5;8m\x1b[48;5;8m   "));
}

#[test]
fn swatches_are_written_exactly() {
    assert_eq!(colourblocks(0, 0, 0), "\x1b[0m");
    assert_eq!(colourblocks(3, 0, 8), "   \x1b[0m");
    assert_eq!(colourblocks(2, 1, 8), "  \x1b[38;5;0m\x1b[48;5;0m   \x1b[0m");
    assert_eq!(
        colourblocks(1, 3, 2),
        " \x1b[38;5;0m\x1b[48;5;0m   \x1b[38;5;1m\x1b[48;5;1m   \x1b[0m\n \x1b[38;5;2m\x1b[48;5;2m   \x1b[0m"
    );
    assert!(colourblocks(0, 256, 300).contains("\x1b[38;5;255m\x1b[48;5;255m   "));
}

#[test]
fn fact_that_is_not_there_gives_no_line() {
    assert!(matches!(try_line(None::<HostName>), Err(Error::IsNone)));
    let line = try_line(Some(HostName(String::from("box")))).ok();
    assert_eq!(line.map(|l| (l.name, l.content)), Some((String::from("Hostname"), String::from("box"))));
}
