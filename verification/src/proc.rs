//! Looking up a field in the lines of one of the kernel's text files, in
//! which a line holds the name of a field, a colon and the value.
use vstd::prelude::*;
use crate::chars::{
    after_char, before_char, contains, find_char, has_char, push_chars, str_contains, to_chars,
    trim, trim_bounds,
};
use crate::error::Error;
use crate::text::string_views;

verus! {

/// The value that a line holds: what stands between its first colon and
/// its second, or its end, without the white space around it.
pub open spec fn field_value(line: Seq<char>) -> Seq<char> {
    trim(before_char(after_char(line, ':'), ':'))
}

/// The position of the first line that holds `field`, and the number of
/// lines where none holds it.
pub open spec fn first_holding(lines: Seq<Seq<char>>, field: Seq<char>) -> int
    decreases lines.len(),
{
    if lines.len() == 0 {
        0
    } else if contains(lines[0], field) {
        0
    } else {
        1 + first_holding(lines.skip(1), field)
    }
}

/// The position of the first of `fields` that some line holds, and the
/// number of fields where no line holds any.
pub open spec fn first_found(lines: Seq<Seq<char>>, fields: Seq<Seq<char>>) -> int
    decreases fields.len(),
{
    if fields.len() == 0 {
        0
    } else if first_holding(lines, fields[0]) < lines.len() {
        0
    } else {
        1 + first_found(lines, fields.skip(1))
    }
}

/// The first line that holds a field lies among the lines or behind them.
pub proof fn lemma_first_holding_bounds(lines: Seq<Seq<char>>, field: Seq<char>)
    ensures
        0 <= first_holding(lines, field) <= lines.len(),
    decreases lines.len(),
{
    if lines.len() > 0 && !contains(lines[0], field) {
        lemma_first_holding_bounds(lines.skip(1), field);
    }
}

/// The first field that is found lies among the fields or behind them.
pub proof fn lemma_first_found_bounds(lines: Seq<Seq<char>>, fields: Seq<Seq<char>>)
    ensures
        0 <= first_found(lines, fields) <= fields.len(),
    decreases fields.len(),
{
    if fields.len() > 0 && !(first_holding(lines, fields[0]) < lines.len()) {
        lemma_first_found_bounds(lines, fields.skip(1));
    }
}

/// The value of the first of `fields` that one of the lines holds.
pub fn proc_parse_try(lines: &Vec<String>, fields: &Vec<String>) -> (value: Result<String, Error>)
    requires
        ({
            let found = first_found(string_views(lines@), string_views(fields@));
            found < fields@.len() ==> has_char(
                string_views(lines@)[first_holding(
                    string_views(lines@),
                    string_views(fields@)[found],
                )],
                ':',
            )
        }),
    ensures
        ({
            let found = first_found(string_views(lines@), string_views(fields@));
            if found < fields@.len() {
                &&& value matches Ok(v)
                &&& v@ == field_value(
                    string_views(lines@)[first_holding(
                    string_views(lines@),
                    string_views(fields@)[found],
                )],
                )
            } else {
                value == Err::<String, Error>(Error::Proc)
            }
        }),
{
    let ghost all = string_views(lines@);
    let ghost names = string_views(fields@);
    let mut k: usize = 0;
    assert(names.skip(0) =~= names);
    proof {
        lemma_first_found_bounds(all, names);
    }
    while k < fields.len()
        invariant
            k <= fields.len(),
            all == string_views(lines@),
            names == string_views(fields@),
            first_found(all, names) == k + first_found(all, names.skip(k as int)),
            first_found(all, names) < names.len() ==> has_char(
                all[first_holding(all, names[first_found(all, names)])],
                ':',
            ),
        decreases fields.len() - k,
    {
        proof {
            assert(names.skip(k as int)[0] == names[k as int]);
            assert(names.skip(k as int).skip(1) =~= names.skip(k + 1));
            lemma_first_holding_bounds(all, names[k as int]);
        }
        assert(first_holding(all, names[k as int]) < all.len() ==> first_found(all, names) == k);
        match proc_parse(lines, fields[k].as_str()) {
            Ok(v) => {
                return Ok(v);
            },
            Err(_) => {},
        }
        k = k + 1;
    }
    assert(names.skip(k as int).len() == 0);
    Err(Error::Proc)
}

/// The value of `field` in the first line that holds it.
pub fn proc_parse(lines: &Vec<String>, field: &str) -> (value: Result<String, Error>)
    requires
        first_holding(string_views(lines@), field@) < lines@.len() ==> has_char(
            string_views(lines@)[first_holding(string_views(lines@), field@)],
            ':',
        ),
    ensures
        ({
            let at = first_holding(string_views(lines@), field@);
            if at < lines@.len() {
                &&& value matches Ok(v)
                &&& v@ == field_value(string_views(lines@)[at])
            } else {
                value == Err::<String, Error>(Error::Proc)
            }
        }),
{
    let ghost all = string_views(lines@);
    let mut i: usize = 0;
    assert(all.skip(0) =~= all);
    while i < lines.len()
        invariant
            i <= lines.len(),
            all == string_views(lines@),
            first_holding(all, field@) == i + first_holding(all.skip(i as int), field@),
            first_holding(all, field@) < all.len() ==> has_char(
                all[first_holding(all, field@)],
                ':',
            ),
        decreases lines.len() - i,
    {
        assert(all.skip(i as int)[0] == all[i as int]);
        assert(all.skip(i as int).skip(1) =~= all.skip(i + 1));
        if str_contains(lines[i].as_str(), field) {
            let chars = to_chars(lines[i].as_str());
            assert(chars@.skip(0) =~= chars@);
            let colon = find_char(&chars, ':', 0);
            assert(colon < chars.len()) by {
                let j = choose|j: int| 0 <= j < chars@.len() && chars@[j] == ':';
                assert(chars@[j] == ':');
            }
            let end = find_char(&chars, ':', colon + 1);
            let (from, to) = trim_bounds(&chars, colon + 1, end);
            let mut value = String::new();
            push_chars(&mut value, &chars, from, to);
            return Ok(value);
        }
        i = i + 1;
    }
    assert(all.skip(i as int).len() == 0);
    Err(Error::Proc)
}

} // verus!
