//! The platform profile of the firmware: the active profile among the
//! profiles it offers.
use vstd::prelude::*;
use crate::chars::{replace_all, str_replace, str_without_char, without_char};
use crate::fetch::{one_line, single_line, Fetch, Line, LineView};

verus! {

/// The active profile and the list of the profiles on offer.
pub struct Profile {
    pub current: String,
    pub choices: String,
}

/// One line as it was read from a file of the system: the line without
/// its newline.
pub fn read_product_info(line: &str) -> (info: String)
    ensures
        info@ == without_char(line@, '\n'),
{
    str_without_char(line, '\n')
}

/// The list of profiles `choices`, with the profile `current` put in
/// square brackets wherever it stands in the list.
pub open spec fn marked_choices(current: Seq<char>, choices: Seq<char>) -> Seq<char> {
    replace_all(choices, current, seq!['['] + current + seq![']'])
}

/// Writes the list `choices` with `current` marked.
pub fn mark_choice(current: &str, choices: &str) -> (text: String)
    ensures
        text@ == marked_choices(current@, choices@),
{
    let mut marked = String::new();
    marked.push('[');
    marked.append(current);
    marked.push(']');
    assert(marked@ =~= seq!['['] + current@ + seq![']']);
    str_replace(choices, current, marked.as_str())
}

impl Profile {
    /// The profile read from the two lines in which the firmware names
    /// the active profile and the profiles on offer.
    pub fn new(current: &str, choices: &str) -> (profile: Profile)
        ensures
            profile.current@ == without_char(current@, '\n'),
            profile.choices@ == without_char(choices@, '\n'),
    {
        Profile { current: read_product_info(current), choices: read_product_info(choices) }
    }

    /// The profiles on offer, the active one in square brackets.
    pub fn to_string(&self) -> (text: String)
        ensures
            text@ == marked_choices(self.current@, self.choices@),
    {
        mark_choice(self.current.as_str(), self.choices.as_str())
    }
}

impl Fetch for Profile {
    open spec fn fetchable(&self) -> bool {
        true
    }

    open spec fn name_view(&self) -> Seq<char> {
        "Platform"@
    }

    open spec fn content_view(&self) -> Seq<char> {
        marked_choices(self.current@, self.choices@)
    }

    open spec fn lines_view(&self) -> Seq<LineView> {
        single_line(self.name_view(), self.content_view())
    }

    fn name(&self) -> (name: &'static str) {
        "Platform"
    }

    fn content(&self) -> (content: String) {
        self.to_string()
    }

    fn as_fetchlines(&self) -> (lines: Vec<Line>) {
        one_line(self.as_fetchsection())
    }
}

} // verus!
