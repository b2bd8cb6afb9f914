//! The power profile of the power-profiles daemon: the active profile
//! among the profiles it offers.
use vstd::prelude::*;
use crate::fetch::{one_line, single_line, Fetch, Line, LineView};
use crate::modules::platform::{mark_choice, marked_choices};
use crate::text::{join_strings, join_with, string_views};

verus! {

/// The active profile and the list of the profiles on offer.
pub struct Ppd {
    pub current: String,
    pub choices: String,
}

impl Ppd {
    /// The active profile `current` among `profiles`, the names of the
    /// profiles on offer, which are listed with a blank between each two.
    pub fn new(current: String, profiles: Vec<String>) -> (ppd: Ppd)
        ensures
            ppd.current == current,
            ppd.choices@ == join_with(string_views(profiles@), seq![' ']),
    {
        proof {
            reveal_strlit(" ");
            assert(" "@ =~= seq![' ']);
        }
        Ppd { current, choices: join_strings(&profiles, " ") }
    }

    /// The profiles on offer, the active one in square brackets.
    pub fn to_string(&self) -> (text: String)
        ensures
            text@ == marked_choices(self.current@, self.choices@),
    {
        mark_choice(self.current.as_str(), self.choices.as_str())
    }
}

impl Fetch for Ppd {
    open spec fn fetchable(&self) -> bool {
        true
    }

    open spec fn name_view(&self) -> Seq<char> {
        "Ppd"@
    }

    open spec fn content_view(&self) -> Seq<char> {
        marked_choices(self.current@, self.choices@)
    }

    open spec fn lines_view(&self) -> Seq<LineView> {
        single_line(self.name_view(), self.content_view())
    }

    fn name(&self) -> (name: &'static str) {
        "Ppd"
    }

    fn content(&self) -> (content: String) {
        self.to_string()
    }

    fn as_fetchlines(&self) -> (lines: Vec<Line>) {
        one_line(self.as_fetchsection())
    }
}

} // verus!
