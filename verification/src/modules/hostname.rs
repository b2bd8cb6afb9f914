//! The name of the host.
use vstd::prelude::*;
use crate::fetch::{one_line, single_line, Fetch, Line, LineView};

verus! {

/// The name under which the host is known.
pub struct HostName(pub String);

impl HostName {
    /// The name of the host.
    pub fn to_string(&self) -> (text: String)
        ensures
            text@ == self.0@,
    {
        self.0.clone()
    }
}

impl Fetch for HostName {
    open spec fn fetchable(&self) -> bool {
        true
    }

    open spec fn name_view(&self) -> Seq<char> {
        "Hostname"@
    }

    open spec fn content_view(&self) -> Seq<char> {
        self.0@
    }

    open spec fn lines_view(&self) -> Seq<LineView> {
        single_line(self.name_view(), self.content_view())
    }

    fn name(&self) -> (name: &'static str) {
        "Hostname"
    }

    fn content(&self) -> (content: String) {
        self.to_string()
    }

    fn as_fetchlines(&self) -> (lines: Vec<Line>) {
        one_line(self.as_fetchsection())
    }
}

} // verus!
