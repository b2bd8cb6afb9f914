//! The operating system, as its release file describes it.
use vstd::prelude::*;
use crate::chars::{str_trim_char, str_without_char, trim_char, without_char};
use crate::fetch::{one_line, single_line, Fetch, Line, LineView};
use crate::text::option_view;

verus! {

/// The name of the system, the identifier of its build, the name of its
/// version and, where the release file has one, the colour of the system.
pub struct OsInfo {
    pub name: String,
    pub build_id: String,
    pub color: Option<String>,
    pub version_codename: String,
}

/// The system as it is shown: its name, its build and, in round brackets,
/// the name of its version.
pub open spec fn os_text(name: Seq<char>, build_id: Seq<char>, version_codename: Seq<char>) -> Seq<
    char,
> {
    name + seq![' '] + build_id + seq![' ', '('] + version_codename + seq![')']
}

impl OsInfo {
    /// The system described by the entries of its release file. The build
    /// is the entry for the build without its quotation marks or, where
    /// the file has no such entry, the identifier of the version. The
    /// colour is the entry for the colour without the quotation marks
    /// around it.
    pub fn new(
        name: String,
        build_id: Option<&str>,
        version_id: String,
        ansi_color: Option<&str>,
        version_codename: String,
    ) -> (os: OsInfo)
        ensures
            os.name == name,
            os.version_codename == version_codename,
            os.build_id@ == match build_id {
                Some(id) => without_char(id@, '"'),
                None => version_id@,
            },
            option_view(os.color) == match ansi_color {
                Some(colour) => Some(trim_char(colour@, '"')),
                None => None,
            },
    {
        OsInfo {
            name,
            build_id: match build_id {
                Some(id) => str_without_char(id, '"'),
                None => version_id,
            },
            color: match ansi_color {
                Some(colour) => Some(str_trim_char(colour, '"')),
                None => None,
            },
            version_codename,
        }
    }

    /// The name, the build and, in round brackets, the name of the
    /// version.
    pub fn to_string(&self) -> (text: String)
        ensures
            text@ == os_text(self.name@, self.build_id@, self.version_codename@),
    {
        let mut text = String::new();
        text.append(self.name.as_str());
        text.push(' ');
        text.append(self.build_id.as_str());
        text.push(' ');
        text.push('(');
        text.append(self.version_codename.as_str());
        text.push(')');
        text
    }
}

impl Fetch for OsInfo {
    open spec fn fetchable(&self) -> bool {
        true
    }

    open spec fn name_view(&self) -> Seq<char> {
        "OS"@
    }

    open spec fn content_view(&self) -> Seq<char> {
        os_text(self.name@, self.build_id@, self.version_codename@)
    }

    open spec fn lines_view(&self) -> Seq<LineView> {
        single_line(self.name_view(), self.content_view())
    }

    fn name(&self) -> (name: &'static str) {
        "OS"
    }

    fn content(&self) -> (content: String) {
        self.to_string()
    }

    fn as_fetchlines(&self) -> (lines: Vec<Line>) {
        one_line(self.as_fetchsection())
    }
}

} // verus!
