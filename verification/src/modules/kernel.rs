//! The kernel that the host runs.
use vstd::prelude::*;
use crate::error::Error;
use crate::fetch::{one_line, single_line, Fetch, Line, LineView};

verus! {

/// The name of the kernel, its release and the architecture it runs on.
pub struct Kernel {
    pub release: String,
    pub architecture: String,
    pub name: String,
}

/// The kernel as it is shown: name, release and architecture, with a
/// blank between each two.
pub open spec fn kernel_text(name: Seq<char>, release: Seq<char>, architecture: Seq<char>) -> Seq<
    char,
> {
    name + seq![' '] + release + seq![' '] + architecture
}

impl Kernel {
    /// The kernel described by the three texts that the system reports. A
    /// text is missing where the system's text was not valid Unicode, and
    /// then there is no description.
    pub fn new(
        release: Option<String>,
        architecture: Option<String>,
        name: Option<String>,
    ) -> (kernel: Result<Kernel, Error>)
        ensures
            kernel is Ok <==> release is Some && architecture is Some && name is Some,
            kernel matches Ok(k) ==> Some(k.release) == release && Some(k.architecture)
                == architecture && Some(k.name) == name,
            kernel matches Err(e) ==> e == Error::OsStr,
    {
        let release = Self::os_str_to_string(release)?;
        let architecture = Self::os_str_to_string(architecture)?;
        let name = Self::os_str_to_string(name)?;
        Ok(Kernel { release, architecture, name })
    }

    /// The text, where the system's text was valid Unicode.
    pub fn os_str_to_string(v: Option<String>) -> (text: Result<String, Error>)
        ensures
            text == match v {
                Some(s) => Ok::<String, Error>(s),
                None => Err::<String, Error>(Error::OsStr),
            },
    {
        match v {
            Some(s) => Ok(s),
            None => Err(Error::OsStr),
        }
    }

    /// Name, release and architecture, with a blank between each two.
    pub fn to_string(&self) -> (text: String)
        ensures
            text@ == kernel_text(self.name@, self.release@, self.architecture@),
    {
        let mut text = String::new();
        text.append(self.name.as_str());
        text.push(' ');
        text.append(self.release.as_str());
        text.push(' ');
        text.append(self.architecture.as_str());
        text
    }
}

impl Fetch for Kernel {
    open spec fn fetchable(&self) -> bool {
        true
    }

    open spec fn name_view(&self) -> Seq<char> {
        "Kernel"@
    }

    open spec fn content_view(&self) -> Seq<char> {
        kernel_text(self.name@, self.release@, self.architecture@)
    }

    open spec fn lines_view(&self) -> Seq<LineView> {
        single_line(self.name_view(), self.content_view())
    }

    fn name(&self) -> (name: &'static str) {
        "Kernel"
    }

    fn content(&self) -> (content: String) {
        self.to_string()
    }

    fn as_fetchlines(&self) -> (lines: Vec<Line>) {
        one_line(self.as_fetchsection())
    }
}

} // verus!
