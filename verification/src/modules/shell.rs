//! The shell of the user.
use vstd::prelude::*;
use crate::chars::{push_chars, to_chars};
use crate::error::Error;
use crate::fetch::{one_line, single_line, Fetch, Line, LineView};

verus! {

/// The path of the shell's program and the version of the shell.
pub struct Shell {
    pub path: String,
    pub version: String,
}

/// Where the last part of `path` starts: behind its last slash, and at 0
/// where it has none.
pub open spec fn last_part_start(path: Seq<char>) -> int
    decreases path.len(),
{
    if path.len() == 0 {
        0
    } else if path.last() == '/' {
        path.len() as int
    } else {
        last_part_start(path.drop_last())
    }
}

/// The final component of a path whose parts are separated by slashes:
/// its last part, where parts that are empty or a single dot do not
/// count. A path without such a part has no final component, and neither
/// has a path whose last part is two dots.
pub open spec fn file_name(path: Seq<char>) -> Option<Seq<char>>
    decreases path.len(),
{
    let start = last_part_start(path);
    let part = path.skip(start);
    if path.len() == 0 {
        None
    } else if part.len() == 0 || part == seq!['.'] {
        if 0 < start <= path.len() {
            file_name(path.take(start - 1))
        } else {
            None
        }
    } else if part == seq!['.', '.'] {
        None
    } else {
        Some(part)
    }
}

/// The name of a shell as it is shown: the final component of its path,
/// and nothing where the path has none.
pub open spec fn shell_text(path: Seq<char>) -> Seq<char> {
    match file_name(path) {
        Some(name) => name,
        None => Seq::empty(),
    }
}

/// The last part of a path starts inside the path, behind a slash or at
/// the start.
pub proof fn lemma_last_part_start(path: Seq<char>)
    ensures
        0 <= last_part_start(path) <= path.len(),
        last_part_start(path) > 0 ==> path[last_part_start(path) - 1] == '/',
    decreases path.len(),
{
    if path.len() > 0 && path.last() != '/' {
        lemma_last_part_start(path.drop_last());
    }
}

impl Shell {
    /// The shell whose program is at `path`; its version is not known.
    pub fn new(path: String) -> (shell: Shell)
        ensures
            shell.path == path,
            shell.version@ == Seq::<char>::empty(),
    {
        Shell { path, version: String::new() }
    }

    /// The name of the shell: the final component of its path.
    pub fn name(&self) -> (name: Result<String, Error>)
        ensures
            name is Ok <==> file_name(self.path@) is Some,
            name matches Ok(n) ==> Some(n@) == file_name(self.path@),
            name matches Err(e) ==> e == Error::OsStr,
    {
        let chars = to_chars(self.path.as_str());
        let mut end: usize = chars.len();
        assert(chars@.take(end as int) =~= chars@);
        while end > 0
            invariant
                end <= chars.len(),
                chars@ == self.path@,
                file_name(chars@.take(end as int)) == file_name(chars@),
            decreases end,
        {
            let ghost path = chars@.take(end as int);
            let mut start: usize = end;
            assert(path.take(start as int) =~= path);
            while start > 0 && chars[start - 1] != '/'
                invariant
                    start <= end <= chars.len(),
                    path == chars@.take(end as int),
                    last_part_start(path.take(start as int)) == last_part_start(path),
                decreases start,
            {
                assert(path.take(start as int).drop_last() =~= path.take(start - 1));
                start = start - 1;
            }
            proof {
                lemma_last_part_start(path);
                if start > 0 {
                    assert(path.take(start as int).last() == '/');
                }
                assert(path.skip(start as int) =~= chars@.subrange(start as int, end as int));
            }
            let len = end - start;
            let ghost part = chars@.subrange(start as int, end as int);
            if len == 0 || (len == 1 && chars[start] == '.') {
                assert(part.len() == 0 || part =~= seq!['.']);
                if start == 0 {
                    return Err(Error::OsStr);
                }
                assert(path.take(start - 1) =~= chars@.take(start - 1));
                end = start - 1;
            } else if len == 2 && chars[start] == '.' && chars[start + 1] == '.' {
                assert(part =~= seq!['.', '.']);
                return Err(Error::OsStr);
            } else {
                assert(part != seq!['.']) by {
                    if part == seq!['.'] {
                        assert(part[0] == '.');
                    }
                }
                assert(part != seq!['.', '.']) by {
                    if part == seq!['.', '.'] {
                        assert(part.len() == 2);
                    }
                }
                let mut name = String::new();
                push_chars(&mut name, &chars, start, end);
                return Ok(name);
            }
        }
        Err(Error::OsStr)
    }

    /// The name of the shell, and an empty text where its path has no
    /// final component.
    pub fn to_string(&self) -> (text: String)
        ensures
            text@ == shell_text(self.path@),
    {
        match self.name() {
            Ok(name) => name,
            Err(_) => String::new(),
        }
    }
}

impl Fetch for Shell {
    open spec fn fetchable(&self) -> bool {
        true
    }

    open spec fn name_view(&self) -> Seq<char> {
        "Shell"@
    }

    open spec fn content_view(&self) -> Seq<char> {
        shell_text(self.path@)
    }

    open spec fn lines_view(&self) -> Seq<LineView> {
        single_line(self.name_view(), self.content_view())
    }

    fn name(&self) -> (name: &'static str) {
        "Shell"
    }

    fn content(&self) -> (content: String) {
        self.to_string()
    }

    fn as_fetchlines(&self) -> (lines: Vec<Line>) {
        one_line(self.as_fetchsection())
    }
}

} // verus!
