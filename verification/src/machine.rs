//! The facts about one host, and the report that shows them.
use vstd::prelude::*;
use vstd::utf8::{is_ascii_chars, is_ascii_chars_encode_utf8};
use crate::colourblocks::{colourblocks, colourblocks_text};
use crate::fetch::{flat_indent, flat_text, Array, ArrayView, Fetch, LineView, SEPARATOR};
use crate::modules::battery::Battery;
use crate::modules::cpu::Cpu;
use crate::modules::disk::Disk;
use crate::modules::hostname::HostName;
use crate::modules::kernel::Kernel;
use crate::modules::memory::Memory;
use crate::modules::model::Model;
use crate::modules::osinfo::OsInfo;
use crate::modules::platform::Profile;
use crate::modules::ppd::Ppd;
use crate::modules::shell::Shell;
use crate::modules::uptime::Uptime;
use crate::text::{byte_len, option_view};

verus! {

/// The facts about a host, each as far as it could be had.
pub struct Machine {
    pub kernel: Option<Kernel>,
    pub cpu: Option<Cpu>,
    pub memory: Option<Memory>,
    pub os: Option<OsInfo>,
    pub hostname: Option<HostName>,
    pub uptime: Option<Uptime>,
    pub model: Option<Model>,
    pub shell: Option<Shell>,
    pub platform: Option<Profile>,
    pub disk: Option<Disk>,
    pub battery: Option<Battery>,
    pub ppd: Option<Ppd>,
}

/// The number of swatches below a report.
pub const SWATCHES: usize = 16;

/// The number of swatches in one line.
pub const SWATCHES_PER_LINE: usize = 8;

/// The width of the widest name that a fact of a host is reported under.
pub const WIDEST_NAME: usize = 8;

/// The lines that a fact contributes to a report, and none for a fact
/// that could not be had.
pub open spec fn lines_of<T: Fetch>(fact: Option<T>) -> Seq<LineView> {
    match fact {
        Some(f) => f.lines_view(),
        None => Seq::empty(),
    }
}

/// Whether none of the names of `lines` is wider than `WIDEST_NAME`.
pub open spec fn names_fit(lines: Seq<LineView>) -> bool {
    forall|i: int| 0 <= i < lines.len() ==> byte_len((#[trigger] lines[i]).name) <= WIDEST_NAME
}

/// A text of ASCII characters takes one byte for each character.
proof fn lemma_ascii_len(text: Seq<char>)
    requires
        is_ascii_chars(text),
    ensures
        byte_len(text) == text.len(),
{
    is_ascii_chars_encode_utf8(text);
}

/// The names under which the facts of a host are reported are not wider
/// than `WIDEST_NAME`, and the separator takes two bytes.
proof fn lemma_names()
    ensures
        byte_len("OS"@) <= WIDEST_NAME,
        byte_len("Shell"@) <= WIDEST_NAME,
        byte_len("Kernel"@) <= WIDEST_NAME,
        byte_len("Model"@) <= WIDEST_NAME,
        byte_len("Hostname"@) <= WIDEST_NAME,
        byte_len("Uptime"@) <= WIDEST_NAME,
        byte_len("CPU"@) <= WIDEST_NAME,
        byte_len("Memory"@) <= WIDEST_NAME,
        byte_len("Swap"@) <= WIDEST_NAME,
        byte_len("Platform"@) <= WIDEST_NAME,
        byte_len("Ppd"@) <= WIDEST_NAME,
        byte_len("Disk"@) <= WIDEST_NAME,
        byte_len("Battery"@) <= WIDEST_NAME,
        byte_len(SEPARATOR@) == 2,
{
    reveal_strlit("OS");
    reveal_strlit("Shell");
    reveal_strlit("Kernel");
    reveal_strlit("Model");
    reveal_strlit("Hostname");
    reveal_strlit("Uptime");
    reveal_strlit("CPU");
    reveal_strlit("Memory");
    reveal_strlit("Swap");
    reveal_strlit("Platform");
    reveal_strlit("Ppd");
    reveal_strlit("Disk");
    reveal_strlit("Battery");
    reveal_strlit(": ");
    lemma_ascii_len("OS"@);
    lemma_ascii_len("Shell"@);
    lemma_ascii_len("Kernel"@);
    lemma_ascii_len("Model"@);
    lemma_ascii_len("Hostname"@);
    lemma_ascii_len("Uptime"@);
    lemma_ascii_len("CPU"@);
    lemma_ascii_len("Memory"@);
    lemma_ascii_len("Swap"@);
    lemma_ascii_len("Platform"@);
    lemma_ascii_len("Ppd"@);
    lemma_ascii_len("Disk"@);
    lemma_ascii_len("Battery"@);
    lemma_ascii_len(SEPARATOR@);
}

/// A column of names is no wider than the widest name.
proof fn lemma_indent_fits(lines: Seq<LineView>)
    requires
        names_fit(lines),
    ensures
        flat_indent(lines) <= WIDEST_NAME,
    decreases lines.len(),
{
    if lines.len() > 0 {
        assert forall|i: int| 0 <= i < lines.drop_last().len() implies byte_len(
            (#[trigger] lines.drop_last()[i]).name,
        ) <= WIDEST_NAME by {
            assert(lines.drop_last()[i] == lines[i]);
        }
        lemma_indent_fits(lines.drop_last());
    }
}

/// Lines whose names fit, followed by more such lines, are lines whose
/// names fit.
proof fn lemma_fit_concat(a: Seq<LineView>, b: Seq<LineView>)
    requires
        names_fit(a),
        names_fit(b),
    ensures
        names_fit(a + b),
{
    assert forall|i: int| 0 <= i < (a + b).len() implies byte_len((#[trigger] (a + b)[i]).name)
        <= WIDEST_NAME by {
        if i < a.len() {
            assert((a + b)[i] == a[i]);
        } else {
            assert((a + b)[i] == b[i - a.len()]);
        }
    }
}

/// Adds the lines of a fact to a report, if the fact is there.
fn push_fact<T: Fetch>(array: &mut Array, fact: &Option<T>)
    requires
        fact matches Some(f) ==> f.fetchable(),
        names_fit(old(array)@.sections),
        names_fit(lines_of(*fact)),
    ensures
        final(array)@.sections == old(array)@.sections + lines_of(*fact),
        final(array)@.colour == old(array)@.colour,
        names_fit(final(array)@.sections),
{
    proof {
        lemma_fit_concat(array@.sections, lines_of(*fact));
    }
    if let Some(f) = fact {
        array.push_obj(f);
    } else {
        assert(array@.sections + lines_of(*fact) =~= array@.sections);
    }
}

impl Machine {
    /// Whether the facts that are there can be shown.
    pub open spec fn fetchable(&self) -> bool {
        &&& self.cpu matches Some(cpu) ==> cpu.fetchable()
        &&& self.memory matches Some(memory) ==> memory.fetchable()
    }

    /// The lines of the report on the host: those of the operating
    /// system, the shell, the kernel, the model, the name of the host, the
    /// uptime, the processor, the memory, the platform profile, the power
    /// profile, the disk and the battery, in this order.
    pub open spec fn lines_view(&self) -> Seq<LineView> {
        lines_of(self.os) + lines_of(self.shell) + lines_of(self.kernel) + lines_of(self.model)
            + lines_of(self.hostname) + lines_of(self.uptime) + lines_of(self.cpu) + lines_of(
            self.memory,
        ) + lines_of(self.platform) + lines_of(self.ppd) + lines_of(self.disk) + lines_of(
            self.battery,
        )
    }

    /// The colour of the host's names: that of its operating system.
    pub open spec fn colour_view(&self) -> Option<Seq<char>> {
        match self.os {
            Some(os) => option_view(os.color),
            None => None,
        }
    }

    /// The report on the host as sequences of characters.
    pub open spec fn report_view(&self) -> ArrayView {
        ArrayView { sections: self.lines_view(), colour: self.colour_view() }
    }

    /// The text that shows the host: the report and, in a line of their
    /// own below it, the swatches, which start in the column in which the
    /// texts of the report start.
    pub open spec fn text_view(&self) -> Seq<char> {
        flat_text(self.report_view()) + seq!['\n'] + colourblocks_text(
            flat_indent(self.lines_view()) + 2,
            SWATCHES as nat,
            SWATCHES_PER_LINE as nat,
        )
    }

    /// The colour in which the names of the report are shown: the colour
    /// of the operating system, where the system is known and has one.
    pub fn colour(&self) -> (colour: Option<String>)
        ensures
            option_view(colour) == self.colour_view(),
    {
        match &self.os {
            Some(os) => os.color.clone(),
            None => None,
        }
    }

    /// The report on the host: the lines of the facts that are there, in
    /// the order of `lines_view`, in the colour of the operating system.
    pub fn to_array(&self) -> (array: Array)
        requires
            self.fetchable(),
        ensures
            array@ == self.report_view(),
            names_fit(array@.sections),
    {
        let mut array = Array::new();
        array.set_colour(self.colour());
        proof {
            lemma_names();
        }
        push_fact(&mut array, &self.os);
        push_fact(&mut array, &self.shell);
        push_fact(&mut array, &self.kernel);
        push_fact(&mut array, &self.model);
        push_fact(&mut array, &self.hostname);
        push_fact(&mut array, &self.uptime);
        push_fact(&mut array, &self.cpu);
        push_fact(&mut array, &self.memory);
        push_fact(&mut array, &self.platform);
        push_fact(&mut array, &self.ppd);
        push_fact(&mut array, &self.disk);
        push_fact(&mut array, &self.battery);
        array
    }

    /// Whether the facts that are there can be shown.
    pub fn is_fetchable(&self) -> (fetchable: bool)
        ensures
            fetchable == self.fetchable(),
    {
        let cpu = match &self.cpu {
            Some(cpu) => cpu.cores.len() > 0,
            None => true,
        };
        let memory = match &self.memory {
            Some(memory) => memory.is_displayable(),
            None => true,
        };
        cpu && memory
    }

    /// The text that shows the host, where its facts can be shown.
    pub fn try_to_string(&self) -> (text: Option<String>)
        ensures
            text is Some <==> self.fetchable(),
            text matches Some(t) ==> t@ == self.text_view(),
    {
        if self.is_fetchable() {
            Some(self.to_string())
        } else {
            None
        }
    }

    /// The text that shows the host: the report and the swatches.
    pub fn to_string(&self) -> (text: String)
        requires
            self.fetchable(),
        ensures
            text@ == self.text_view(),
    {
        let array = self.to_array();
        let indent = array.get_indent();
        proof {
            lemma_names();
            lemma_indent_fits(self.lines_view());
        }
        let margin = indent + SEPARATOR.as_bytes().len();
        let mut text = array.render();
        text.push('\n');
        let blocks = colourblocks(margin, SWATCHES, SWATCHES_PER_LINE);
        text.append(blocks.as_str());
        text
    }
}

} // verus!
