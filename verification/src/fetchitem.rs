//! Facts that can be shown in short, as one line, or at length, as a
//! group of fields.
use vstd::prelude::*;
use crate::fetchsection::{section_views, ContentView, FetchSection, FetchType, SectionView};
use crate::modules::memory::{
    device_views, modules_of, parsed, property, MemDevice, Memory,
};
use crate::modules::uptime::{uptime_text, Uptime};
use crate::numbers::{fixed_point, push_fixed_point};
use crate::text::{decimal, push_decimal};
use crate::GIBIBYTE;

verus! {

/// What a provider of one fact about the host offers to a report that
/// can show facts at length: the name of the fact, its text and, where
/// the provider has more to tell, the fields that tell it.
pub trait FetchItem {
    /// Whether the fact can be shown.
    spec fn showable(&self) -> bool;

    /// The name under which the fact is reported.
    spec fn item_name(&self) -> Seq<char>;

    /// The text of the fact.
    spec fn item_content(&self) -> Seq<char>;

    /// The fields that tell the fact at length, where there are any.
    spec fn item_long_content(&self) -> Option<Seq<SectionView>>;

    fn name(&self) -> (name: String)
        ensures
            name@ == self.item_name(),
    ;

    fn content(&self) -> (content: String)
        requires
            self.showable(),
        ensures
            content@ == self.item_content(),
    ;

    fn long_content(&self) -> (fields: Option<Vec<FetchSection>>)
        requires
            self.showable(),
        ensures
            match fields {
                Some(f) => self.item_long_content() == Some(section_views(f@)),
                None => self.item_long_content() is None,
            },
    ;
}

/// The fact as a field that holds its text.
pub fn short_section<T: FetchItem>(item: &T) -> (section: FetchSection)
    requires
        item.showable(),
    ensures
        section@ == (SectionView {
            name: item.item_name(),
            content: ContentView::Short(item.item_content()),
        }),
{
    FetchSection { name: item.name(), content: FetchType::Short(item.content()) }
}

/// The fact as a field that tells it at length: a group of the fields of
/// its long content and, where it has none, its text.
pub fn long_section<T: FetchItem>(item: &T) -> (section: FetchSection)
    requires
        item.showable(),
    ensures
        section@ == (SectionView {
            name: item.item_name(),
            content: match item.item_long_content() {
                Some(fields) => ContentView::Long(fields),
                None => ContentView::Short(item.item_content()),
            },
        }),
{
    match item.long_content() {
        Some(fields) => FetchSection { name: item.name(), content: FetchType::Long(fields) },
        None => FetchSection { name: item.name(), content: FetchType::Short(item.content()) },
    }
}

impl FetchItem for Uptime {
    open spec fn showable(&self) -> bool {
        true
    }

    open spec fn item_name(&self) -> Seq<char> {
        "Uptime"@
    }

    open spec fn item_content(&self) -> Seq<char> {
        uptime_text(self.0 as nat)
    }

    open spec fn item_long_content(&self) -> Option<Seq<SectionView>> {
        None
    }

    fn name(&self) -> (name: String) {
        "Uptime".to_owned()
    }

    fn content(&self) -> (content: String) {
        self.to_string()
    }

    fn long_content(&self) -> (fields: Option<Vec<FetchSection>>) {
        None
    }
}

/// An amount of memory as it is shown at length: in gibibytes, with two
/// digits behind the point.
pub open spec fn gibibytes_text(bytes: nat) -> Seq<char> {
    fixed_point(bytes, GIBIBYTE as nat, 2) + " GiB"@
}

/// A field that holds `value`, and a field without a value where there
/// is none.
pub open spec fn optional_field(name: Seq<char>, value: Option<Seq<char>>) -> SectionView {
    SectionView {
        name,
        content: match value {
            Some(text) => ContentView::Short(text),
            None => ContentView::Absent,
        },
    }
}

/// The capacity of a module as it is shown, where the module tells its
/// size as a number of bytes.
pub open spec fn capacity_of(properties: Seq<(Seq<char>, Seq<char>)>) -> Option<Seq<char>> {
    match property(properties, "SIZE"@) {
        Some(size) => match parsed(size) {
            Some(bytes) => Some(gibibytes_text(bytes as nat)),
            None => None,
        },
        None => None,
    }
}

/// The speed of a module as it is shown, where the module tells it.
pub open spec fn speed_of(properties: Seq<(Seq<char>, Seq<char>)>) -> Option<Seq<char>> {
    match property(properties, "CONFIGURED_SPEED_MTS"@) {
        Some(speed) => match parsed(speed) {
            Some(n) => Some(decimal(n as nat) + " MT/s"@),
            None => None,
        },
        None => None,
    }
}

/// The fields that describe a module: its maker, its type, its capacity,
/// its speed and its part number, each without a value where the module
/// does not tell it.
pub open spec fn device_fields(properties: Seq<(Seq<char>, Seq<char>)>) -> Seq<SectionView> {
    seq![
        optional_field("Manufacturer"@, property(properties, "MANUFACTURER"@)),
        optional_field("Type"@, property(properties, "TYPE"@)),
        optional_field("Capacity"@, capacity_of(properties)),
        optional_field("Speed"@, speed_of(properties)),
        optional_field("Part #"@, property(properties, "PART_NUMBER"@)),
    ]
}

/// The groups that describe the modules which tell where they sit, each
/// under the name of its place, in the order of the modules.
pub open spec fn device_sections(devices: Seq<Seq<(Seq<char>, Seq<char>)>>) -> Seq<SectionView>
    decreases devices.len(),
{
    if devices.len() == 0 {
        Seq::empty()
    } else {
        let rest = device_sections(devices.drop_last());
        match property(devices.last(), "LOCATOR"@) {
            Some(place) => rest.push(
                SectionView { name: place, content: ContentView::Long(device_fields(devices.last())) },
            ),
            None => rest,
        }
    }
}

/// The fields that tell of a memory at length: the amounts in total, in
/// use and available, and the modules; where the firmware tells of no
/// modules, a text says so in their place.
pub open spec fn memory_fields(memory: Memory) -> Seq<SectionView> {
    seq![
        SectionView {
            name: "Total"@,
            content: ContentView::Short(gibibytes_text(memory.meminfo.total as nat)),
        },
        SectionView {
            name: "Used"@,
            content: ContentView::Short(
                gibibytes_text((memory.meminfo.total - memory.meminfo.avail) as nat),
            ),
        },
        SectionView {
            name: "Available"@,
            content: ContentView::Short(gibibytes_text(memory.meminfo.avail as nat)),
        },
        SectionView {
            name: "Devices"@,
            content: match memory.devices {
                Some(devices) => ContentView::Long(device_sections(device_views(devices@))),
                None => ContentView::Short("Insufficient Permissions"@),
            },
        },
    ]
}

/// An amount of memory in gibibytes.
fn gibibytes(bytes: u64) -> (text: String)
    ensures
        text@ == gibibytes_text(bytes as nat),
{
    let mut text = String::new();
    push_fixed_point(&mut text, bytes, GIBIBYTE, 2);
    text.append(" GiB");
    text
}

/// A field that holds `value`, and a field without a value where there
/// is none.
fn field_of(name: &str, value: Option<String>) -> (section: FetchSection)
    ensures
        section@ == optional_field(name@, crate::text::option_view(value)),
{
    match value {
        Some(text) => FetchSection { name: name.to_owned(), content: FetchType::Short(text) },
        None => FetchSection::new_absent(name),
    }
}

/// The fields that describe a module.
fn fields_of_device(device: &MemDevice) -> (fields: Vec<FetchSection>)
    ensures
        section_views(fields@) == device_fields(
            crate::modules::memory::pair_views(device.properties@),
        ),
{
    let capacity = match device.pull_value("SIZE") {
        Some(size) => match crate::numbers::parse_usize(size.as_str()) {
            Some(bytes) => Some(gibibytes(bytes as u64)),
            None => None,
        },
        None => None,
    };
    let speed = match device.frequency() {
        Some(n) => {
            let mut text = String::new();
            push_decimal(&mut text, n as u128);
            text.append(" MT/s");
            Some(text)
        },
        None => None,
    };
    let mut fields: Vec<FetchSection> = Vec::new();
    fields.push(field_of("Manufacturer", device.manufactuer()));
    fields.push(field_of("Type", device.get_type()));
    fields.push(field_of("Capacity", capacity));
    fields.push(field_of("Speed", speed));
    fields.push(field_of("Part #", device.pull_value("PART_NUMBER")));
    fields
}

impl FetchItem for Memory {
    open spec fn showable(&self) -> bool {
        self.displayable()
    }

    open spec fn item_name(&self) -> Seq<char> {
        "Memory"@
    }

    open spec fn item_content(&self) -> Seq<char> {
        self.memory_text()
    }

    open spec fn item_long_content(&self) -> Option<Seq<SectionView>> {
        Some(memory_fields(*self))
    }

    fn name(&self) -> (name: String) {
        "Memory".to_owned()
    }

    fn content(&self) -> (content: String) {
        self.display()
    }

    fn long_content(&self) -> (fields: Option<Vec<FetchSection>>) {
        let mut vec: Vec<FetchSection> = Vec::new();
        let total = gibibytes(self.meminfo.total);
        let used = gibibytes(self.used());
        let available = gibibytes(self.meminfo.avail);
        vec.push(FetchSection::new_short("Total", total.as_str()));
        vec.push(FetchSection::new_short("Used", used.as_str()));
        vec.push(FetchSection::new_short("Available", available.as_str()));
        if let Some(s) = &self.devices {
            let ghost views = device_views(s@);
            let mut devices: Vec<FetchSection> = Vec::new();
            let mut i: usize = 0;
            while i < s.len()
                invariant
                    i <= s.len(),
                    views == device_views(s@),
                    section_views(devices@) == device_sections(views.take(i as int)),
                decreases s.len() - i,
            {
                let ghost before = section_views(devices@);
                assert(views.take(i + 1).drop_last() =~= views.take(i as int));
                if let Some(place) = s[i].pull_value("LOCATOR") {
                    let group = FetchSection {
                        name: place,
                        content: FetchType::Long(fields_of_device(&s[i])),
                    };
                    devices.push(group);
                    assert(section_views(devices@) =~= before.push(group@));
                }
                i = i + 1;
            }
            assert(views.take(i as int) =~= views);
            vec.push(FetchSection::new_long("Devices", devices));
        } else {
            vec.push(FetchSection::new_short("Devices", "Insufficient Permissions"));
        }
        Some(vec)
    }
}

} // verus!
