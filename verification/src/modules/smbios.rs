//! Memory modules as the tables of the firmware describe them.
use vstd::prelude::*;
use crate::chars::{str_trim, trim};
use crate::error::Error;
use crate::text::option_view;
use crate::{KIBIBYTE, MEBIBYTE};

verus! {

/// The speed that a table gives for a module.
pub enum MemorySpeed {
    /// The speed is not known.
    Unknown,
    /// The speed is too large for this field and stands in another one.
    SeeExtendedSpeed,
    /// The speed in megatransfers per second.
    MTs(u16),
}

/// The size that a table gives for a module.
pub enum MemorySize {
    /// No module sits in the socket.
    NotInstalled,
    /// The size is not known.
    Unknown,
    /// The size is too large for this field and stands in the extended
    /// size.
    SeeExtendedSize,
    /// The size in kibibytes.
    Kilobytes(u16),
    /// The size in mebibytes.
    Megabytes(u16),
}

/// The extended size that a table gives for a module.
pub enum MemorySizeExtended {
    /// The size in mebibytes.
    Megabytes(u32),
    /// The size stands in the size.
    SeeSize,
}

/// What one entry of the table tells of a memory module, each part as
/// far as the entry has it.
pub struct TableEntry {
    pub speed: Option<MemorySpeed>,
    pub locator: Option<String>,
    pub part_number: Option<String>,
    pub manufacturer: Option<String>,
    pub size: Option<MemorySize>,
    pub extended_size: Option<MemorySizeExtended>,
    pub memory_type: Option<String>,
}

/// A memory module: its speed in megatransfers per second, its part
/// number, the place where it sits, its maker, its size in bytes and its
/// type.
pub struct MemDevice {
    pub speed: Option<u64>,
    pub part_number: Option<String>,
    pub location: String,
    pub manufacturer: Option<String>,
    pub size: Option<u64>,
    pub mem_type: Option<String>,
}

/// A memory module as numbers and sequences of characters.
pub struct MemDeviceView {
    pub speed: Option<u64>,
    pub part_number: Option<Seq<char>>,
    pub location: Seq<char>,
    pub manufacturer: Option<Seq<char>>,
    pub size: Option<u64>,
    pub mem_type: Option<Seq<char>>,
}

impl View for MemDevice {
    type V = MemDeviceView;

    open spec fn view(&self) -> MemDeviceView {
        MemDeviceView {
            speed: self.speed,
            part_number: option_view(self.part_number),
            location: self.location@,
            manufacturer: option_view(self.manufacturer),
            size: self.size,
            mem_type: option_view(self.mem_type),
        }
    }
}

/// `text` in upper case, as `str::to_uppercase` gives it.
pub uninterp spec fn uppercase(text: Seq<char>) -> Seq<char>;

/// `str::to_uppercase`: the text with each character replaced by its
/// upper case form. The contract gives the result its name, `uppercase`,
/// and says nothing else of it.
#[verifier::external_body]
fn to_uppercase(text: &str) -> (upper: String)
    ensures
        upper@ == uppercase(text@),
{
    text.to_uppercase()
}

/// The speed of a module in megatransfers per second, where the table
/// gives one.
pub open spec fn speed_of(speed: Option<MemorySpeed>) -> Option<u64> {
    match speed {
        Some(MemorySpeed::MTs(s)) => Some(s as u64),
        _ => None,
    }
}

/// The size of a module in bytes, where the table gives one: the size
/// itself or, where the size points there, the extended size.
pub open spec fn size_of(size: Option<MemorySize>, extended: Option<MemorySizeExtended>) -> Option<
    u64,
> {
    match size {
        Some(MemorySize::Kilobytes(d)) => Some((d * KIBIBYTE) as u64),
        Some(MemorySize::Megabytes(d)) => Some((d * MEBIBYTE) as u64),
        Some(MemorySize::SeeExtendedSize) => match extended {
            Some(MemorySizeExtended::Megabytes(d)) => Some((d * MEBIBYTE) as u64),
            _ => None,
        },
        _ => None,
    }
}

/// The module that an entry describes: the entry must tell where the
/// module sits. The part number stands without the white space around it
/// and the type in upper case.
pub open spec fn device_of(entry: TableEntry) -> Option<MemDeviceView> {
    match entry.locator {
        Some(place) => Some(
            MemDeviceView {
                speed: speed_of(entry.speed),
                part_number: match entry.part_number {
                    Some(part) => Some(trim(part@)),
                    None => None,
                },
                location: place@,
                manufacturer: option_view(entry.manufacturer),
                size: size_of(entry.size, entry.extended_size),
                mem_type: match entry.memory_type {
                    Some(kind) => Some(uppercase(kind@)),
                    None => None,
                },
            },
        ),
        None => None,
    }
}

/// The modules that the entries describe, in the order of the entries; an
/// entry that does not tell where its module sits describes none.
pub open spec fn devices_of(entries: Seq<TableEntry>) -> Seq<MemDeviceView>
    decreases entries.len(),
{
    if entries.len() == 0 {
        Seq::empty()
    } else {
        let rest = devices_of(entries.drop_last());
        match device_of(entries.last()) {
            Some(device) => rest.push(device),
            None => rest,
        }
    }
}

/// Whether the speed of an entry can be read: it does not stand in the
/// field for extended speeds.
pub open spec fn speed_readable(entry: TableEntry) -> bool {
    !(entry.speed matches Some(MemorySpeed::SeeExtendedSpeed))
}

/// The views of a sequence of modules, in the same order.
pub open spec fn device_views(devices: Seq<MemDevice>) -> Seq<MemDeviceView> {
    Seq::new(devices.len(), |i: int| devices[i]@)
}

impl MemDevice {
    /// The modules that the entries of a table describe.
    pub fn from_smbios_data(entries: Vec<TableEntry>) -> (devices: Vec<MemDevice>)
        requires
            forall|i: int| 0 <= i < entries@.len() ==> speed_readable(#[trigger] entries@[i]),
        ensures
            device_views(devices@) == devices_of(entries@),
    {
        let ghost all = entries@;
        let mut vec: Vec<MemDevice> = Vec::new();
        for dev in it: entries
            invariant
                it.seq() == all,
                forall|k: int| 0 <= k < all.len() ==> speed_readable(#[trigger] all[k]),
                device_views(vec@) == devices_of(all.take(it.index())),
        {
            let ghost before = device_views(vec@);
            let ghost j = it.index();
            assert(all.take(j + 1).drop_last() =~= all.take(j));
            if let Ok(d) = MemDevice::try_from_entry(dev) {
                vec.push(d);
                assert(device_views(vec@) =~= before.push(d@));
            }
        }
        assert(all.take(all.len() as int) =~= all);
        vec
    }

    /// The module that an entry describes. An entry that does not tell
    /// where its module sits describes none.
    pub fn try_from_entry(dev: TableEntry) -> (device: Result<MemDevice, Error>)
        requires
            speed_readable(dev),
        ensures
            match device_of(dev) {
                Some(d) => device matches Ok(found) && found@ == d,
                None => device == Err::<MemDevice, Error>(Error::IsNone),
            },
    {
        let speed = match dev.speed {
            Some(v) => match v {
                MemorySpeed::MTs(s) => Some(s as u64),
                MemorySpeed::Unknown => None,
                MemorySpeed::SeeExtendedSpeed => None,
            },
            None => None,
        };
        let location = match dev.locator {
            Some(v) => v,
            None => {
                return Err(Error::IsNone);
            },
        };
        let part_number = match dev.part_number {
            Some(s) => Some(str_trim(s.as_str())),
            None => None,
        };
        let size = match dev.size {
            Some(MemorySize::Kilobytes(d)) => Some(d as u64 * KIBIBYTE),
            Some(MemorySize::Megabytes(d)) => Some(d as u64 * MEBIBYTE),
            Some(MemorySize::SeeExtendedSize) => match dev.extended_size {
                Some(MemorySizeExtended::Megabytes(d)) => Some(d as u64 * MEBIBYTE),
                _ => None,
            },
            _ => None,
        };
        let mem_type = match dev.memory_type {
            Some(v) => Some(to_uppercase(v.as_str())),
            None => None,
        };
        Ok(MemDevice { speed, part_number, location, manufacturer: dev.manufacturer, size, mem_type })
    }
}

} // verus!
