use ironfetch::error::Error;
use ironfetch::modules::smbios::{
    MemDevice, MemorySize, MemorySizeExtended, MemorySpeed, TableEntry,
};
use ironfetch::GIBIBYTE;

fn first_entry() -> TableEntry {
    TableEntry {
        speed: Some(MemorySpeed::MTs(2667)),
        locator: Some(String::from("DIMM A")),
        part_number: Some(String::from("TIMETEC-SD4-2666  ")),
        manufacturer: Some(String::from("8C260000802C")),
        size: Some(MemorySize::SeeExtendedSize),
        extended_size: Some(MemorySizeExtended::Megabytes(32768)),
        memory_type: Some(String::from("Ddr4")),
    }
}

fn nothing() -> TableEntry {
    TableEntry {
        speed: None,
        locator: None,
        part_number: None,
        manufacturer: None,
        size: None,
        extended_size: None,
        memory_type: None,
    }
}

fn get_first_mem_device() -> MemDevice {
    let mut mem = MemDevice::from_smbios_data(vec![first_entry(), nothing()]);
    assert_eq!(mem.len(), 1);
    mem.remove(0)
}

#[test]
fn test_manufactuer() {
    let dev = get_first_mem_device();
    assert_eq!(dev.manufacturer, Some(String::from("8C260000802C")));
}

#[test]
fn test_part() {
    let dev = get_first_mem_device();
    assert_eq!(dev.part_number, Some(String::from("TIMETEC-SD4-2666")));
}

#[test]
fn test_type() {
    let dev = get_first_mem_device();
    assert_eq!(dev.mem_type, Some(String::from("DDR4")));
}

#[test]
fn test_capacity() {
    let dev = get_first_mem_device();
    assert_eq!(dev.size, Some(32 * GIBIBYTE));
}

#[test]
fn test_freq() {
    let dev = get_first_mem_device();
    assert_eq!(dev.speed, Some(2667));
}

#[test]
fn entry_without_a_place_describes_no_module() {
    let mut entry = first_entry();
    entry.locator = None;
    assert!(matches!(MemDevice::try_from_entry(entry), Err(Error::IsNone)));
    assert!(MemDevice::from_smbios_data(vec![nothing(), nothing()]).is_empty());
    assert!(MemDevice::from_smbios_data(Vec::new()).is_empty());
}

#[test]
fn entries_keep_their_order() {
    let mut second = first_entry();
    second.locator = Some(String::from("DIMM B"));
    let devices = MemDevice::from_smbios_data(vec![first_entry(), nothing(), second]);
    let places: Vec<&str> = devices.iter().map(|d| d.location.as_str()).collect();
    assert_eq!(places, vec!["DIMM A", "DIMM B"]);
}

#[test]
fn sizes_are_given_in_bytes() {
    let size = |size: Option<MemorySize>, extended: Option<MemorySizeExtended>| {
        let mut entry = first_entry();
        entry.size = size;
        entry.extended_size = extended;
        MemDevice::try_from_entry(entry).ok().and_then(|d| d.size)
    };
    assert_eq!(size(Some(MemorySize::Kilobytes(512)), None), Some(524_288));
    assert_eq!(size(Some(MemorySize::Megabytes(8192)), Some(MemorySizeExtended::Megabytes(1))), Some(8 * GIBIBYTE));
    assert_eq!(size(Some(MemorySize::Megabytes(u16::MAX)), None), Some(68_718_428_160));
    assert_eq!(size(Some(MemorySize::SeeExtendedSize), Some(MemorySizeExtended::Megabytes(u32::MAX))), Some(4_503_599_626_321_920));
    assert_eq!(size(Some(MemorySize::SeeExtendedSize), Some(MemorySizeExtended::SeeSize)), None);
    assert_eq!(size(Some(MemorySize::SeeExtendedSize), None), None);
    assert_eq!(size(Some(MemorySize::NotInstalled), Some(MemorySizeExtended::Megabytes(1))), None);
    assert_eq!(size(Some(MemorySize::Unknown), None), None);
    assert_eq!(size(None, Some(MemorySizeExtended::Megabytes(1))), None);
}

#[test]
fn speed_and_texts_are_optional() {
    let mut entry = nothing();
    entry.locator = Some(String::from(" A "));
    entry.speed = Some(MemorySpeed::Unknown);
    let dev = match MemDevice::try_from_entry(entry) {
        Ok(dev) => dev,
        Err(_) => panic!("a module was expected"),
    };
    assert_eq!(dev.location, " A ");
    assert_eq!(dev.speed, None);
    assert_eq!(dev.part_number, None);
    assert_eq!(dev.manufacturer, None);
    assert_eq!(dev.size, None);
    assert_eq!(dev.mem_type, None);
}
