use ironfetch::error::Error;
use ironfetch::fetch::{Array, Fetch};
use ironfetch::fetcharray::FetchArray;
use ironfetch::fetchitem::{long_section, short_section, FetchItem};
use ironfetch::memunit::MemUnits;
use ironfetch::modules::memory::{
    avg_frequency, display_mem_unit, distinct_strings, print_strings, sum_frequency, MemDevice,
    MemStats, Memory,
};
use ironfetch::modules::uptime::Uptime;
use ironfetch::{GIBIBYTE, MEBIBYTE};

fn device(pairs: &[(&str, &str)]) -> MemDevice {
    MemDevice {
        properties: pairs.iter().map(|x| (x.0.to_string(), x.1.to_string())).collect(),
    }
}

fn zeros() -> MemStats {
    MemStats { total: 0, free: 0, avail: 0, buffers: 0, cached: 0, swap_total: 0, swap_free: 0 }
}

fn two_devices() -> Vec<MemDevice> {
    let device1 = device(&[
        ("FORM_FACTOR", "SODIMM"),
        ("TYPE_DETAIL", "Synchronous Unbuffered (Unregistered)"),
        ("TYPE", "DDR4"),
        ("PART_NUMBER", "TIMETEC-SD4-2666"),
        ("ASSET_TAG", "00221200"),
        ("CONFIGURED_VOLTAGE", "1"),
        ("CONFIGURED_SPEED_MTS", "2667"),
        ("BANK_LOCATOR", "BANK 0"),
        ("RANK", "2"),
        ("DATA_WIDTH", "64"),
        ("SIZE", "34359738368"),
        ("MINIMUM_VOLTAGE", "1"),
        ("SPEED_MTS", "2667"),
        ("LOCATOR", "DIMM A"),
        ("TOTAL_WIDTH", "64"),
        ("MAXIMUM_VOLTAGE", "1"),
        ("SERIAL_NUMBER", "00000000"),
        ("MANUFACTURER", "8C260000802C"),
    ]);
    let device2 = device(&[
        ("MANUFACTURER", "8C260000802C"),
        ("TYPE", "DDR4"),
        ("BANK_LOCATOR", "BANK 2"),
        ("CONFIGURED_VOLTAGE", "1"),
        ("RANK", "2"),
        ("FORM_FACTOR", "SODIMM"),
        ("LOCATOR", "DIMM B"),
        ("MAXIMUM_VOLTAGE", "1"),
        ("TYPE_DETAIL", "Synchronous Unbuffered (Unregistered)"),
        ("MINIMUM_VOLTAGE", "1"),
        ("CONFIGURED_SPEED_MTS", "2667"),
        ("SIZE", "34359738368"),
        ("DATA_WIDTH", "64"),
        ("SPEED_MTS", "2667"),
        ("ASSET_TAG", "00221200"),
        ("TOTAL_WIDTH", "64"),
        ("PART_NUMBER", "TIMETEC-SD4-2666"),
        ("SERIAL_NUMBER", "00000000"),
    ]);
    vec![device1, device2]
}

#[test]
fn mod_test_display() {
    let mem = Memory {
        devices: Some(two_devices()),
        display_unit: None,
        meminfo: zeros(),
    };

    let display = mem.to_string();
    let desired = "0.00GiB / 0.00GiB DDR4 (SODIMM) @ 2667 MHz";
    assert_eq!(&display, desired);
}

#[test]
fn memory_amounts_have_two_decimals() {
    let stats = MemStats::new(16_000_000, 1, 4_000_000, 2, 3, 8_388_608, 2_097_152);
    assert_eq!(stats.total, 16_384_000_000);
    assert_eq!(stats.free, 1024);
    assert_eq!(stats.buffers, 2048);
    assert_eq!(stats.cached, 3072);
    let mem = Memory { display_unit: None, meminfo: stats, devices: None };
    assert!(mem.is_displayable());
    assert_eq!(mem.used(), 12_288_000_000);
    assert_eq!(mem.swap_used(), 6 * GIBIBYTE);
    assert_eq!(mem.display(), "11.44GiB / 15.26GiB");
    assert_eq!(mem.display_gb(), "11.44GiB / 15.26GiB");
    assert_eq!(mem.display_mb(), "11718.75MiB / 15625.00MiB");
    assert_eq!(mem.display_swap(), "6.00GiB / 8.00GiB");
    assert_eq!(display_mem_unit(3 * MEBIBYTE / 2, 2 * MEBIBYTE, MEBIBYTE, "MiB"), "1.50MiB / 2.00MiB");
}

#[test]
fn memory_unit_chooses_the_display() {
    let stats = || MemStats { total: GIBIBYTE, free: 0, avail: GIBIBYTE / 2, buffers: 0, cached: 0, swap_total: 0, swap_free: 0 };
    let mib = Memory { display_unit: Some(MemUnits::MiB), meminfo: stats(), devices: None };
    assert_eq!(mib.to_string(), "512.00MiB / 1024.00MiB");
    let gib = Memory { display_unit: Some(MemUnits::GiB), meminfo: stats(), devices: None };
    assert_eq!(gib.to_string(), "0.50GiB / 1.00GiB");
}

#[test]
fn memory_that_cannot_be_shown_is_recognised() {
    let mut stats = zeros();
    stats.avail = 1;
    assert!(!Memory { display_unit: None, meminfo: stats, devices: None }.is_displayable());
    let mut stats = zeros();
    stats.swap_free = 1;
    assert!(!Memory { display_unit: None, meminfo: stats, devices: None }.is_displayable());
    let big = usize::MAX.to_string();
    let devices = vec![
        device(&[("CONFIGURED_SPEED_MTS", big.as_str())]),
        device(&[("CONFIGURED_SPEED_MTS", "1")]),
    ];
    assert!(!Memory { display_unit: None, meminfo: zeros(), devices: Some(devices) }.is_displayable());
    assert!(Memory { display_unit: None, meminfo: zeros(), devices: Some(two_devices()) }.is_displayable());
}

#[test]
fn memory_gives_two_lines() {
    let mem = Memory { display_unit: None, meminfo: zeros(), devices: None };
    let lines = mem.as_fetchlines();
    assert_eq!(lines.len(), 2);
    assert_eq!(lines[0].name, "Memory");
    assert_eq!(lines[0].content, "0.00GiB / 0.00GiB");
    assert_eq!(lines[1].name, "Swap");
    assert_eq!(lines[1].content, "0.00GiB / 0.00GiB");
    let mut array = Array::new();
    array.push_obj(&mem);
    assert_eq!(array.render(), "Memory: 0.00GiB / 0.00GiB\n  Swap: 0.00GiB / 0.00GiB");
}

#[test]
fn device_properties_are_looked_up_by_name() {
    let dev = device(&[("TYPE", "DDR4"), ("CONFIGURED_SPEED_MTS", "3200"), ("TYPE", "DDR5"), ("FORM_FACTOR", "DIMM")]);
    assert_eq!(dev.get_type().as_deref(), Some("DDR5"));
    assert_eq!(dev.form_factor().as_deref(), Some("DIMM"));
    assert_eq!(dev.frequency(), Some(3200));
    assert_eq!(dev.manufactuer(), None);
    assert_eq!(dev.pull_value("NONE"), None);
    assert_eq!(device(&[("CONFIGURED_SPEED_MTS", "fast")]).frequency(), None);
}

fn properties() -> Vec<(String, String)> {
    [
        ("MEMORY_ARRAY_LOCATION", "Motherboard"),
        ("MEMORY_DEVICE_0_TYPE", "DDR4"),
        ("MEMORY_ARRAY_NUM_DEVICES", "2"),
        ("MEMORY_DEVICE_1_TYPE", "DDR5"),
        ("MEMORY_DEVICE_0_FORM_FACTOR", "SODIMM"),
        ("MEMORY_DEVICE_10_TYPE", "LPDDR"),
        ("MEMORY_DEVICE_1_CONFIGURED_SPEED_MTS", "3200"),
        ("MEMORY_DEVICE_0_CONFIGURED_SPEED_MTS", "2133"),
    ]
    .iter()
    .map(|x| (x.0.to_string(), x.1.to_string()))
    .collect()
}

#[test]
fn memory_devices_are_read_from_the_properties() {
    let dev = MemDevice::new(1, &properties());
    assert_eq!(
        dev.properties,
        vec![
            (String::from("TYPE"), String::from("DDR5")),
            (String::from("CONFIGURED_SPEED_MTS"), String::from("3200")),
        ]
    );
    let memory = match Memory::new(None, zeros(), &properties()) {
        Ok(m) => m,
        Err(_) => panic!("a memory was expected"),
    };
    let devices = memory.devices.as_ref().map(|d| d.len());
    assert_eq!(devices, Some(2));
    assert_eq!(memory.get_type(), vec![String::from("DDR4"), String::from("DDR5")]);
    assert_eq!(memory.get_formfactor(), vec![String::from("SODIMM")]);
    assert_eq!(memory.get_speed(), vec![2133, 3200]);
    assert_eq!(memory.to_string(), "0.00GiB / 0.00GiB DDR4, DDR5 (SODIMM) @ 2666 MHz");
}

#[test]
fn memory_without_a_count_of_devices_fails() {
    let none: Vec<(String, String)> = vec![(String::from("MEMORY_DEVICE_0_TYPE"), String::from("DDR4"))];
    assert!(matches!(Memory::new(None, zeros(), &none), Err(Error::OsStr)));
    assert!(matches!(Memory::new(None, zeros(), &Vec::new()), Err(Error::OsStr)));
    let bad = vec![(String::from("MEMORY_ARRAY_NUM_DEVICES"), String::from("two"))];
    assert!(matches!(Memory::new(None, zeros(), &bad), Err(Error::ParseInt)));
    let zero = vec![(String::from("MEMORY_ARRAY_NUM_DEVICES"), String::from("0"))];
    assert!(matches!(Memory::new(Some(MemUnits::MiB), zeros(), &zero), Ok(ref m) if m.devices.as_ref().map(|d| d.len()) == Some(0)));
}

#[test]
fn strings_are_listed_with_commas() {
    assert_eq!(print_strings(vec![]), None);
    assert_eq!(print_strings(vec![String::from("DDR4")]).as_deref(), Some("DDR4"));
    assert_eq!(
        print_strings(vec![String::from("a"), String::from("b"), String::from("c")]).as_deref(),
        Some("a, b, c")
    );
    assert_eq!(
        distinct_strings(vec![String::from("b"), String::from("a"), String::from("b"), String::from("c"), String::from("a")]),
        vec![String::from("b"), String::from("a"), String::from("c")]
    );
}

#[test]
fn frequencies_are_summed_and_averaged() {
    assert_eq!(sum_frequency(vec![]), 0);
    assert_eq!(sum_frequency(vec![1, 2, 3]), 6);
    assert_eq!(avg_frequency(vec![]), 0);
    assert_eq!(avg_frequency(vec![2666, 2667]), 2666);
    assert_eq!(avg_frequency(vec![3200]), 3200);
}

#[test]
fn memory_at_length_is_a_tree() {
    let stats = MemStats::new(33_554_432, 0, 8_388_608, 0, 0, 0, 0);
    let mut devices = two_devices();
    devices.push(device(&[("TYPE", "DDR4")]));
    devices.push(device(&[("LOCATOR", "DIMM C"), ("SIZE", "?")]));
    let mem = Memory { display_unit: None, meminfo: stats, devices: Some(devices) };
    assert_eq!(FetchItem::name(&mem), "Memory");
    assert_eq!(FetchItem::content(&mem), "24.00GiB / 32.00GiB DDR4 (SODIMM) @ 2667 MHz");
    let mut array = FetchArray::new();
    array.push(long_section(&mem));
    let expected = [
        "Memory:",
        "     Total: 32.00 GiB",
        "      Used: 24.00 GiB",
        " Available: 8.00 GiB",
        "   Devices:",
        "        DIMM A:",
        "      Manufacturer: 8C260000802C",
        "              Type: DDR4",
        "          Capacity: 32.00 GiB",
        "             Speed: 2667 MT/s",
        "            Part #: TIMETEC-SD4-2666",
        "        DIMM B:",
        "      Manufacturer: 8C260000802C",
        "              Type: DDR4",
        "          Capacity: 32.00 GiB",
        "             Speed: 2667 MT/s",
        "            Part #: TIMETEC-SD4-2666",
        "        DIMM C:",
    ]
    .join("\n");
    assert_eq!(array.render(), expected);
    let mut short = FetchArray::new();
    short.push(short_section(&mem));
    assert_eq!(short.render(), "Memory: 24.00GiB / 32.00GiB DDR4 (SODIMM) @ 2667 MHz");
}

#[test]
fn memory_at_length_without_devices_says_so() {
    let mem = Memory { display_unit: None, meminfo: zeros(), devices: None };
    let mut array = FetchArray::new();
    array.push(long_section(&mem));
    assert_eq!(
        array.render(),
        "Memory:\n     Total: 0.00 GiB\n      Used: 0.00 GiB\n Available: 0.00 GiB\n   Devices: Insufficient Permissions"
    );
}

#[test]
fn fact_without_long_content_is_shown_in_short() {
    let uptime = Uptime(65);
    assert_eq!(FetchItem::name(&uptime), "Uptime");
    assert!(uptime.long_content().is_none());
    let mut array = FetchArray::new();
    array.push(long_section(&uptime));
    array.push(short_section(&uptime));
    assert_eq!(array.render(), "Uptime: 1 minute, 5 seconds\nUptime: 1 minute, 5 seconds");
    assert_eq!(Fetch::name(&uptime), "Uptime");
}

fn properties_of_two_devices() -> Vec<(String, String)> {
    let mut all = vec![(String::from("MEMORY_ARRAY_NUM_DEVICES"), String::from("2"))];
    for (index, device) in two_devices().into_iter().enumerate() {
        for (name, value) in device.properties {
            all.push((format!("MEMORY_DEVICE_{index}_{name}"), value));
        }
    }
    all
}

#[test]
fn memory_test_display() {
    let devices = match Memory::new(None, zeros(), &properties_of_two_devices()) {
        Ok(memory) => memory.devices,
        Err(_) => panic!("a memory was expected"),
    };
    let mem = Memory {
        display_unit: None,
        devices,
        meminfo: MemStats {
            total: 0,
            free: 0,
            avail: 0,
            buffers: 0,
            cached: 0,
            swap_total: 0,
            swap_free: 0,
        },
    };

    let display = mem.to_string();
    let desired = "0.00GiB / 0.00GiB DDR4 (SODIMM) @ 2667 MHz";
    assert_eq!(&display, desired);
}
