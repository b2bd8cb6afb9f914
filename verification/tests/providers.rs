use ironfetch::error::Error;
use ironfetch::fetch::Fetch;
use ironfetch::fetchline::Fetchline;
use ironfetch::modules::battery::{Battery, BatteryState};
use ironfetch::modules::cpu::{Core, Cpu};
use ironfetch::modules::disk::Disk;
use ironfetch::modules::hostname::HostName;
use ironfetch::modules::kernel::Kernel;
use ironfetch::modules::model::Model;
use ironfetch::modules::osinfo::OsInfo;
use ironfetch::modules::platform::{read_product_info, Profile};
use ironfetch::modules::ppd::Ppd;
use ironfetch::modules::shell::Shell;
use ironfetch::modules::uptime::Uptime;
use ironfetch::{GIGABYTE, TERABYTE};

#[test]
fn disk_test_tb() {
    let disk = Disk { capacity: TERABYTE };
    let display = disk.to_string();
    let desired = "1.0 TB";
    assert_eq!(&display, desired);
}

#[test]
fn disk_test_gb() {
    let disk = Disk {
        capacity: 100 * GIGABYTE,
    };
    let display = disk.to_string();
    let desired = "100.0 GB";
    assert_eq!(&display, desired);
}

#[test]
fn disk_switches_units_at_one_terabyte() {
    assert_eq!(Disk { capacity: TERABYTE - 1 }.to_string(), "1000.0 GB");
    assert_eq!(Disk { capacity: 999_949_999_999 }.to_string(), "999.9 GB");
    assert_eq!(Disk { capacity: TERABYTE + 1 }.to_string(), "1.0 TB");
    assert_eq!(Disk { capacity: 0 }.to_string(), "0.0 GB");
    assert_eq!(Disk { capacity: 512_110_190_592 }.to_string(), "512.1 GB");
    assert_eq!(Disk { capacity: 2_000_398_934_016 }.to_string(), "2.0 TB");
    assert_eq!(Disk { capacity: u64::MAX }.to_string(), "18446744.1 TB");
}

#[test]
fn disk_rounds_halves_to_even() {
    assert_eq!(Disk { capacity: 250_000_000 }.to_string(), "0.2 GB");
    assert_eq!(Disk { capacity: 350_000_000 }.to_string(), "0.4 GB");
    assert_eq!(Disk { capacity: 250_000_001 }.to_string(), "0.3 GB");
}

#[test]
fn disk_counts_each_drive_once() {
    let drives = vec![
        (String::from("sda"), 500),
        (String::from("nvme"), 1000),
        (String::from("sda"), 700),
    ];
    assert_eq!(Disk::new(&drives).capacity, 1700);
    assert_eq!(Disk::new(&Vec::new()).capacity, 0);
    assert_eq!(Fetch::name(&Disk { capacity: 1 }), "Disk");
}

#[test]
fn uptime_names_each_unit() {
    assert_eq!(Uptime(0).to_string(), "");
    assert_eq!(Uptime(1).to_string(), "1 second");
    assert_eq!(Uptime(59).to_string(), "59 seconds");
    assert_eq!(Uptime(61).to_string(), "1 minute, 1 second");
    assert_eq!(Uptime(3600).to_string(), "1 hour, ");
    assert_eq!(Uptime(86400 * 2 + 3600 * 3 + 60 * 4 + 5).to_string(), "2 days, 3 hours, 4 minutes, 5 seconds");
    assert_eq!(Uptime(86400 + 5).to_string(), "1 day, 5 seconds");
    assert_eq!(Fetch::name(&Uptime(5)), "Uptime");
    assert_eq!(Fetch::content(&Uptime(5)), "5 seconds");
}

#[test]
fn kernel_needs_all_three_texts() {
    let kernel = Kernel::new(
        Some(String::from("6.9.1")),
        Some(String::from("x86_64")),
        Some(String::from("Linux")),
    );
    let kernel = match kernel {
        Ok(k) => k,
        Err(_) => panic!("a kernel was expected"),
    };
    assert_eq!(kernel.to_string(), "Linux 6.9.1 x86_64");
    assert_eq!(Fetch::name(&kernel), "Kernel");
    assert!(matches!(Kernel::new(None, Some(String::new()), Some(String::new())), Err(Error::OsStr)));
    assert!(matches!(Kernel::new(Some(String::new()), None, Some(String::new())), Err(Error::OsStr)));
    assert!(matches!(Kernel::new(Some(String::new()), Some(String::new()), None), Err(Error::OsStr)));
    assert!(matches!(Kernel::os_str_to_string(None), Err(Error::OsStr)));
}

#[test]
fn model_leaves_out_the_placeholder_product() {
    let model = Model::new("System Product Name\n", "ASUSTeK COMPUTER INC.\n", "PRIME B550\n");
    assert!(model.product_name.is_none());
    assert_eq!(model.to_string(), "ASUSTeK COMPUTER INC. PRIME B550");
    let model = Model::new("20XW\n", "LENOVO\n", "20XWCTO1WW\n");
    assert_eq!(model.product_name.as_deref(), Some("20XW"));
    assert_eq!(model.to_string(), "LENOVO 20XW 20XWCTO1WW");
    assert_eq!(Fetch::name(&model), "Model");
}

#[test]
fn read_product_info_drops_the_newline() {
    assert_eq!(read_product_info("balanced\n"), "balanced");
    assert_eq!(read_product_info("a\nb\n"), "ab");
    assert_eq!(read_product_info(""), "");
}

#[test]
fn os_prefers_the_build_id() {
    let os = OsInfo::new(
        String::from("Arch Linux"),
        Some("\"rolling\""),
        String::from("1"),
        Some("\"38;2;23;147;209\""),
        String::from("n/a"),
    );
    assert_eq!(os.build_id, "rolling");
    assert_eq!(os.color.as_deref(), Some("38;2;23;147;209"));
    assert_eq!(os.to_string(), "Arch Linux rolling (n/a)");
    let os = OsInfo::new(String::from("Fedora"), None, String::from("40"), None, String::from("forty"));
    assert_eq!(os.build_id, "40");
    assert!(os.color.is_none());
    assert_eq!(os.to_string(), "Fedora 40 (forty)");
    assert_eq!(Fetch::name(&os), "OS");
    let os = OsInfo::new(String::new(), Some("a\"b\"c"), String::new(), Some("\"\"1\"2\"\""), String::new());
    assert_eq!(os.build_id, "abc");
    assert_eq!(os.color.as_deref(), Some("1\"2"));
}

#[test]
fn profile_marks_every_occurrence() {
    let profile = Profile::new("quiet\n", "quiet balanced quiet\n");
    assert_eq!(profile.current, "quiet");
    assert_eq!(profile.to_string(), "[quiet] balanced [quiet]");
    let profile = Profile { current: String::from("missing"), choices: String::from("a b") };
    assert_eq!(profile.to_string(), "a b");
    let profile = Profile { current: String::new(), choices: String::from("ab") };
    assert_eq!(profile.to_string(), "[]a[]b[]");
    assert_eq!(Fetch::name(&profile), "Platform");
}

#[test]
fn ppd_joins_the_profiles() {
    let ppd = Ppd::new(
        String::from("balanced"),
        vec![String::from("power-saver"), String::from("balanced"), String::from("performance")],
    );
    assert_eq!(ppd.choices, "power-saver balanced performance");
    assert_eq!(ppd.to_string(), "power-saver [balanced] performance");
    assert_eq!(Ppd::new(String::from("x"), vec![]).choices, "");
    assert_eq!(Fetch::name(&ppd), "Ppd");
}

#[test]
fn shell_name_is_the_final_component() {
    let name = |path: &str| Shell::new(String::from(path)).name().ok();
    assert_eq!(name("/bin/bash").as_deref(), Some("bash"));
    assert_eq!(name("/usr/bin/").as_deref(), Some("bin"));
    assert_eq!(name("tmp/foo.txt").as_deref(), Some("foo.txt"));
    assert_eq!(name("foo.txt/.").as_deref(), Some("foo.txt"));
    assert_eq!(name("foo.txt/.//").as_deref(), Some("foo.txt"));
    assert_eq!(name("zsh").as_deref(), Some("zsh"));
    assert_eq!(name("./fish").as_deref(), Some("fish"));
    assert_eq!(name("a/..b").as_deref(), Some("..b"));
    assert_eq!(name("foo.txt/.."), None);
    assert_eq!(name("/"), None);
    assert_eq!(name(""), None);
    assert_eq!(name("."), None);
    assert_eq!(name(".."), None);
    assert_eq!(name("//"), None);
    assert!(matches!(Shell::new(String::from("/")).name(), Err(Error::OsStr)));
}

#[test]
fn shell_name_agrees_with_the_path_type() {
    for path in ["/bin/bash", "/usr/bin/", "a/b/./", "..", "x/..", "", "/", "./.", "a//b", ".hidden", "a/..."] {
        let expected = std::path::Path::new(path).file_name().map(|n| n.to_string_lossy().to_string());
        assert_eq!(Shell::new(String::from(path)).name().ok(), expected);
    }
}

#[test]
fn shell_shows_its_name_or_nothing() {
    let shell = Shell::new(String::from("/usr/bin/zsh"));
    assert_eq!(shell.version, "");
    assert_eq!(shell.to_string(), "zsh");
    assert_eq!(Shell::new(String::from("/")).to_string(), "");
    assert_eq!(Fetch::name(&shell), "Shell");
}

#[test]
fn hostname_is_shown_as_it_is() {
    assert_eq!(HostName(String::from("box")).to_string(), "box");
}

#[test]
fn battery_without_state_and_charge_is_no_battery() {
    assert!(Battery::new(0, BatteryState::Unknown).is_none());
    assert!(Battery::new(1, BatteryState::Unknown).is_some());
    assert!(Battery::new(0, BatteryState::Empty).is_some());
}

#[test]
fn battery_shows_state_and_whole_percent() {
    let show = |percentage: u64, state: BatteryState| Battery { percentage, state }.to_string();
    assert_eq!(show(6700, BatteryState::Discharging), "Discharging at 67%");
    assert_eq!(show(10000, BatteryState::FullyCharged), "Fully Charged at 100%");
    assert_eq!(show(9950, BatteryState::Charging), "Charging at 100%");
    assert_eq!(show(9949, BatteryState::PendingCharge), "Pending Charge at 99%");
    assert_eq!(show(50, BatteryState::PendingDischarge), "Pending Discharge at 0%");
    assert_eq!(show(150, BatteryState::Empty), "Empty at 2%");
    assert_eq!(show(0, BatteryState::Unknown), "Unknown at 0%");
    assert_eq!(Fetch::name(&Battery { percentage: 0, state: BatteryState::Empty }), "Battery");
}

#[test]
fn battery_state_codes_round_trip() {
    for code in 0..7u32 {
        let state = BatteryState::from_code(code);
        assert_eq!(state.map(|s| s.code()), Some(code));
    }
    assert_eq!(BatteryState::from_code(2), Some(BatteryState::Discharging));
    assert_eq!(BatteryState::from_code(7), None);
    assert_eq!(BatteryState::FullyCharged.to_string(), "Fully Charged");
}

fn a_core(frequency: Option<u64>, id: Option<&str>, model: Option<&str>) -> Core {
    Core::new(frequency, id, model)
}

#[test]
fn cpu_counts_cores() {
    let cpu = Cpu {
        cores: vec![
            a_core(Some(3_400_000), Some("0"), Some("AMD Ryzen 7 5800X 8-Core Processor")),
            a_core(Some(3_600_000), Some("0"), None),
            a_core(None, Some("1"), None),
            a_core(Some(2_000_001), Some("1"), None),
        ],
    };
    assert_eq!(cpu.logical_core_count(), 4);
    assert_eq!(cpu.physical_core_count(), Some(2));
    assert_eq!(cpu.frequency_avg(), Some(3_000_000));
    assert_eq!(cpu.model(), "AMD Ryzen 7 5800X 8-Core Processor");
    assert_eq!(cpu.to_string(), "AMD Ryzen 7 5800X 8-Core Processor (4/2) @ 3.000 GHz");
    assert_eq!(Fetch::name(&cpu), "CPU");
}

#[test]
fn cpu_without_ids_or_clocks() {
    let cpu = Cpu {
        cores: vec![a_core(None, None, Some("  Intel(R) Core(TM) i7 CPU @ 2.80GHz")), a_core(None, Some("1"), None)],
    };
    assert_eq!(cpu.physical_core_count(), None);
    assert_eq!(cpu.frequency_avg(), None);
    assert_eq!(cpu.model(), "Intel(R) Core(TM) i7 CPU");
    assert_eq!(cpu.to_string(), "Intel(R) Core(TM) i7 CPU (2)");
    let cpu = Cpu { cores: vec![a_core(Some(1_234_567), Some("x"), None)] };
    assert_eq!(cpu.cores[0].id, None);
    assert_eq!(cpu.to_string(), "Unknown Model (1) @ 1.235 GHz");
    assert_eq!(Cpu { cores: vec![] }.physical_core_count(), Some(0));
    assert_eq!(Cpu { cores: vec![] }.logical_core_count(), 0);
}

#[test]
fn cpu_mean_clock_rounds_halves_to_even() {
    let cpu = |clocks: &[u64]| Cpu { cores: clocks.iter().map(|c| a_core(Some(*c), None, None)).collect() };
    assert_eq!(cpu(&[1, 2]).frequency_avg(), Some(2));
    assert_eq!(cpu(&[2, 3]).frequency_avg(), Some(2));
    assert_eq!(cpu(&[u64::MAX, u64::MAX]).frequency_avg(), Some(u64::MAX));
    assert_eq!(cpu(&[1, 1, 2]).frequency_avg(), Some(1));
}

#[test]
fn core_id_is_read_as_a_number() {
    assert_eq!(a_core(None, Some("12"), None).id, Some(12));
    assert_eq!(a_core(None, Some("+7"), None).id, Some(7));
    assert_eq!(a_core(None, Some(" 7"), None).id, None);
    assert_eq!(a_core(None, Some(""), None).id, None);
    assert_eq!(a_core(None, None, None).id, None);
}

#[test]
fn gen_fetchline_joins_what_is_there() {
    let model = Model::new("x", "y", "z");
    assert_eq!(
        model.gen_fetchline(vec![Some(String::from("a")), None, Some(String::from("b")), Some(String::from("c"))]),
        "a b c"
    );
    assert_eq!(model.gen_fetchline(vec![None, Some(String::from("b")), None]), "b");
    assert_eq!(model.gen_fetchline(vec![None, None]), "");
    assert_eq!(model.gen_fetchline(vec![]), "");
}
