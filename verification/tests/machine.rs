use ironfetch::ansi::strip_colours;
use ironfetch::colourblocks::colourblocks;
use ironfetch::machine::Machine;
use ironfetch::modules::battery::{Battery, BatteryState};
use ironfetch::modules::cpu::{Core, Cpu};
use ironfetch::modules::disk::Disk;
use ironfetch::modules::hostname::HostName;
use ironfetch::modules::kernel::Kernel;
use ironfetch::modules::memory::{MemStats, Memory};
use ironfetch::modules::model::Model;
use ironfetch::modules::osinfo::OsInfo;
use ironfetch::modules::platform::Profile;
use ironfetch::modules::ppd::Ppd;
use ironfetch::modules::shell::Shell;
use ironfetch::modules::uptime::Uptime;

fn nothing() -> Machine {
    Machine {
        kernel: None,
        cpu: None,
        memory: None,
        os: None,
        hostname: None,
        uptime: None,
        model: None,
        shell: None,
        platform: None,
        disk: None,
        battery: None,
        ppd: None,
    }
}

fn everything() -> Machine {
    Machine {
        kernel: Some(Kernel {
            release: String::from("6.9.1"),
            architecture: String::from("x86_64"),
            name: String::from("Linux"),
        }),
        cpu: Some(Cpu { cores: vec![Core::new(Some(3_000_000), Some("0"), Some("Ryzen @ 3GHz"))] }),
        memory: Some(Memory {
            display_unit: None,
            meminfo: MemStats::new(2_097_152, 0, 1_048_576, 0, 0, 1_048_576, 1_048_576),
            devices: None,
        }),
        os: Some(OsInfo::new(
            String::from("Arch Linux"),
            Some("rolling"),
            String::new(),
            Some("\"38;2;23;147;209\""),
            String::from("n/a"),
        )),
        hostname: Some(HostName(String::from("box"))),
        uptime: Some(Uptime(3661)),
        model: Some(Model::new("20XW\n", "LENOVO\n", "20XWCTO1WW\n")),
        shell: Some(Shell::new(String::from("/usr/bin/zsh"))),
        platform: Some(Profile::new("balanced\n", "low-power balanced performance\n")),
        disk: Some(Disk { capacity: 512_000_000_000 }),
        battery: Battery::new(8050, BatteryState::Charging),
        ppd: Some(Ppd::new(String::from("balanced"), vec![String::from("balanced")])),
    }
}

#[test]
fn machine_without_facts_shows_the_swatches_only() {
    let machine = nothing();
    assert!(machine.is_fetchable());
    assert_eq!(machine.colour(), None);
    assert_eq!(machine.to_array().render(), "");
    assert_eq!(machine.to_string(), format!("\n{}", colourblocks(2, 16, 8)));
}

#[test]
fn machine_reports_its_facts_in_order() {
    let machine = everything();
    assert!(machine.is_fetchable());
    assert_eq!(machine.colour().as_deref(), Some("38;2;23;147;209"));
    let array = machine.to_array();
    assert_eq!(array.get_indent(), 8);
    let expected = [
        "      OS: Arch Linux rolling (n/a)",
        "   Shell: zsh",
        "  Kernel: Linux 6.9.1 x86_64",
        "   Model: LENOVO 20XW 20XWCTO1WW",
        "Hostname: box",
        "  Uptime: 1 hour, 1 minute, 1 second",
        "     CPU: Ryzen (1/1) @ 3.000 GHz",
        "  Memory: 1.00GiB / 2.00GiB",
        "    Swap: 0.00GiB / 1.00GiB",
        "Platform: low-power [balanced] performance",
        "     Ppd: [balanced]",
        "    Disk: 512.0 GB",
        " Battery: Charging at 80%",
    ]
    .join("\n");
    assert_eq!(strip_colours(&array.render()), expected);
    let text = machine.to_string();
    assert_eq!(text, format!("{}\n{}", array.render(), colourblocks(10, 16, 8)));
    assert_eq!(machine.try_to_string(), Some(text));
}

#[test]
fn machine_with_a_processor_without_cores_cannot_be_shown() {
    let mut machine = nothing();
    machine.cpu = Some(Cpu { cores: vec![] });
    assert!(!machine.is_fetchable());
    assert_eq!(machine.try_to_string(), None);
    let mut machine = nothing();
    machine.memory = Some(Memory {
        display_unit: None,
        meminfo: MemStats { total: 0, free: 0, avail: 1, buffers: 0, cached: 0, swap_total: 0, swap_free: 0 },
        devices: None,
    });
    assert!(!machine.is_fetchable());
    assert_eq!(machine.try_to_string(), None);
}
