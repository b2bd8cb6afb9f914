//! The facts about the host that a report shows.
pub mod battery;
pub mod cpu;
pub mod disk;
pub mod hostname;
pub mod kernel;
pub mod memory;
pub mod model;
pub mod osinfo;
pub mod platform;
pub mod ppd;
pub mod shell;
pub mod smbios;
pub mod uptime;
