//! Radio GPIO boundary: CM119 HID signalling, tuning EEPROM and parallel ports.

pub mod abi;
pub mod bits;
pub mod config;
pub mod device;
pub mod device_laws;
pub mod discovery;
pub mod eeprom;
pub mod identity;
pub mod parallel;
pub mod parallel_abi;
pub mod parallel_config;
pub mod parallel_laws;
pub mod profile;
pub mod publication;
pub mod publication_laws;
pub mod pulse;
pub mod pulse_laws;
pub mod report_laws;
pub mod rtx;
pub mod rtx_laws;
pub mod selection_laws;
pub mod session_laws;
pub mod signal_laws;
pub mod topology;
pub mod topology_laws;
pub mod transport;
pub mod usb;
pub mod usb_laws;
