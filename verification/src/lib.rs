//! Core logic for provisioning bootable removable media: discovering
//! candidate devices, deciding how to escalate privileges, planning the
//! partition naming scheme, and composing the ordered provisioning script.
//!
//! All decisions are made here over plain values; spawning processes and
//! querying the storage-management service are left to the surrounding
//! binary.

pub mod device_list;
pub mod flasher;
pub mod layout;
pub mod text;
pub mod utils;
