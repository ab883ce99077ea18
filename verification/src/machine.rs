//! The standard x86_64 machine: where things lie in guest memory, the order
//! in which the machine is put together, and its lifecycle.

pub mod address;
pub mod layout;
pub mod pci_host;
pub mod lifecycle;
pub mod realize;
pub mod boot;
pub mod cpu;
