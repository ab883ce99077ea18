//! Core logic of a small x86_64 virtual machine monitor: the guest memory
//! layout and the lifecycle of the machine, the SCSI command engine of its
//! virtio-scsi controller, the configuration of its drives, and the pixel
//! formats of its display.
//!
//! Nothing here touches the host. What is to be done to guest memory, to
//! files or to the kernel is handed to the caller as plain values.

pub mod config;
pub mod endian;
pub mod machine;
pub mod scsi;
pub mod vnc;
