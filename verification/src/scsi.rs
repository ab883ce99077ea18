//! The SCSI command engine: command descriptor blocks, the bus that routes
//! them, and the responses that are emulated in software.

pub mod opcode;
pub mod sense;
pub mod cdb;
pub mod device;
pub mod bus;
pub mod buffer;
pub mod inquiry;
pub mod capacity;
pub mod mode_sense;
pub mod report_luns;
pub mod request;
