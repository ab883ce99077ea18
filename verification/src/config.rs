//! Configuration of drives and block devices as given on the command line.

pub mod cmdline;
pub mod device;
pub mod drive;
pub mod error;
pub mod parser;
pub mod text;
