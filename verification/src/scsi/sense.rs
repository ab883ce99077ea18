//! Sense data: what a device reports about a command that it did not carry
//! out as asked.

use vstd::prelude::*;

verus! {

// Sense keys.
pub const NO_SENSE: u8 = 0x00;
pub const RECOVERED_ERROR: u8 = 0x01;
pub const NOT_READY: u8 = 0x02;
pub const MEDIUM_ERROR: u8 = 0x03;
pub const HARDWARE_ERROR: u8 = 0x04;
pub const ILLEGAL_REQUEST: u8 = 0x05;
pub const UNIT_ATTENTION: u8 = 0x06;
pub const DATA_PROTECT: u8 = 0x07;
pub const BLANK_CHECK: u8 = 0x08;
pub const COPY_ABORTED: u8 = 0x0a;
pub const ABORTED_COMMAND: u8 = 0x0b;
pub const VOLUME_OVERFLOW: u8 = 0x0d;
pub const MISCOMPARE: u8 = 0x0e;

/// Length of fixed-format sense data.
pub const SCSI_SENSE_LEN: u32 = 18;

/// A sense code: sense key, additional sense code and its qualifier.
#[derive(Clone, Copy, Debug, PartialEq, Eq, Structural)]
pub struct ScsiSense {
    pub key: u8,
    pub asc: u8,
    pub ascq: u8,
}

impl Default for ScsiSense {
    fn default() -> (r: ScsiSense)
        ensures
            r == (ScsiSense { key: 0, asc: 0, ascq: 0 }),
    {
        ScsiSense { key: 0, asc: 0, ascq: 0 }
    }
}

/// Sense code: nothing to report.
#[verifier::allow_in_spec]
pub fn scsi_sense_no_sense() -> ScsiSense
    returns
        (ScsiSense { key: NO_SENSE, asc: 0x00, ascq: 0x00 }),
{
    ScsiSense { key: NO_SENSE, asc: 0x00, ascq: 0x00 }
}

/// Sense code: the logical unit is not ready and needs to be started.
#[verifier::allow_in_spec]
pub fn scsi_sense_lun_not_ready() -> ScsiSense
    returns
        (ScsiSense { key: NOT_READY, asc: 0x04, ascq: 0x03 }),
{
    ScsiSense { key: NOT_READY, asc: 0x04, ascq: 0x03 }
}

/// Sense code: there is no medium.
#[verifier::allow_in_spec]
pub fn scsi_sense_no_medium() -> ScsiSense
    returns
        (ScsiSense { key: NOT_READY, asc: 0x3a, ascq: 0x00 }),
{
    ScsiSense { key: NOT_READY, asc: 0x3a, ascq: 0x00 }
}

/// Sense code: the medium cannot be removed from a unit that is not ready.
#[verifier::allow_in_spec]
pub fn scsi_sense_not_ready_removal_prevented() -> ScsiSense
    returns
        (ScsiSense { key: NOT_READY, asc: 0x53, ascq: 0x02 }),
{
    ScsiSense { key: NOT_READY, asc: 0x53, ascq: 0x02 }
}

/// Sense code: the target failed.
#[verifier::allow_in_spec]
pub fn scsi_sense_target_failure() -> ScsiSense
    returns
        (ScsiSense { key: HARDWARE_ERROR, asc: 0x44, ascq: 0x00 }),
{
    ScsiSense { key: HARDWARE_ERROR, asc: 0x44, ascq: 0x00 }
}

/// Sense code: the operation code is not supported.
#[verifier::allow_in_spec]
pub fn scsi_sense_invalid_opcode() -> ScsiSense
    returns
        (ScsiSense { key: ILLEGAL_REQUEST, asc: 0x20, ascq: 0x00 }),
{
    ScsiSense { key: ILLEGAL_REQUEST, asc: 0x20, ascq: 0x00 }
}

/// Sense code: the block address is out of range.
#[verifier::allow_in_spec]
pub fn scsi_sense_lba_out_of_range() -> ScsiSense
    returns
        (ScsiSense { key: ILLEGAL_REQUEST, asc: 0x21, ascq: 0x00 }),
{
    ScsiSense { key: ILLEGAL_REQUEST, asc: 0x21, ascq: 0x00 }
}

/// Sense code: a field of the command is not valid.
#[verifier::allow_in_spec]
pub fn scsi_sense_invalid_field() -> ScsiSense
    returns
        (ScsiSense { key: ILLEGAL_REQUEST, asc: 0x24, ascq: 0x00 }),
{
    ScsiSense { key: ILLEGAL_REQUEST, asc: 0x24, ascq: 0x00 }
}

/// Sense code: a parameter is not valid.
#[verifier::allow_in_spec]
pub fn scsi_sense_invalid_param() -> ScsiSense
    returns
        (ScsiSense { key: ILLEGAL_REQUEST, asc: 0x26, ascq: 0x00 }),
{
    ScsiSense { key: ILLEGAL_REQUEST, asc: 0x26, ascq: 0x00 }
}

/// Sense code: the value of a parameter is not valid.
#[verifier::allow_in_spec]
pub fn scsi_sense_invalid_param_value() -> ScsiSense
    returns
        (ScsiSense { key: ILLEGAL_REQUEST, asc: 0x26, ascq: 0x01 }),
{
    ScsiSense { key: ILLEGAL_REQUEST, asc: 0x26, ascq: 0x01 }
}

/// Sense code: the parameter list has the wrong length.
#[verifier::allow_in_spec]
pub fn scsi_sense_invalid_param_len() -> ScsiSense
    returns
        (ScsiSense { key: ILLEGAL_REQUEST, asc: 0x1a, ascq: 0x00 }),
{
    ScsiSense { key: ILLEGAL_REQUEST, asc: 0x1a, ascq: 0x00 }
}

/// Sense code: there is no such logical unit.
#[verifier::allow_in_spec]
pub fn scsi_sense_lun_not_supported() -> ScsiSense
    returns
        (ScsiSense { key: ILLEGAL_REQUEST, asc: 0x25, ascq: 0x00 }),
{
    ScsiSense { key: ILLEGAL_REQUEST, asc: 0x25, ascq: 0x00 }
}

/// Sense code: parameters cannot be saved.
#[verifier::allow_in_spec]
pub fn scsi_sense_saving_params_not_supported() -> ScsiSense
    returns
        (ScsiSense { key: ILLEGAL_REQUEST, asc: 0x39, ascq: 0x00 }),
{
    ScsiSense { key: ILLEGAL_REQUEST, asc: 0x39, ascq: 0x00 }
}

/// Sense code: the medium has a format that does not fit.
#[verifier::allow_in_spec]
pub fn scsi_sense_incompatible_format() -> ScsiSense
    returns
        (ScsiSense { key: ILLEGAL_REQUEST, asc: 0x30, ascq: 0x00 }),
{
    ScsiSense { key: ILLEGAL_REQUEST, asc: 0x30, ascq: 0x00 }
}

/// Sense code: the medium is kept from being removed.
#[verifier::allow_in_spec]
pub fn scsi_sense_illegal_req_removal_prevented() -> ScsiSense
    returns
        (ScsiSense { key: ILLEGAL_REQUEST, asc: 0x53, ascq: 0x02 }),
{
    ScsiSense { key: ILLEGAL_REQUEST, asc: 0x53, ascq: 0x02 }
}

/// Sense code: the tag of the command is not valid.
#[verifier::allow_in_spec]
pub fn scsi_sense_invalid_tag() -> ScsiSense
    returns
        (ScsiSense { key: ILLEGAL_REQUEST, asc: 0x4b, ascq: 0x01 }),
{
    ScsiSense { key: ILLEGAL_REQUEST, asc: 0x4b, ascq: 0x01 }
}

/// Sense code: the I/O was aborted.
#[verifier::allow_in_spec]
pub fn scsi_sense_io_error() -> ScsiSense
    returns
        (ScsiSense { key: ABORTED_COMMAND, asc: 0x00, ascq: 0x06 }),
{
    ScsiSense { key: ABORTED_COMMAND, asc: 0x00, ascq: 0x06 }
}

/// Sense code: the connection to the initiator was lost.
#[verifier::allow_in_spec]
pub fn scsi_sense_i_t_nexus_loss() -> ScsiSense
    returns
        (ScsiSense { key: ABORTED_COMMAND, asc: 0x29, ascq: 0x07 }),
{
    ScsiSense { key: ABORTED_COMMAND, asc: 0x29, ascq: 0x07 }
}

/// Sense code: the logical unit failed.
#[verifier::allow_in_spec]
pub fn scsi_sense_lun_failure() -> ScsiSense
    returns
        (ScsiSense { key: ABORTED_COMMAND, asc: 0x3e, ascq: 0x01 }),
{
    ScsiSense { key: ABORTED_COMMAND, asc: 0x3e, ascq: 0x01 }
}

/// Sense code: commands overlapped.
#[verifier::allow_in_spec]
pub fn scsi_sense_overlapped_commands() -> ScsiSense
    returns
        (ScsiSense { key: ABORTED_COMMAND, asc: 0x4e, ascq: 0x00 }),
{
    ScsiSense { key: ABORTED_COMMAND, asc: 0x4e, ascq: 0x00 }
}

/// Sense code: the logical unit could not be reached.
#[verifier::allow_in_spec]
pub fn scsi_sense_lun_comm_failure() -> ScsiSense
    returns
        (ScsiSense { key: ABORTED_COMMAND, asc: 0x08, ascq: 0x00 }),
{
    ScsiSense { key: ABORTED_COMMAND, asc: 0x08, ascq: 0x00 }
}

/// Sense code: the logical unit does not answer.
#[verifier::allow_in_spec]
pub fn scsi_sense_lun_not_responding() -> ScsiSense
    returns
        (ScsiSense { key: ABORTED_COMMAND, asc: 0x05, ascq: 0x00 }),
{
    ScsiSense { key: ABORTED_COMMAND, asc: 0x05, ascq: 0x00 }
}

/// Sense code: the command timed out.
#[verifier::allow_in_spec]
pub fn scsi_sense_command_timeout() -> ScsiSense
    returns
        (ScsiSense { key: ABORTED_COMMAND, asc: 0x2e, ascq: 0x02 }),
{
    ScsiSense { key: ABORTED_COMMAND, asc: 0x2e, ascq: 0x02 }
}

/// Sense code: the command was aborted.
#[verifier::allow_in_spec]
pub fn scsi_sense_command_aborted() -> ScsiSense
    returns
        (ScsiSense { key: ABORTED_COMMAND, asc: 0x2f, ascq: 0x02 }),
{
    ScsiSense { key: ABORTED_COMMAND, asc: 0x2f, ascq: 0x02 }
}

/// Sense code: the medium could not be read.
#[verifier::allow_in_spec]
pub fn scsi_sense_read_error() -> ScsiSense
    returns
        (ScsiSense { key: MEDIUM_ERROR, asc: 0x11, ascq: 0x00 }),
{
    ScsiSense { key: MEDIUM_ERROR, asc: 0x11, ascq: 0x00 }
}

/// Sense code: the logical unit is not ready.
#[verifier::allow_in_spec]
pub fn scsi_sense_not_ready() -> ScsiSense
    returns
        (ScsiSense { key: NOT_READY, asc: 0x04, ascq: 0x00 }),
{
    ScsiSense { key: NOT_READY, asc: 0x04, ascq: 0x00 }
}

/// Sense code: the capacity has changed.
#[verifier::allow_in_spec]
pub fn scsi_sense_capacity_changed() -> ScsiSense
    returns
        (ScsiSense { key: UNIT_ATTENTION, asc: 0x2a, ascq: 0x09 }),
{
    ScsiSense { key: UNIT_ATTENTION, asc: 0x2a, ascq: 0x09 }
}

/// Sense code: the unit was reset.
#[verifier::allow_in_spec]
pub fn scsi_sense_reset() -> ScsiSense
    returns
        (ScsiSense { key: UNIT_ATTENTION, asc: 0x29, ascq: 0x00 }),
{
    ScsiSense { key: UNIT_ATTENTION, asc: 0x29, ascq: 0x00 }
}

/// Sense code: the bus was reset.
#[verifier::allow_in_spec]
pub fn scsi_sense_scsi_bus_reset() -> ScsiSense
    returns
        (ScsiSense { key: UNIT_ATTENTION, asc: 0x29, ascq: 0x02 }),
{
    ScsiSense { key: UNIT_ATTENTION, asc: 0x29, ascq: 0x02 }
}

/// Sense code: the medium was taken out.
#[verifier::allow_in_spec]
pub fn scsi_sense_unit_attention_no_medium() -> ScsiSense
    returns
        (ScsiSense { key: UNIT_ATTENTION, asc: 0x3a, ascq: 0x00 }),
{
    ScsiSense { key: UNIT_ATTENTION, asc: 0x3a, ascq: 0x00 }
}

/// Sense code: the medium was changed.
#[verifier::allow_in_spec]
pub fn scsi_sense_medium_changed() -> ScsiSense
    returns
        (ScsiSense { key: UNIT_ATTENTION, asc: 0x28, ascq: 0x00 }),
{
    ScsiSense { key: UNIT_ATTENTION, asc: 0x28, ascq: 0x00 }
}

/// Sense code: the list of logical units has changed.
#[verifier::allow_in_spec]
pub fn scsi_sense_reported_luns_changed() -> ScsiSense
    returns
        (ScsiSense { key: UNIT_ATTENTION, asc: 0x3f, ascq: 0x0e }),
{
    ScsiSense { key: UNIT_ATTENTION, asc: 0x3f, ascq: 0x0e }
}

/// Sense code: the device reset itself.
#[verifier::allow_in_spec]
pub fn scsi_sense_device_internal_reset() -> ScsiSense
    returns
        (ScsiSense { key: UNIT_ATTENTION, asc: 0x29, ascq: 0x04 }),
{
    ScsiSense { key: UNIT_ATTENTION, asc: 0x29, ascq: 0x04 }
}

/// Sense code: the medium is write protected.
#[verifier::allow_in_spec]
pub fn scsi_sense_write_protected() -> ScsiSense
    returns
        (ScsiSense { key: DATA_PROTECT, asc: 0x27, ascq: 0x00 }),
{
    ScsiSense { key: DATA_PROTECT, asc: 0x27, ascq: 0x00 }
}

/// Sense code: no space could be allocated.
#[verifier::allow_in_spec]
pub fn scsi_sense_space_alloc_failed() -> ScsiSense
    returns
        (ScsiSense { key: DATA_PROTECT, asc: 0x27, ascq: 0x07 }),
{
    ScsiSense { key: DATA_PROTECT, asc: 0x27, ascq: 0x07 }
}

} // verus!
