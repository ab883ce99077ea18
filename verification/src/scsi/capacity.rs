//! READ CAPACITY (10) and READ CAPACITY (16).

use crate::endian::{be32_bytes, be64_bytes, write_be32, write_be64};
use crate::scsi::buffer::{append_bytes, append_zeros, is_outcome, zeros};
use crate::scsi::cdb::ScsiCommand;
use crate::scsi::device::{DEFAULT_SECTOR_SIZE, ScsiDevice};
use crate::scsi::opcode::SUBCODE_READ_CAPACITY_16;
use crate::scsi::sense::{ScsiSense, scsi_sense_invalid_field};
use vstd::prelude::*;

verus! {

/// The answer to READ CAPACITY (10): the number of sectors, or the largest
/// number that 32 bits hold where there are more, then the sector size. A
/// command without the PMI bit must name block address 0.
pub open spec fn read_capacity_10_response(cmd: ScsiCommand, dev: ScsiDevice) -> Result<
    Seq<u8>,
    ScsiSense,
> {
    if cmd.buf[8] & 1 == 0 && cmd.lba != 0 {
        Err(scsi_sense_invalid_field())
    } else {
        Ok(
            be32_bytes(
                if dev.disk_sectors > u32::MAX {
                    u32::MAX
                } else {
                    dev.disk_sectors as u32
                },
            ) + be32_bytes(DEFAULT_SECTOR_SIZE),
        )
    }
}

/// The answer to SERVICE ACTION IN (16): for the READ CAPACITY (16) service
/// action 32 bytes that open with the number of sectors and the sector
/// size. Any other service action is refused.
pub open spec fn service_action_in_16_response(cmd: ScsiCommand, dev: ScsiDevice) -> Result<
    Seq<u8>,
    ScsiSense,
> {
    if cmd.buf[1] & 0x1f == SUBCODE_READ_CAPACITY_16 {
        Ok(be64_bytes(dev.disk_sectors) + be32_bytes(DEFAULT_SECTOR_SIZE) + zeros(20))
    } else {
        Err(scsi_sense_invalid_field())
    }
}

/// Two READ CAPACITY (10) commands that do not differ, to a device that
/// has not changed, end alike and carry the same eight bytes.
pub proof fn lemma_read_capacity_10_repeats(
    cmd: ScsiCommand,
    dev: ScsiDevice,
    first: Result<Vec<u8>, ScsiSense>,
    second: Result<Vec<u8>, ScsiSense>,
)
    requires
        is_outcome(first, read_capacity_10_response(cmd, dev)),
        is_outcome(second, read_capacity_10_response(cmd, dev)),
    ensures
        first is Ok <==> second is Ok,
        first is Ok ==> first->Ok_0@ == second->Ok_0@ && first->Ok_0@.len() == 8,
        first is Err ==> first->Err_0 == second->Err_0,
{
}

/// READ CAPACITY (10).
pub fn scsi_command_emulate_read_capacity_10(cmd: &ScsiCommand, dev: &ScsiDevice) -> (r: Result<
    Vec<u8>,
    ScsiSense,
>)
    ensures
        is_outcome(r, read_capacity_10_response(*cmd, *dev)),
{
    if cmd.buf[8] & 1 == 0 && cmd.lba != 0 {
        return Err(scsi_sense_invalid_field());
    }
    let nb_sectors: u32 = if dev.disk_sectors > 0xffff_ffff {
        0xffff_ffff
    } else {
        dev.disk_sectors as u32
    };
    let mut outbuf: Vec<u8> = Vec::new();
    append_bytes(&mut outbuf, write_be32(nb_sectors).as_slice());
    append_bytes(&mut outbuf, write_be32(DEFAULT_SECTOR_SIZE).as_slice());
    assert(outbuf@ =~= be32_bytes(nb_sectors) + be32_bytes(DEFAULT_SECTOR_SIZE));
    Ok(outbuf)
}

/// SERVICE ACTION IN (16), of which READ CAPACITY (16) is the one service
/// action that is answered.
pub fn scsi_command_emulate_service_action_in_16(cmd: &ScsiCommand, dev: &ScsiDevice) -> (r:
    Result<Vec<u8>, ScsiSense>)
    ensures
        is_outcome(r, service_action_in_16_response(*cmd, *dev)),
{
    if cmd.buf[1] & 0x1f == SUBCODE_READ_CAPACITY_16 {
        let mut outbuf: Vec<u8> = Vec::new();
        append_bytes(&mut outbuf, write_be64(dev.disk_sectors).as_slice());
        append_bytes(&mut outbuf, write_be32(DEFAULT_SECTOR_SIZE).as_slice());
        append_zeros(&mut outbuf, 20);
        assert(outbuf@ =~= be64_bytes(dev.disk_sectors) + be32_bytes(DEFAULT_SECTOR_SIZE) + zeros(
            20,
        ));
        return Ok(outbuf);
    }
    Err(scsi_sense_invalid_field())
}

} // verus!
