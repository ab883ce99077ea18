//! Parsing of command descriptor blocks: length, transfer length, logical
//! block address and transfer direction of a command.

use crate::endian::{be16_at, be24_at, be32_at, be64_at, read_be16, read_be32, read_be64};
use crate::scsi::opcode::{
    ALLOW_MEDIUM_REMOVAL, ALLOW_OVERWRITE, ATA_PASSTHROUGH_12, ATA_PASSTHROUGH_16,
    CHANGE_DEFINITION, COMPARE, COPY, COPY_VERIFY, DMA_SCSI_OPS, EMULATE_SCSI_OPS, ERASE,
    FORMAT_UNIT, INQUIRY, LOCATE_16, LOCK_UNLOCK_CACHE, LOG_SELECT, MAINTENANCE_OUT, MEDIUM_SCAN,
    MODE_SELECT, MODE_SELECT_10, PERSISTENT_RESERVE_OUT, PRE_FETCH, PRE_FETCH_16, READ_10, READ_12,
    READ_16, READ_6, READ_BLOCK_LIMITS, READ_BUFFER, READ_CAPACITY_10, READ_CD, READ_REVERSE,
    REASSIGN_BLOCKS, RECEIVE_DIAGNOSTIC, RELEASE, RESERVE, RESERVE_TRACK, REWIND, SCAN,
    SCSI_DEFAULT_BLOCK_SIZE, SEARCH_EQUAL, SEARCH_EQUAL_12, SEARCH_HIGH, SEARCH_HIGH_12, SEARCH_LOW,
    SEARCH_LOW_12, SEEK_10, SEND_CUE_SHEET, SEND_DIAGNOSTIC, SEND_DVD_STRUCTURE, SEND_VOLUME_TAG,
    SET_CAPACITY, SET_CD_SPEED, SET_LIMITS, SET_READ_AHEAD, SET_WINDOW, SPACE, START_STOP,
    SYNCHRONIZE_CACHE, SYNCHRONIZE_CACHE_16, TEST_UNIT_READY, UNMAP, UPDATE_BLOCK, VERIFY_10,
    VERIFY_12, VERIFY_16, WRITE_10, WRITE_12, WRITE_16, WRITE_6, WRITE_BUFFER, WRITE_FILEMARKS,
    WRITE_FILEMARKS_16, WRITE_LONG_10, WRITE_SAME_10, WRITE_SAME_16, WRITE_VERIFY_10,
    WRITE_VERIFY_12, WRITE_VERIFY_16,
};
use vstd::prelude::*;
use vstd::slice::slice_subrange;

verus! {

/// Direction of the data phase of a command.
#[derive(Clone, Copy, Debug, PartialEq, Eq, Structural)]
pub enum ScsiXferMode {
    /// No data is transferred.
    ScsiXferNone,
    /// The device sends data to the initiator.
    ScsiXferFromDev,
    /// The initiator sends data to the device.
    ScsiXferToDev,
}

/// A parsed command.
#[derive(Clone, Copy, Debug)]
pub struct ScsiCommand {
    /// The command descriptor block.
    pub buf: [u8; 16],
    /// Operation code.
    pub command: u8,
    /// Length of the command descriptor block in bytes.
    pub len: u32,
    /// Transfer length in bytes.
    pub xfer: u64,
    /// Logical block address.
    pub lba: u64,
    /// Transfer direction.
    pub mode: ScsiXferMode,
}

/// The group code of a command: the top three bits of its operation code.
pub open spec fn cdb_group(cdb: Seq<u8>) -> int {
    cdb[0] as int / 32
}

/// Group codes 3, 6 and 7 are reserved or vendor specific and do not parse.
pub open spec fn cdb_group_valid(cdb: Seq<u8>) -> bool {
    let g = cdb_group(cdb);
    g == 0 || g == 1 || g == 2 || g == 4 || g == 5
}

/// Length of the command descriptor block by group code, -1 for a group that
/// does not parse.
pub open spec fn cdb_length(cdb: Seq<u8>) -> int {
    let g = cdb_group(cdb);
    if g == 0 {
        6
    } else if g == 1 || g == 2 {
        10
    } else if g == 4 {
        16
    } else if g == 5 {
        12
    } else {
        -1
    }
}

/// The transfer length field where the group code puts it, -1 for a group
/// that does not parse.
pub open spec fn cdb_xfer_field(cdb: Seq<u8>) -> int {
    let g = cdb_group(cdb);
    if g == 0 {
        cdb[4] as int
    } else if g == 1 || g == 2 {
        be16_at(cdb, 7)
    } else if g == 4 {
        be32_at(cdb, 10)
    } else if g == 5 {
        be32_at(cdb, 6)
    } else {
        -1
    }
}

/// Commands that move no data whatever their transfer length field holds.
pub open spec fn op_moves_no_data(op: u8) -> bool {
    op == TEST_UNIT_READY || op == REWIND || op == START_STOP || op == SET_CAPACITY
        || op == WRITE_FILEMARKS || op == WRITE_FILEMARKS_16 || op == SPACE || op == RESERVE
        || op == RELEASE || op == ERASE || op == ALLOW_MEDIUM_REMOVAL || op == SEEK_10
        || op == SYNCHRONIZE_CACHE || op == SYNCHRONIZE_CACHE_16 || op == LOCATE_16
        || op == LOCK_UNLOCK_CACHE || op == SET_CD_SPEED || op == SET_LIMITS
        || op == WRITE_LONG_10 || op == UPDATE_BLOCK || op == RESERVE_TRACK
        || op == SET_READ_AHEAD || op == PRE_FETCH || op == PRE_FETCH_16
        || op == ALLOW_OVERWRITE
}

/// Reads and writes of ten bytes and more, whose transfer length counts blocks.
pub open spec fn op_counts_blocks(op: u8) -> bool {
    op == WRITE_10 || op == WRITE_VERIFY_10 || op == WRITE_12 || op == WRITE_VERIFY_12
        || op == WRITE_16 || op == WRITE_VERIFY_16 || op == READ_10 || op == READ_12
        || op == READ_16
}

/// Transfer length of a command in bytes; -1 for a group that does not
/// parse.
pub open spec fn cdb_xfer(cdb: Seq<u8>) -> int {
    let op = cdb[0];
    let field = cdb_xfer_field(cdb);
    if op_moves_no_data(op) {
        0
    } else if op == VERIFY_10 || op == VERIFY_12 || op == VERIFY_16 {
        if cdb[1] & 2 == 0 {
            0
        } else if cdb[1] & 4 != 0 {
            512
        } else {
            field * 512
        }
    } else if op == WRITE_SAME_10 || op == WRITE_SAME_16 {
        if cdb[1] & 1 != 0 {
            0
        } else {
            512
        }
    } else if op == READ_CAPACITY_10 {
        8
    } else if op == READ_BLOCK_LIMITS {
        6
    } else if op == SEND_VOLUME_TAG {
        be16_at(cdb, 8)
    } else if op == WRITE_6 || op == READ_6 {
        if field == 0 {
            256 * 512int
        } else {
            field * 512
        }
    } else if op == READ_REVERSE {
        if field == 0 {
            256 * 512int
        } else {
            field
        }
    } else if op_counts_blocks(op) {
        field * 512
    } else if op == FORMAT_UNIT {
        if cdb[1] & 16 == 0 {
            0
        } else if cdb[1] & 32 == 0 {
            4
        } else {
            8
        }
    } else if op == INQUIRY || op == RECEIVE_DIAGNOSTIC || op == SEND_DIAGNOSTIC {
        be16_at(cdb, 3)
    } else if op == READ_CD || op == READ_BUFFER || op == WRITE_BUFFER || op == SEND_CUE_SHEET {
        be24_at(cdb, 6)
    } else if op == PERSISTENT_RESERVE_OUT {
        be32_at(cdb, 5)
    } else {
        field
    }
}

/// Logical block address of a command; -1 for a group that does not parse.
pub open spec fn cdb_lba(cdb: Seq<u8>) -> int {
    let g = cdb_group(cdb);
    if g == 0 {
        be32_at(cdb, 0) % 0x20_0000
    } else if g == 1 || g == 2 || g == 5 {
        be32_at(cdb, 2)
    } else if g == 4 {
        be64_at(cdb, 2)
    } else {
        -1
    }
}

/// Commands whose data phase goes to the device.
pub open spec fn op_sends_to_device(op: u8) -> bool {
    op == WRITE_6 || op == WRITE_10 || op == WRITE_VERIFY_10 || op == WRITE_12
        || op == WRITE_VERIFY_12 || op == WRITE_16 || op == WRITE_VERIFY_16 || op == VERIFY_10
        || op == VERIFY_12 || op == VERIFY_16 || op == COPY || op == COPY_VERIFY || op == COMPARE
        || op == CHANGE_DEFINITION || op == LOG_SELECT || op == MODE_SELECT
        || op == MODE_SELECT_10 || op == SEND_DIAGNOSTIC || op == WRITE_BUFFER
        || op == FORMAT_UNIT || op == REASSIGN_BLOCKS || op == SEARCH_EQUAL || op == SEARCH_HIGH
        || op == SEARCH_LOW || op == UPDATE_BLOCK || op == WRITE_LONG_10 || op == WRITE_SAME_10
        || op == WRITE_SAME_16 || op == UNMAP || op == SEARCH_HIGH_12 || op == SEARCH_EQUAL_12
        || op == SEARCH_LOW_12 || op == MEDIUM_SCAN || op == SEND_VOLUME_TAG
        || op == SEND_CUE_SHEET || op == SEND_DVD_STRUCTURE || op == PERSISTENT_RESERVE_OUT
        || op == MAINTENANCE_OUT || op == SET_WINDOW || op == SCAN
}

/// Transfer direction of a command. The ATA pass-through commands carry it
/// in bit 3 of byte 2.
pub open spec fn cdb_xfer_mode(cdb: Seq<u8>) -> ScsiXferMode {
    let op = cdb[0];
    if op_sends_to_device(op) {
        ScsiXferMode::ScsiXferToDev
    } else if op == ATA_PASSTHROUGH_12 || op == ATA_PASSTHROUGH_16 {
        if cdb[2] & 0x8 == 0 {
            ScsiXferMode::ScsiXferToDev
        } else {
            ScsiXferMode::ScsiXferFromDev
        }
    } else {
        ScsiXferMode::ScsiXferFromDev
    }
}

/// Bulk reads and writes, which are carried out as host I/O.
pub open spec fn op_is_dma(op: u8) -> bool {
    op == READ_6 || op == READ_10 || op == READ_12 || op == READ_16 || op == WRITE_6
        || op == WRITE_10 || op == WRITE_12 || op == WRITE_16 || op == WRITE_VERIFY_10
        || op == WRITE_VERIFY_12 || op == WRITE_VERIFY_16
}

/// What a command with a known group code is parsed to.
pub open spec fn cdb_parsed(cdb: Seq<u8>, cmd: ScsiCommand) -> bool {
    &&& cmd.buf@ == cdb.subrange(0, 16)
    &&& cmd.command == cdb[0]
    &&& cmd.len == cdb_length(cdb)
    &&& cmd.xfer == cdb_xfer(cdb)
    &&& cmd.lba == cdb_lba(cdb)
    &&& cmd.mode == cdb_xfer_mode(cdb)
}

/// With a known group code the length is one of 6, 10, 12 and 16, the
/// transfer length is not negative and fits 64 bits, and the block address
/// is not negative and fits 64 bits. With any other group code all three
/// are -1.
pub proof fn lemma_cdb_fields(cdb: Seq<u8>)
    requires
        cdb.len() == 32,
    ensures
        cdb_group_valid(cdb) ==> {
            &&& cdb_length(cdb) == 6 || cdb_length(cdb) == 10 || cdb_length(cdb) == 12
                || cdb_length(cdb) == 16
            &&& 0 <= cdb_xfer(cdb) <= 0xffff_ffff * 512
            &&& 0 <= cdb_lba(cdb) <= u64::MAX
        },
        !cdb_group_valid(cdb) ==> cdb_length(cdb) == -1 && cdb_xfer(cdb) == -1 && cdb_lba(cdb)
            == -1,
{
}

/// A six-byte read or write moves 512 bytes for every block that it
/// counts, and 256 blocks where it counts none.
pub proof fn lemma_six_byte_transfer(cdb: Seq<u8>)
    requires
        cdb.len() == 32,
        cdb[0] == READ_6 || cdb[0] == WRITE_6,
    ensures
        cdb_length(cdb) == 6,
        cdb[4] == 0 ==> cdb_xfer(cdb) == 256 * SCSI_DEFAULT_BLOCK_SIZE,
        cdb[4] == 0 ==> cdb_xfer(cdb) == 131072,
        cdb[4] != 0 ==> cdb_xfer(cdb) == cdb[4] * SCSI_DEFAULT_BLOCK_SIZE,
        cdb_group_valid(cdb),
{
}

fn op_group(op: u8) -> (g: u8)
    ensures
        g == op as int / 32,
{
    assert(op >> 5 == op / 32) by (bit_vector);
    op >> 5
}

/// Length of the command descriptor block: 6, 10, 12 or 16 by group code,
/// -1 for a group code that does not parse.
pub fn scsi_cdb_length(cdb: &[u8; 32]) -> (len: i32)
    ensures
        len == cdb_length(cdb@),
{
    let g: u8 = op_group(cdb[0]);
    if g == 0 {
        6
    } else if g == 1 || g == 2 {
        10
    } else if g == 4 {
        16
    } else if g == 5 {
        12
    } else {
        -1
    }
}

fn moves_no_data(op: u8) -> (b: bool)
    ensures
        b == op_moves_no_data(op),
{
    op == TEST_UNIT_READY || op == REWIND || op == START_STOP || op == SET_CAPACITY
        || op == WRITE_FILEMARKS || op == WRITE_FILEMARKS_16 || op == SPACE || op == RESERVE
        || op == RELEASE || op == ERASE || op == ALLOW_MEDIUM_REMOVAL || op == SEEK_10
        || op == SYNCHRONIZE_CACHE || op == SYNCHRONIZE_CACHE_16 || op == LOCATE_16
        || op == LOCK_UNLOCK_CACHE || op == SET_CD_SPEED || op == SET_LIMITS
        || op == WRITE_LONG_10 || op == UPDATE_BLOCK || op == RESERVE_TRACK
        || op == SET_READ_AHEAD || op == PRE_FETCH || op == PRE_FETCH_16
        || op == ALLOW_OVERWRITE
}

fn counts_blocks(op: u8) -> (b: bool)
    ensures
        b == op_counts_blocks(op),
{
    op == WRITE_10 || op == WRITE_VERIFY_10 || op == WRITE_12 || op == WRITE_VERIFY_12
        || op == WRITE_16 || op == WRITE_VERIFY_16 || op == READ_10 || op == READ_12
        || op == READ_16
}

fn sends_to_device(op: u8) -> (b: bool)
    ensures
        b == op_sends_to_device(op),
{
    op == WRITE_6 || op == WRITE_10 || op == WRITE_VERIFY_10 || op == WRITE_12
        || op == WRITE_VERIFY_12 || op == WRITE_16 || op == WRITE_VERIFY_16 || op == VERIFY_10
        || op == VERIFY_12 || op == VERIFY_16 || op == COPY || op == COPY_VERIFY || op == COMPARE
        || op == CHANGE_DEFINITION || op == LOG_SELECT || op == MODE_SELECT
        || op == MODE_SELECT_10 || op == SEND_DIAGNOSTIC || op == WRITE_BUFFER
        || op == FORMAT_UNIT || op == REASSIGN_BLOCKS || op == SEARCH_EQUAL || op == SEARCH_HIGH
        || op == SEARCH_LOW || op == UPDATE_BLOCK || op == WRITE_LONG_10 || op == WRITE_SAME_10
        || op == WRITE_SAME_16 || op == UNMAP || op == SEARCH_HIGH_12 || op == SEARCH_EQUAL_12
        || op == SEARCH_LOW_12 || op == MEDIUM_SCAN || op == SEND_VOLUME_TAG
        || op == SEND_CUE_SHEET || op == SEND_DVD_STRUCTURE || op == PERSISTENT_RESERVE_OUT
        || op == MAINTENANCE_OUT || op == SET_WINDOW || op == SCAN
}

/// The transfer length field where the group code puts it.
fn xfer_field(cdb: &[u8; 32]) -> (field: i64)
    ensures
        field == cdb_xfer_field(cdb@),
{
    let g: u8 = op_group(cdb[0]);
    if g == 0 {
        cdb[4] as i64
    } else if g == 1 || g == 2 {
        read_be16(slice_subrange(cdb.as_slice(), 7, 32)) as i64
    } else if g == 4 {
        read_be32(slice_subrange(cdb.as_slice(), 10, 32)) as i64
    } else if g == 5 {
        read_be32(slice_subrange(cdb.as_slice(), 6, 32)) as i64
    } else {
        -1
    }
}

/// Transfer length of a command in bytes; -1 for a group code that does
/// not parse.
pub fn scsi_cdb_xfer(cdb: &[u8; 32]) -> (xfer: i64)
    ensures
        xfer == cdb_xfer(cdb@),
        cdb_group_valid(cdb@) ==> xfer >= 0,
{
    proof {
        lemma_cdb_fields(cdb@);
    }
    let op: u8 = cdb[0];
    let field: i64 = xfer_field(cdb);
    if moves_no_data(op) {
        0
    } else if op == VERIFY_10 || op == VERIFY_12 || op == VERIFY_16 {
        if cdb[1] & 2 == 0 {
            0
        } else if cdb[1] & 4 != 0 {
            512
        } else {
            field * 512
        }
    } else if op == WRITE_SAME_10 || op == WRITE_SAME_16 {
        if cdb[1] & 1 != 0 {
            0
        } else {
            512
        }
    } else if op == READ_CAPACITY_10 {
        8
    } else if op == READ_BLOCK_LIMITS {
        6
    } else if op == SEND_VOLUME_TAG {
        read_be16(slice_subrange(cdb.as_slice(), 8, 32)) as i64
    } else if op == WRITE_6 || op == READ_6 {
        if field == 0 {
            256 * 512
        } else {
            field * 512
        }
    } else if op == READ_REVERSE {
        if field == 0 {
            256 * 512
        } else {
            field
        }
    } else if counts_blocks(op) {
        field * 512
    } else if op == FORMAT_UNIT {
        if cdb[1] & 16 == 0 {
            0
        } else if cdb[1] & 32 == 0 {
            4
        } else {
            8
        }
    } else if op == INQUIRY || op == RECEIVE_DIAGNOSTIC || op == SEND_DIAGNOSTIC {
        read_be16(slice_subrange(cdb.as_slice(), 3, 32)) as i64
    } else if op == READ_CD || op == READ_BUFFER || op == WRITE_BUFFER || op == SEND_CUE_SHEET {
        cdb[6] as i64 * 0x1_0000 + read_be16(slice_subrange(cdb.as_slice(), 7, 32)) as i64
    } else if op == PERSISTENT_RESERVE_OUT {
        read_be32(slice_subrange(cdb.as_slice(), 5, 32)) as i64
    } else {
        field
    }
}

/// Logical block address of a command; -1 for a group code that does not
/// parse.
pub fn scsi_cdb_lba(cdb: &[u8; 32]) -> (lba: i128)
    ensures
        lba == cdb_lba(cdb@),
        cdb_group_valid(cdb@) ==> lba >= 0,
{
    let g: u8 = op_group(cdb[0]);
    if g == 0 {
        let word: u32 = read_be32(slice_subrange(cdb.as_slice(), 0, 32));
        assert(word & 0x1f_ffff == word % 0x20_0000) by (bit_vector);
        (word & 0x1f_ffff) as i128
    } else if g == 1 || g == 2 || g == 5 {
        read_be32(slice_subrange(cdb.as_slice(), 2, 32)) as i128
    } else if g == 4 {
        read_be64(slice_subrange(cdb.as_slice(), 2, 32)) as i128
    } else {
        -1
    }
}

/// Transfer direction of a command.
pub fn scsi_cdb_xfer_mode(cdb: &[u8; 32]) -> (mode: ScsiXferMode)
    ensures
        mode == cdb_xfer_mode(cdb@),
{
    let op: u8 = cdb[0];
    if sends_to_device(op) {
        ScsiXferMode::ScsiXferToDev
    } else if op == ATA_PASSTHROUGH_12 || op == ATA_PASSTHROUGH_16 {
        if cdb[2] & 0x8 == 0 {
            ScsiXferMode::ScsiXferToDev
        } else {
            ScsiXferMode::ScsiXferFromDev
        }
    } else {
        ScsiXferMode::ScsiXferFromDev
    }
}

/// The class of an operation: bulk reads and writes are `DMA_SCSI_OPS`,
/// every other operation is `EMULATE_SCSI_OPS`.
pub fn scsi_operation_type(op: u8) -> (class: u32)
    ensures
        class == if op_is_dma(op) {
            DMA_SCSI_OPS
        } else {
            EMULATE_SCSI_OPS
        },
{
    if op == READ_6 || op == READ_10 || op == READ_12 || op == READ_16 || op == WRITE_6
        || op == WRITE_10 || op == WRITE_12 || op == WRITE_16 || op == WRITE_VERIFY_10
        || op == WRITE_VERIFY_12 || op == WRITE_VERIFY_16 {
        DMA_SCSI_OPS
    } else {
        EMULATE_SCSI_OPS
    }
}

/// The logical unit number in the eight-byte LUN field of a virtio-scsi
/// request: the low 14 bits of bytes 2 and 3.
pub open spec fn lun_of(lun: Seq<u8>) -> int {
    (lun[2] % 64) * 256 + lun[3]
}

/// The logical unit number that a virtio-scsi request addresses.
pub fn virtio_scsi_get_lun(lun: [u8; 8]) -> (r: u16)
    ensures
        r == lun_of(lun@),
        r < 0x4000,
{
    let hi: u8 = lun[2];
    let lo: u8 = lun[3];
    assert((((hi as u16) << 8) | (lo as u16)) & 0x3FFF == (hi % 64) * 256 + lo) by (bit_vector);
    (((hi as u16) << 8) | (lo as u16)) & 0x3FFF
}

} // verus!
