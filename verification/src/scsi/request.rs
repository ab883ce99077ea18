//! A SCSI request: one command of the guest on its way through the engine.
//!
//! The engine decides what is done: which bytes answer an emulated command,
//! what the response header says, and which host I/O carries out a read or a
//! write. Guest memory and the backing file are touched by the caller, who
//! is handed the writes and the I/O to perform.

use crate::scsi::buffer::{outcome_of, zeros};
use crate::scsi::bus::{ScsiBus, ScsiError};
use crate::scsi::capacity::{
    read_capacity_10_response, scsi_command_emulate_read_capacity_10,
    scsi_command_emulate_service_action_in_16, service_action_in_16_response,
};
use crate::scsi::cdb::{
    ScsiCommand, ScsiXferMode, cdb_group_valid, cdb_parsed, op_is_dma, scsi_operation_type,
};
use crate::scsi::device::ScsiDevice;
use crate::scsi::inquiry::{
    inquiry_response, scsi_command_emulate_inquiry, scsi_command_emulate_target_inquiry,
    target_inquiry_response,
};
use crate::scsi::mode_sense::{mode_sense_response, scsi_command_emulate_mode_sense};
use crate::scsi::opcode::{
    CHECK_CONDITION, DMA_SCSI_OPS, EMULATE_SCSI_OPS, GOOD, INQUIRY, MODE_SENSE, MODE_SENSE_10,
    READ_10, READ_CAPACITY_10, REPORT_LUNS, REQUEST_SENSE, SERVICE_ACTION_IN_16, SYNCHRONIZE_CACHE,
    TEST_UNIT_READY, VIRTIO_SCSI_S_OK, WRITE_10, WRITE_SAME_10, WRITE_SAME_16,
};
use crate::scsi::report_luns::{
    is_report_luns_data, lemma_report_luns_is_unique, report_luns_refused,
    scsi_command_emulate_report_luns,
};
use crate::scsi::sense::{
    SCSI_SENSE_LEN, ScsiSense, scsi_sense_invalid_field, scsi_sense_invalid_opcode,
    scsi_sense_io_error, scsi_sense_lba_out_of_range, scsi_sense_lun_not_supported,
    scsi_sense_no_sense, scsi_sense_not_ready,
};
use crate::endian::be16_at;
use vstd::prelude::*;

verus! {

/// Size of the sense field of a virtio-scsi response header.
pub const VIRTIO_SCSI_SENSE_DEFAULT_SIZE: usize = 96;

/// Alignment of asynchronous host I/O.
pub const SECTOR_SIZE: u64 = 512;

/// The header of a virtio-scsi command request.
#[derive(Clone, Copy, Debug)]
pub struct VirtioScsiCmdReq {
    /// Addressing of the logical unit.
    pub lun: [u8; 8],
    /// Command identifier.
    pub tag: u64,
    /// Task attribute.
    pub task_attr: u8,
    /// Priority.
    pub prio: u8,
    /// Command reference number.
    pub crn: u8,
    /// The command descriptor block.
    pub cdb: [u8; 32],
}

/// The header of a virtio-scsi command response.
#[derive(Clone, Copy, Debug)]
pub struct VirtioScsiCmdResp {
    /// Number of bytes of sense data.
    pub sense_len: u32,
    /// Residual: bytes that were asked for and not transferred.
    pub resid: u32,
    /// Status qualifier.
    pub status_qualifier: u16,
    /// Command status.
    pub status: u8,
    /// Transport response.
    pub response: u8,
    /// Sense data.
    pub sense: [u8; 96],
}

/// A stretch of guest memory by its address in the host.
#[derive(Clone, Copy, Debug, PartialEq, Eq, Structural)]
pub struct Iovec {
    /// Host address of the first byte.
    pub iov_base: u64,
    /// Length in bytes.
    pub iov_len: u64,
}

/// A virtio-scsi request as it was taken from the queue.
#[derive(Clone, Debug)]
pub struct VirtioScsiRequest {
    /// Request header.
    pub req: VirtioScsiCmdReq,
    /// Response header.
    pub resp: VirtioScsiCmdResp,
    /// The data buffers of the request.
    pub iovec: Vec<Iovec>,
}

/// Why a command ends without having been carried out.
#[derive(Clone, Copy, Debug, PartialEq, Eq, Structural)]
pub enum ScsiFailure {
    /// The command descriptor block does not parse.
    BadCdb,
    /// The target has no such logical unit.
    UnknownLun,
    /// The host I/O that was to carry the command out failed.
    IoError,
    /// The block address lies beyond what a file can hold.
    LbaOutOfRange,
}

/// The sense code that tells the guest of a failure.
pub open spec fn failure_sense(failure: ScsiFailure) -> ScsiSense {
    match failure {
        ScsiFailure::BadCdb => scsi_sense_invalid_field(),
        ScsiFailure::UnknownLun => scsi_sense_lun_not_supported(),
        ScsiFailure::IoError => scsi_sense_io_error(),
        ScsiFailure::LbaOutOfRange => scsi_sense_lba_out_of_range(),
    }
}

impl VirtioScsiRequest {
    /// Completes the request for a command that was not carried out: the
    /// guest is told CHECK CONDITION and the sense code of the failure, and
    /// gets no data.
    pub fn fail(&mut self, failure: ScsiFailure)
        ensures
            final(self).req == old(self).req,
            final(self).iovec == old(self).iovec,
            completed_resp(
                old(self).resp,
                VIRTIO_SCSI_S_OK,
                CHECK_CONDITION,
                Some(failure_sense(failure)),
                final(self).resp,
            ),
    {
        let sense: ScsiSense = match failure {
            ScsiFailure::BadCdb => scsi_sense_invalid_field(),
            ScsiFailure::UnknownLun => scsi_sense_lun_not_supported(),
            ScsiFailure::IoError => scsi_sense_io_error(),
            ScsiFailure::LbaOutOfRange => scsi_sense_lba_out_of_range(),
        };
        self.resp.sense[0] = 0x70;
        self.resp.sense[2] = sense.key;
        self.resp.sense[7] = (SCSI_SENSE_LEN - 8) as u8;
        self.resp.sense[12] = sense.asc;
        self.resp.sense[13] = sense.ascq;
        self.resp.sense_len = SCSI_SENSE_LEN;
        self.resp.response = VIRTIO_SCSI_S_OK;
        self.resp.status = CHECK_CONDITION;
        self.resp.resid = 0;
    }
}

/// Bytes to be written to guest memory.
#[derive(Clone, Debug)]
pub struct GuestWrite {
    /// Host address of the first byte.
    pub hva: u64,
    /// The bytes.
    pub data: Vec<u8>,
}

/// Kind of host I/O.
#[derive(Clone, Copy, Debug, PartialEq, Eq, Structural)]
pub enum IoCmd {
    /// Nothing.
    Noop,
    /// Vectored read at an offset.
    Preadv,
    /// Vectored write at an offset.
    Pwritev,
}

/// One vectored host I/O.
#[derive(Clone, Debug)]
pub struct AioCb {
    /// Whether this is the last I/O of its batch.
    pub last_aio: bool,
    /// Descriptor of the file.
    pub file_fd: i32,
    /// Kind of I/O.
    pub opcode: IoCmd,
    /// The buffers to read to or write from.
    pub iovec: Vec<Iovec>,
    /// Offset in the file in bytes.
    pub offset: u64,
    /// Whether the I/O is to be carried out.
    pub process: bool,
}

/// Host I/O together with the way to submit it.
#[derive(Clone, Debug)]
pub struct IoPlan {
    /// The I/O.
    pub aiocb: AioCb,
    /// Submit to the asynchronous engine, aligned to `SECTOR_SIZE`, where
    /// true; carry out at once where false.
    pub native: bool,
}

/// A request on its way through the engine.
#[derive(Clone, Debug)]
pub struct ScsiRequest {
    /// The parsed command.
    pub cmd: ScsiCommand,
    /// Sense buffer of the request.
    pub _sense: [u8; 252],
    /// Number of bytes used in the sense buffer.
    pub _sense_size: u32,
    /// Bytes that remain to be transferred.
    pub _resid: u64,
    /// Class of the operation: `DMA_SCSI_OPS` or `EMULATE_SCSI_OPS`.
    pub opstype: u32,
    /// The virtio-scsi request that carries the command.
    pub virtioscsireq: VirtioScsiRequest,
    /// The device that the command was routed to.
    pub dev: ScsiDevice,
}

/// A command is a request to the target, not to a logical unit, where it was
/// routed to another logical unit than it named, and REPORT LUNS always is.
pub open spec fn is_target_request(cmd: ScsiCommand, req_lun: u16, found_lun: u16) -> bool {
    req_lun != found_lun || cmd.command == REPORT_LUNS
}

/// What emulation of a command other than REPORT LUNS yields: the bytes that
/// answer it, or the sense code with which it is refused.
pub open spec fn emulation_outcome(cmd: ScsiCommand, dev: ScsiDevice, req_lun: u16, found_lun: u16)
    -> Result<Seq<u8>, ScsiSense> {
    let op = cmd.command;
    if is_target_request(cmd, req_lun, found_lun) {
        if op == INQUIRY {
            target_inquiry_response(req_lun, cmd)
        } else if op == REQUEST_SENSE || op == TEST_UNIT_READY {
            Ok(Seq::<u8>::empty())
        } else {
            Err(scsi_sense_invalid_opcode())
        }
    } else {
        if op == REQUEST_SENSE || op == WRITE_SAME_10 || op == WRITE_SAME_16 || op
            == SYNCHRONIZE_CACHE {
            Ok(Seq::<u8>::empty())
        } else if op == TEST_UNIT_READY {
            if dev.disk_image is None {
                Err(scsi_sense_not_ready())
            } else {
                Ok(Seq::<u8>::empty())
            }
        } else if op == INQUIRY {
            inquiry_response(cmd, dev)
        } else if op == READ_CAPACITY_10 {
            read_capacity_10_response(cmd, dev)
        } else if op == MODE_SENSE || op == MODE_SENSE_10 {
            mode_sense_response(cmd, dev)
        } else if op == SERVICE_ACTION_IN_16 {
            service_action_in_16_response(cmd, dev)
        } else {
            Err(scsi_sense_invalid_opcode())
        }
    }
}

/// Whether `outcome` is what emulation of a command yields. REPORT LUNS is
/// answered from the bus, every other command from the device alone.
pub open spec fn is_emulation_outcome(
    cmd: ScsiCommand,
    dev: ScsiDevice,
    bus: ScsiBus,
    req_lun: u16,
    found_lun: u16,
    outcome: Result<Seq<u8>, ScsiSense>,
) -> bool {
    if cmd.command == REPORT_LUNS {
        if report_luns_refused(cmd) {
            outcome == Err::<Seq<u8>, ScsiSense>(scsi_sense_invalid_field())
        } else {
            outcome is Ok && is_report_luns_data(bus, dev.config.target, outcome->Ok_0)
        }
    } else {
        outcome == emulation_outcome(cmd, dev, req_lun, found_lun)
    }
}

/// A command has one outcome.
pub proof fn lemma_emulation_outcome_is_unique(
    cmd: ScsiCommand,
    dev: ScsiDevice,
    bus: ScsiBus,
    req_lun: u16,
    found_lun: u16,
    a: Result<Seq<u8>, ScsiSense>,
    b: Result<Seq<u8>, ScsiSense>,
)
    requires
        is_emulation_outcome(cmd, dev, bus, req_lun, found_lun, a),
        is_emulation_outcome(cmd, dev, bus, req_lun, found_lun, b),
    ensures
        a == b,
{
    if cmd.command == REPORT_LUNS && !report_luns_refused(cmd) {
        lemma_report_luns_is_unique(bus, dev.config.target, a->Ok_0, b->Ok_0);
    }
}

/// The sense code that goes with a command that succeeded: REQUEST SENSE
/// reports that there is nothing to report, and a target asked for the
/// sense data of a logical unit other than 0 reports that it has no such
/// unit.
pub open spec fn success_sense(cmd: ScsiCommand, req_lun: u16, found_lun: u16) -> Option<
    ScsiSense,
> {
    if cmd.command != REQUEST_SENSE {
        None
    } else if is_target_request(cmd, req_lun, found_lun) {
        if req_lun != 0 {
            Some(scsi_sense_lun_not_supported())
        } else {
            None
        }
    } else {
        Some(scsi_sense_no_sense())
    }
}

/// The command status that goes with an outcome.
pub open spec fn outcome_status(outcome: Result<Seq<u8>, ScsiSense>) -> u8 {
    if outcome is Ok {
        GOOD
    } else {
        CHECK_CONDITION
    }
}

/// The sense code that goes with an outcome.
pub open spec fn outcome_sense(
    outcome: Result<Seq<u8>, ScsiSense>,
    cmd: ScsiCommand,
    req_lun: u16,
    found_lun: u16,
) -> Option<ScsiSense> {
    match outcome {
        Ok(_) => success_sense(cmd, req_lun, found_lun),
        Err(sense) => Some(sense),
    }
}

/// The bytes that go with an outcome.
pub open spec fn outcome_data(outcome: Result<Seq<u8>, ScsiSense>) -> Seq<u8> {
    match outcome {
        Ok(data) => data,
        Err(_) => Seq::<u8>::empty(),
    }
}

/// Fixed-format sense data written over `old_sense`: response code 0x70,
/// the sense key in byte 2, additional length 10 in byte 7, the additional
/// sense code and its qualifier in bytes 12 and 13.
pub open spec fn sense_written(old_sense: Seq<u8>, sense: ScsiSense) -> Seq<u8> {
    old_sense.update(0, 0x70u8).update(2, sense.key).update(7, 10u8).update(12, sense.asc).update(
        13,
        sense.ascq,
    )
}

/// The response header of a completed command.
pub open spec fn completed_resp(
    before: VirtioScsiCmdResp,
    response: u8,
    status: u8,
    sense: Option<ScsiSense>,
    after: VirtioScsiCmdResp,
) -> bool {
    &&& after.response == response
    &&& after.status == status
    &&& after.resid == 0
    &&& after.status_qualifier == before.status_qualifier
    &&& match sense {
        Some(s) => after.sense@ == sense_written(before.sense@, s) && after.sense_len
            == SCSI_SENSE_LEN,
        None => after.sense@ == before.sense@ && after.sense_len == before.sense_len,
    }
}

/// The part of `data` that goes to a buffer of `max` bytes.
pub open spec fn write_data(data: Seq<u8>, max: u64) -> Seq<u8> {
    if data.len() <= max {
        data
    } else {
        data.subrange(0, max as int)
    }
}

/// The writes that hand `data` to the guest: nothing where there is no
/// data, else to every buffer the data from its start, as far as the buffer
/// goes.
pub open spec fn are_guest_writes(iovec: Seq<Iovec>, data: Seq<u8>, writes: Seq<GuestWrite>)
    -> bool {
    if data.len() == 0 {
        writes.len() == 0
    } else {
        &&& writes.len() == iovec.len()
        &&& forall|i: int|
            0 <= i < iovec.len() ==> (#[trigger] writes[i]).hva == iovec[i].iov_base && writes[i].data@
                == write_data(data, iovec[i].iov_len)
    }
}

/// Whether `after` and `writes` are `before` completed with `outcome`.
pub open spec fn is_completion(
    before: ScsiRequest,
    outcome: Result<Seq<u8>, ScsiSense>,
    req_lun: u16,
    found_lun: u16,
    after: ScsiRequest,
    writes: Seq<GuestWrite>,
) -> bool {
    &&& after.cmd == before.cmd
    &&& after._sense == before._sense
    &&& after._sense_size == before._sense_size
    &&& after._resid == before._resid
    &&& after.opstype == before.opstype
    &&& after.dev == before.dev
    &&& after.virtioscsireq.req == before.virtioscsireq.req
    &&& after.virtioscsireq.iovec == before.virtioscsireq.iovec
    &&& completed_resp(
        before.virtioscsireq.resp,
        VIRTIO_SCSI_S_OK,
        outcome_status(outcome),
        outcome_sense(outcome, before.cmd, req_lun, found_lun),
        after.virtioscsireq.resp,
    )
    &&& are_guest_writes(before.virtioscsireq.iovec@, outcome_data(outcome), writes)
}

/// The highest block address whose offset in a file fits 64 bits.
pub const MAX_FILE_LBA: u64 = 0x7f_ffff_ffff_ffff;

/// The offset in the backing file of block `lba`: 512 bytes to the block.
pub open spec fn file_offset(lba: u64) -> int {
    lba * 512
}

/// The host I/O that carries out a command: a vectored read for a transfer
/// from the device, a vectored write for one to the device, none for a
/// command without data. A command for a block whose offset does not fit 64
/// bits is refused.
pub open spec fn is_io_plan(
    req: ScsiRequest,
    disk_fd: i32,
    direct: bool,
    last_aio: bool,
    plan: Result<Option<IoPlan>, ScsiFailure>,
) -> bool {
    match req.cmd.mode {
        ScsiXferMode::ScsiXferNone => plan is Ok && plan->Ok_0 is None,
        mode => if file_offset(req.cmd.lba) > u64::MAX {
            plan is Err && plan->Err_0 == ScsiFailure::LbaOutOfRange
        } else {
            &&& plan is Ok
            &&& plan->Ok_0 is Some
            &&& plan->Ok_0->0.native == direct
            &&& plan->Ok_0->0.aiocb.last_aio == last_aio
            &&& plan->Ok_0->0.aiocb.file_fd == disk_fd
            &&& plan->Ok_0->0.aiocb.opcode == (if mode == ScsiXferMode::ScsiXferFromDev {
                IoCmd::Preadv
            } else {
                IoCmd::Pwritev
            })
            &&& plan->Ok_0->0.aiocb.iovec@ == req.virtioscsireq.iovec@
            &&& plan->Ok_0->0.aiocb.offset == file_offset(req.cmd.lba)
            &&& plan->Ok_0->0.aiocb.process
        },
    }
}

/// A WRITE (10) and a READ (10) that name the same blocks go to the same
/// place of the same length in the file. That the read then finds what was
/// written is up to the file.
pub proof fn lemma_write_10_read_10_same_place(
    write: ScsiRequest,
    read: ScsiRequest,
    disk_fd: i32,
    direct: bool,
    write_plan: Result<Option<IoPlan>, ScsiFailure>,
    read_plan: Result<Option<IoPlan>, ScsiFailure>,
)
    requires
        write.cmd.command == WRITE_10,
        read.cmd.command == READ_10,
        cdb_parsed(write.virtioscsireq.req.cdb@, write.cmd),
        cdb_parsed(read.virtioscsireq.req.cdb@, read.cmd),
        write.virtioscsireq.req.cdb@.subrange(1, 32) == read.virtioscsireq.req.cdb@.subrange(
            1,
            32,
        ),
        is_io_plan(write, disk_fd, direct, true, write_plan),
        is_io_plan(read, disk_fd, direct, true, read_plan),
    ensures
        write.cmd.lba == read.cmd.lba,
        write.cmd.xfer == read.cmd.xfer,
        write.cmd.xfer == 512 * be16_at(write.virtioscsireq.req.cdb@, 7),
        write_plan is Ok && write_plan->Ok_0 is Some,
        read_plan is Ok && read_plan->Ok_0 is Some,
        write_plan->Ok_0->0.aiocb.opcode == IoCmd::Pwritev,
        read_plan->Ok_0->0.aiocb.opcode == IoCmd::Preadv,
        write_plan->Ok_0->0.aiocb.offset == read_plan->Ok_0->0.aiocb.offset,
        write_plan->Ok_0->0.aiocb.offset == 512 * write.cmd.lba,
        write_plan->Ok_0->0.aiocb.file_fd == read_plan->Ok_0->0.aiocb.file_fd,
{
    let w = write.virtioscsireq.req.cdb@;
    let r = read.virtioscsireq.req.cdb@;
    assert forall|i: int| 1 <= i < 32 implies w[i] == r[i] by {
        assert(w.subrange(1, 32)[i - 1] == r.subrange(1, 32)[i - 1]);
    }
}

/// The part of `buf` that fits a guest buffer of `max` bytes at host
/// address `hva`.
pub fn write_buf_mem(buf: &[u8], max: u64, hva: u64) -> (w: GuestWrite)
    ensures
        w.hva == hva,
        w.data@ == write_data(buf@, max),
{
    let mut data: Vec<u8> = Vec::new();
    let mut i: usize = 0;
    while i < buf.len() && (i as u64) < max
        invariant
            i <= buf@.len(),
            i <= max,
            data@ == buf@.subrange(0, i as int),
        decreases buf@.len() - i,
    {
        data.push(buf[i]);
        i = i + 1;
        assert(data@ =~= buf@.subrange(0, i as int));
    }
    assert(data@ =~= write_data(buf@, max));
    GuestWrite { hva, data }
}

impl ScsiRequest {
    /// A request for the command in `req`, routed to `scsidevice` on
    /// `scsibus`. Refused where the command does not parse.
    pub fn new(req: VirtioScsiRequest, scsibus: &ScsiBus, scsidevice: ScsiDevice) -> (r: Result<
        ScsiRequest,
        ScsiError,
    >)
        ensures
            r is Ok <==> cdb_group_valid(req.req.cdb@),
            r is Err ==> r->Err_0 == ScsiError::BadCdb,
            r matches Ok(s) ==> {
                &&& cdb_parsed(req.req.cdb@, s.cmd)
                &&& s._sense@ == zeros(252)
                &&& s._sense_size == 0
                &&& s._resid == s.cmd.xfer
                &&& s.opstype == (if op_is_dma(s.cmd.command) {
                    DMA_SCSI_OPS
                } else {
                    EMULATE_SCSI_OPS
                })
                &&& s.virtioscsireq == req
                &&& s.dev == scsidevice
            },
    {
        match scsibus.scsi_bus_parse_req_cdb(req.req.cdb) {
            Some(cmd) => {
                let opstype: u32 = scsi_operation_type(cmd.command);
                let _resid: u64 = cmd.xfer;
                let _sense: [u8; 252] = [0u8; 252];
                assert(_sense@ =~= zeros(252));
                Ok(
                    ScsiRequest {
                        cmd,
                        _sense,
                        _sense_size: 0,
                        _resid,
                        opstype,
                        virtioscsireq: req,
                        dev: scsidevice,
                    },
                )
            },
            None => Err(ScsiError::BadCdb),
        }
    }

    /// The host I/O that carries out the command on the file `disk_fd`:
    /// submitted to the asynchronous engine where `direct`, carried out at
    /// once where not. Refused where the block address lies beyond what a
    /// file can hold.
    pub fn execute(&self, disk_fd: i32, direct: bool, last_aio: bool) -> (plan: Result<
        Option<IoPlan>,
        ScsiFailure,
    >)
        ensures
            is_io_plan(*self, disk_fd, direct, last_aio, plan),
    {
        let opcode = match self.cmd.mode {
            ScsiXferMode::ScsiXferFromDev => IoCmd::Preadv,
            ScsiXferMode::ScsiXferToDev => IoCmd::Pwritev,
            ScsiXferMode::ScsiXferNone => {
                return Ok(None);
            },
        };
        let lba: u64 = self.cmd.lba;
        if lba > MAX_FILE_LBA {
            return Err(ScsiFailure::LbaOutOfRange);
        }
        let mut iovec: Vec<Iovec> = Vec::new();
        let mut i: usize = 0;
        while i < self.virtioscsireq.iovec.len()
            invariant
                i <= self.virtioscsireq.iovec@.len(),
                iovec@ == self.virtioscsireq.iovec@.subrange(0, i as int),
            decreases self.virtioscsireq.iovec@.len() - i,
        {
            let iov = self.virtioscsireq.iovec[i];
            iovec.push(Iovec { iov_base: iov.iov_base, iov_len: iov.iov_len });
            i = i + 1;
            assert(iovec@ =~= self.virtioscsireq.iovec@.subrange(0, i as int));
        }
        assert(iovec@ =~= self.virtioscsireq.iovec@);
        let aiocb = AioCb {
            last_aio,
            file_fd: disk_fd,
            opcode,
            iovec,
            offset: lba * 512,
            process: true,
        };
        Ok(Some(IoPlan { aiocb, native: direct }))
    }

    /// Emulates the command: what it yields, and the sense code that goes
    /// with it where it succeeds. `req_lun_id` is the logical unit that the
    /// guest named, `found_lun_id` that of the device that the command was
    /// routed to.
    pub fn emulate(&self, bus: &ScsiBus, req_lun_id: u16, found_lun_id: u16) -> (r: (
        Result<Vec<u8>, ScsiSense>,
        Option<ScsiSense>,
    ))
        ensures
            is_emulation_outcome(
                self.cmd,
                self.dev,
                *bus,
                req_lun_id,
                found_lun_id,
                outcome_of(r.0),
            ),
            r.1 == success_sense(self.cmd, req_lun_id, found_lun_id),
    {
        let op: u8 = self.cmd.command;
        let mut sense: Option<ScsiSense> = None;
        let result: Result<Vec<u8>, ScsiSense>;
        if req_lun_id != found_lun_id || op == REPORT_LUNS {
            if op == REPORT_LUNS {
                result = scsi_command_emulate_report_luns(&self.cmd, &self.dev, bus);
            } else if op == INQUIRY {
                result = scsi_command_emulate_target_inquiry(req_lun_id, &self.cmd);
            } else if op == REQUEST_SENSE {
                if req_lun_id != 0 {
                    sense = Some(scsi_sense_lun_not_supported());
                }
                result = Ok(Vec::new());
            } else if op == TEST_UNIT_READY {
                result = Ok(Vec::new());
            } else {
                result = Err(scsi_sense_invalid_opcode());
            }
        } else {
            if op == REQUEST_SENSE {
                sense = Some(scsi_sense_no_sense());
                result = Ok(Vec::new());
            } else if op == WRITE_SAME_10 || op == WRITE_SAME_16 || op == SYNCHRONIZE_CACHE {
                result = Ok(Vec::new());
            } else if op == TEST_UNIT_READY {
                if self.dev.disk_image.is_none() {
                    result = Err(scsi_sense_not_ready());
                } else {
                    result = Ok(Vec::new());
                }
            } else if op == INQUIRY {
                result = scsi_command_emulate_inquiry(&self.cmd, &self.dev);
            } else if op == READ_CAPACITY_10 {
                result = scsi_command_emulate_read_capacity_10(&self.cmd, &self.dev);
            } else if op == MODE_SENSE || op == MODE_SENSE_10 {
                result = scsi_command_emulate_mode_sense(&self.cmd, &self.dev);
            } else if op == SERVICE_ACTION_IN_16 {
                result = scsi_command_emulate_service_action_in_16(&self.cmd, &self.dev);
            } else {
                result = Err(scsi_sense_invalid_opcode());
            }
        }
        (result, sense)
    }

    /// Emulates the command and completes the request: the response header
    /// gets status and sense data, and the bytes that answer the command are
    /// returned as writes to the data buffers of the request. A command that
    /// is refused completes with CHECK CONDITION, the sense code of the
    /// refusal, and no data.
    pub fn emulate_execute(&mut self, bus: &ScsiBus, req_lun_id: u16, found_lun_id: u16) -> (writes:
        Vec<GuestWrite>)
        ensures
            exists|outcome: Result<Seq<u8>, ScsiSense>|
                #![trigger is_emulation_outcome(old(self).cmd, old(self).dev, *bus, req_lun_id, found_lun_id, outcome)]
                is_emulation_outcome(
                    old(self).cmd,
                    old(self).dev,
                    *bus,
                    req_lun_id,
                    found_lun_id,
                    outcome,
                ) && is_completion(
                    *old(self),
                    outcome,
                    req_lun_id,
                    found_lun_id,
                    *final(self),
                    writes@,
                ),
    {
        let (result, sense) = self.emulate(bus, req_lun_id, found_lun_id);
        let ghost outcome = outcome_of(result);
        let writes = match result {
            Ok(outbuf) => self.cmd_complete(VIRTIO_SCSI_S_OK, GOOD, sense, outbuf.as_slice()),
            Err(refusal) => {
                let none: Vec<u8> = Vec::new();
                self.cmd_complete(VIRTIO_SCSI_S_OK, CHECK_CONDITION, Some(refusal), none.as_slice())
            },
        };
        assert(is_emulation_outcome(
            old(self).cmd,
            old(self).dev,
            *bus,
            req_lun_id,
            found_lun_id,
            outcome,
        ));
        assert(is_completion(*old(self), outcome, req_lun_id, found_lun_id, *self, writes@));
        writes
    }

    /// Writes `sense` to the response header as fixed-format sense data.
    pub fn set_scsi_sense(&mut self, sense: ScsiSense)
        ensures
            final(self).virtioscsireq.resp.sense@ == sense_written(
                old(self).virtioscsireq.resp.sense@,
                sense,
            ),
            final(self).virtioscsireq.resp.sense_len == SCSI_SENSE_LEN,
            final(self).virtioscsireq.resp.resid == old(self).virtioscsireq.resp.resid,
            final(self).virtioscsireq.resp.status_qualifier == old(
                self,
            ).virtioscsireq.resp.status_qualifier,
            final(self).virtioscsireq.resp.status == old(self).virtioscsireq.resp.status,
            final(self).virtioscsireq.resp.response == old(self).virtioscsireq.resp.response,
            final(self).virtioscsireq.req == old(self).virtioscsireq.req,
            final(self).virtioscsireq.iovec == old(self).virtioscsireq.iovec,
            final(self).cmd == old(self).cmd,
            final(self)._sense == old(self)._sense,
            final(self)._sense_size == old(self)._sense_size,
            final(self)._resid == old(self)._resid,
            final(self).opstype == old(self).opstype,
            final(self).dev == old(self).dev,
    {
        self.virtioscsireq.resp.sense[0] = 0x70;
        self.virtioscsireq.resp.sense[2] = sense.key;
        self.virtioscsireq.resp.sense[7] = (SCSI_SENSE_LEN - 8) as u8;
        self.virtioscsireq.resp.sense[12] = sense.asc;
        self.virtioscsireq.resp.sense[13] = sense.ascq;
        self.virtioscsireq.resp.sense_len = SCSI_SENSE_LEN;
    }

    /// Completes the request: writes `response`, `status` and, where there
    /// is one, the sense code to the response header, clears the residual,
    /// and returns the writes that hand `outbuf` to the guest.
    pub fn cmd_complete(
        &mut self,
        response: u8,
        status: u8,
        scsisense: Option<ScsiSense>,
        outbuf: &[u8],
    ) -> (writes: Vec<GuestWrite>)
        ensures
            completed_resp(
                old(self).virtioscsireq.resp,
                response,
                status,
                scsisense,
                final(self).virtioscsireq.resp,
            ),
            are_guest_writes(old(self).virtioscsireq.iovec@, outbuf@, writes@),
            final(self).virtioscsireq.req == old(self).virtioscsireq.req,
            final(self).virtioscsireq.iovec == old(self).virtioscsireq.iovec,
            final(self).cmd == old(self).cmd,
            final(self)._sense == old(self)._sense,
            final(self)._sense_size == old(self)._sense_size,
            final(self)._resid == old(self)._resid,
            final(self).opstype == old(self).opstype,
            final(self).dev == old(self).dev,
    {
        if let Some(sense) = scsisense {
            self.set_scsi_sense(sense);
        }
        self.virtioscsireq.resp.response = response;
        self.virtioscsireq.resp.status = status;
        self.virtioscsireq.resp.resid = 0;
        let mut writes: Vec<GuestWrite> = Vec::new();
        if outbuf.len() > 0 {
            let mut i: usize = 0;
            while i < self.virtioscsireq.iovec.len()
                invariant
                    i <= self.virtioscsireq.iovec@.len(),
                    writes@.len() == i,
                    forall|j: int|
                        0 <= j < i ==> (#[trigger] writes@[j]).hva
                            == self.virtioscsireq.iovec@[j].iov_base && writes@[j].data@
                            == write_data(outbuf@, self.virtioscsireq.iovec@[j].iov_len),
                decreases self.virtioscsireq.iovec@.len() - i,
            {
                let iov = self.virtioscsireq.iovec[i];
                writes.push(write_buf_mem(outbuf, iov.iov_len, iov.iov_base));
                i = i + 1;
            }
        }
        writes
    }
}

} // verus!
