//! MODE SENSE (6) and MODE SENSE (10).

use crate::endian::{be32_bytes, write_be32};
use crate::scsi::buffer::{append_bytes, append_zeros, is_outcome, zeros};
use crate::scsi::cdb::ScsiCommand;
use crate::scsi::device::{
    DEFAULT_SECTOR_SIZE, SCSI_DISK_F_DPOFUA, SCSI_TYPE_DISK, ScsiDevice, feature_is_set,
};
use crate::scsi::opcode::{
    MODE_PAGE_ALLS, MODE_PAGE_CACHING, MODE_PAGE_R_W_ERROR, MODE_SENSE, MODE_SENSE_10,
};
use crate::scsi::sense::{
    ScsiSense, scsi_sense_invalid_field, scsi_sense_saving_params_not_supported,
};
use vstd::prelude::*;

verus! {

/// A mode page as MODE SENSE reports it: the read-write error recovery page
/// and the caching page are supported. With page control 1, which asks for
/// the changeable values, the error recovery page shows no bit set.
pub open spec fn mode_page(page: u8, page_control: u8) -> Option<Seq<u8>> {
    if page == MODE_PAGE_CACHING {
        Some(seq![MODE_PAGE_CACHING, 18u8, 0x4u8] + zeros(17))
    } else if page == MODE_PAGE_R_W_ERROR {
        Some(
            seq![
                MODE_PAGE_R_W_ERROR,
                10u8,
                if page_control != 1 {
                    0x80u8
                } else {
                    0u8
                },
            ] + zeros(9),
        )
    } else {
        None
    }
}

/// The supported pages with a code below `n`, in the order of their
/// codes.
pub open spec fn mode_pages_below(n: int, page_control: u8) -> Seq<u8>
    decreases n,
{
    if n <= 0 {
        Seq::<u8>::empty()
    } else {
        mode_pages_below(n - 1, page_control) + (match mode_page((n - 1) as u8, page_control) {
            Some(page) => page,
            None => Seq::<u8>::empty(),
        })
    }
}

/// The pages that a command for `page_code` gets: every supported page in
/// the order of their codes for the code that asks for all, else the one
/// page.
pub open spec fn mode_pages(page_code: u8, page_control: u8) -> Option<Seq<u8>> {
    if page_code == MODE_PAGE_ALLS {
        Some(mode_pages_below(MODE_PAGE_ALLS as int, page_control))
    } else {
        mode_page(page_code, page_control)
    }
}

/// The device specific parameter of the mode parameter header.
pub open spec fn mode_device_parameter(dev: ScsiDevice) -> u8 {
    if dev.scsi_type == SCSI_TYPE_DISK && feature_is_set(dev.state.features, SCSI_DISK_F_DPOFUA) {
        0x10u8
    } else {
        0u8
    }
}

/// Whether the answer carries a block descriptor: for a disk, unless the
/// command disables block descriptors.
pub open spec fn mode_has_block_descriptor(cmd: ScsiCommand, dev: ScsiDevice) -> bool {
    cmd.buf[1] & 0x8 == 0 && dev.scsi_type == SCSI_TYPE_DISK
}

/// The block descriptor: density code 0, the low 24 bits of the number of
/// sectors, a reserved byte and the sector size in 24 bits.
pub open spec fn mode_block_descriptor(dev: ScsiDevice) -> Seq<u8> {
    be32_bytes((dev.disk_sectors & 0xff_ffff) as u32) + be32_bytes(DEFAULT_SECTOR_SIZE)
}

/// What follows the mode parameter header.
pub open spec fn mode_body(cmd: ScsiCommand, dev: ScsiDevice) -> Seq<u8> {
    (if mode_has_block_descriptor(cmd, dev) {
        mode_block_descriptor(dev)
    } else {
        Seq::<u8>::empty()
    }) + mode_pages(cmd.buf[2] & 0x3f, (cmd.buf[2] & 0xc0) >> 6)->0
}

/// The mode parameter header for a body of `body_len` bytes: four bytes for
/// MODE SENSE (6), eight for MODE SENSE (10). Its first field is the number
/// of bytes that follow that field.
pub open spec fn mode_header(cmd: ScsiCommand, dev: ScsiDevice, body_len: int) -> Seq<u8> {
    let descriptor_len = if mode_has_block_descriptor(cmd, dev) {
        8u8
    } else {
        0u8
    };
    if cmd.command == MODE_SENSE {
        seq![(body_len + 3) as u8, 0u8, mode_device_parameter(dev), descriptor_len]
    } else {
        seq![
            ((body_len + 6) / 256) as u8,
            ((body_len + 6) % 256) as u8,
            0u8,
            mode_device_parameter(dev),
            0u8,
            0u8,
            0u8,
            descriptor_len,
        ]
    }
}

/// The answer to MODE SENSE. Page control 3, which asks for saved values, is
/// refused, and so is a page that is not supported.
pub open spec fn mode_sense_response(cmd: ScsiCommand, dev: ScsiDevice) -> Result<
    Seq<u8>,
    ScsiSense,
> {
    let page_code = cmd.buf[2] & 0x3f;
    let page_control = (cmd.buf[2] & 0xc0) >> 6;
    if page_control == 3 {
        Err(scsi_sense_saving_params_not_supported())
    } else if mode_pages(page_code, page_control) is None {
        Err(scsi_sense_invalid_field())
    } else {
        let body = mode_body(cmd, dev);
        Ok(mode_header(cmd, dev, body.len() as int) + body)
    }
}

/// The supported pages below `n` are the error recovery page, where `n`
/// is above its code, and then the caching page, where `n` is above its
/// code.
pub proof fn lemma_mode_pages_below(n: int, page_control: u8)
    requires
        0 <= n <= 0x100,
    ensures
        mode_pages_below(n, page_control) == (if n > MODE_PAGE_R_W_ERROR {
            mode_page(MODE_PAGE_R_W_ERROR, page_control)->0
        } else {
            Seq::<u8>::empty()
        }) + (if n > MODE_PAGE_CACHING {
            mode_page(MODE_PAGE_CACHING, page_control)->0
        } else {
            Seq::<u8>::empty()
        }),
    decreases n,
{
    if n > 0 {
        lemma_mode_pages_below(n - 1, page_control);
        let step = match mode_page((n - 1) as u8, page_control) {
            Some(page) => page,
            None => Seq::<u8>::empty(),
        };
        let want = (if n > MODE_PAGE_R_W_ERROR {
            mode_page(MODE_PAGE_R_W_ERROR, page_control)->0
        } else {
            Seq::<u8>::empty()
        }) + (if n > MODE_PAGE_CACHING {
            mode_page(MODE_PAGE_CACHING, page_control)->0
        } else {
            Seq::<u8>::empty()
        });
        assert(mode_pages_below(n - 1, page_control) + step =~= want);
    } else {
        assert(mode_pages_below(n, page_control) =~= Seq::<u8>::empty() + Seq::<u8>::empty());
    }
}

/// A command for all pages gets the error recovery page and then the
/// caching page, 32 bytes in all.
pub proof fn lemma_all_pages_in_order(page_control: u8)
    ensures
        mode_pages(MODE_PAGE_ALLS, page_control) == Some(
            mode_page(MODE_PAGE_R_W_ERROR, page_control)->0 + mode_page(
                MODE_PAGE_CACHING,
                page_control,
            )->0,
        ),
        mode_pages(MODE_PAGE_ALLS, page_control)->0.len() == 32,
        mode_pages(MODE_PAGE_ALLS, page_control)->0[0] == MODE_PAGE_R_W_ERROR,
        mode_pages(MODE_PAGE_ALLS, page_control)->0[12] == MODE_PAGE_CACHING,
{
    lemma_mode_pages_below(MODE_PAGE_ALLS as int, page_control);
}

/// MODE SENSE (10) for all pages succeeds unless it asks for saved values,
/// and its answer ends with the error recovery page and then the caching
/// page.
pub proof fn lemma_mode_sense_10_all_pages(cmd: ScsiCommand, dev: ScsiDevice)
    requires
        cmd.command == MODE_SENSE_10,
        cmd.buf[2] & 0x3f == MODE_PAGE_ALLS,
        (cmd.buf[2] & 0xc0) >> 6 != 3,
    ensures
        mode_sense_response(cmd, dev) is Ok,
        ({
            let answer = mode_sense_response(cmd, dev)->Ok_0;
            let page_control = (cmd.buf[2] & 0xc0) >> 6;
            &&& answer.len() == 40 || answer.len() == 48
            &&& answer.subrange(answer.len() - 32, answer.len() - 20) == mode_page(
                MODE_PAGE_R_W_ERROR,
                page_control,
            )->0
            &&& answer.subrange(answer.len() - 20, answer.len() as int) == mode_page(
                MODE_PAGE_CACHING,
                page_control,
            )->0
            &&& answer[answer.len() - 32] == MODE_PAGE_R_W_ERROR
            &&& answer[answer.len() - 20] == MODE_PAGE_CACHING
        }),
{
    let page_control = (cmd.buf[2] & 0xc0) >> 6;
    lemma_all_pages_in_order(page_control);
    let answer = mode_sense_response(cmd, dev)->Ok_0;
    assert(answer.subrange(answer.len() - 32, answer.len() - 20) =~= mode_page(
        MODE_PAGE_R_W_ERROR,
        page_control,
    )->0);
    assert(answer.subrange(answer.len() - 20, answer.len() as int) =~= mode_page(
        MODE_PAGE_CACHING,
        page_control,
    )->0);
}

/// Appends mode page `page` to `outbuf` and returns a copy of the buffer as
/// it then is. A page that is not supported is refused and the buffer stays
/// as it was.
pub fn scsi_command_emulate_mode_sense_page(page: u8, page_control: u8, outbuf: &mut Vec<u8>) -> (r:
    Result<Vec<u8>, ScsiSense>)
    ensures
        match mode_page(page, page_control) {
            Some(bytes) => {
                &&& final(outbuf)@ == old(outbuf)@ + bytes
                &&& r is Ok
                &&& r->Ok_0@ == final(outbuf)@
            },
            None => {
                &&& final(outbuf)@ == old(outbuf)@
                &&& r == Err::<Vec<u8>, ScsiSense>(scsi_sense_invalid_field())
            },
        },
{
    if page == MODE_PAGE_CACHING {
        outbuf.push(page);
        outbuf.push(18);
        outbuf.push(0x4);
        append_zeros(outbuf, 17);
        assert(outbuf@ =~= old(outbuf)@ + (seq![MODE_PAGE_CACHING, 18u8, 0x4u8] + zeros(17)));
    } else if page == MODE_PAGE_R_W_ERROR {
        outbuf.push(page);
        outbuf.push(10);
        if page_control != 1 {
            outbuf.push(0x80);
        } else {
            outbuf.push(0);
        }
        append_zeros(outbuf, 9);
        assert(outbuf@ =~= old(outbuf)@ + mode_page(page, page_control)->0);
    } else {
        return Err(scsi_sense_invalid_field());
    }
    let mut copy: Vec<u8> = Vec::new();
    append_bytes(&mut copy, outbuf.as_slice());
    assert(copy@ =~= outbuf@);
    Ok(copy)
}

/// MODE SENSE (6) and MODE SENSE (10).
pub fn scsi_command_emulate_mode_sense(cmd: &ScsiCommand, dev: &ScsiDevice) -> (r: Result<
    Vec<u8>,
    ScsiSense,
>)
    ensures
        is_outcome(r, mode_sense_response(*cmd, *dev)),
{
    let page_code: u8 = cmd.buf[2] & 0x3f;
    let code_bits: u8 = cmd.buf[2];
    let page_control: u8 = (code_bits & 0xc0) >> 6;
    let mut dbd: bool = cmd.buf[1] & 0x8 != 0;
    let mut dev_specific_parameter: u8 = 0;
    let nb_sectors: u64 = dev.disk_sectors;
    if dev.scsi_type == SCSI_TYPE_DISK {
        if dev.has_feature(SCSI_DISK_F_DPOFUA) {
            dev_specific_parameter = 0x10;
        }
    } else {
        dbd = true;
    }
    let has_descriptor: bool = !dbd;
    assert(has_descriptor == mode_has_block_descriptor(*cmd, *dev));
    let mut body: Vec<u8> = Vec::new();
    if has_descriptor {
        assert(nb_sectors & 0xff_ffff <= 0xff_ffff) by (bit_vector);
        append_bytes(&mut body, write_be32((nb_sectors & 0xff_ffff) as u32).as_slice());
        append_bytes(&mut body, write_be32(DEFAULT_SECTOR_SIZE).as_slice());
    }
    if page_control == 3 {
        return Err(scsi_sense_saving_params_not_supported());
    }
    if page_code == MODE_PAGE_ALLS {
        let ghost base = body@;
        let mut pg: u8 = 0;
        while pg < page_code
            invariant
                pg <= page_code,
                body@ == base + mode_pages_below(pg as int, page_control),
            decreases page_code - pg,
        {
            let _ = scsi_command_emulate_mode_sense_page(pg, page_control, &mut body);
            pg = pg + 1;
            assert(body@ =~= base + mode_pages_below(pg as int, page_control));
        }
        proof {
            lemma_mode_pages_below(MODE_PAGE_ALLS as int, page_control);
        }
    } else {
        match scsi_command_emulate_mode_sense_page(page_code, page_control, &mut body) {
            Ok(_) => {},
            Err(sense) => {
                return Err(sense);
            },
        }
    }
    assert(body@ =~= mode_body(*cmd, *dev));
    assert(body@.len() <= 40);
    let descriptor_len: u8 = if has_descriptor {
        8
    } else {
        0
    };
    let mut outbuf: Vec<u8> = Vec::new();
    if cmd.command == MODE_SENSE {
        outbuf.push((body.len() + 3) as u8);
        outbuf.push(0);
        outbuf.push(dev_specific_parameter);
        outbuf.push(descriptor_len);
    } else {
        outbuf.push(((body.len() + 6) / 256) as u8);
        outbuf.push(((body.len() + 6) % 256) as u8);
        outbuf.push(0);
        outbuf.push(dev_specific_parameter);
        outbuf.push(0);
        outbuf.push(0);
        outbuf.push(0);
        outbuf.push(descriptor_len);
    }
    assert(outbuf@ =~= mode_header(*cmd, *dev, body@.len() as int));
    append_bytes(&mut outbuf, body.as_slice());
    Ok(outbuf)
}

} // verus!
