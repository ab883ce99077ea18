//! The INQUIRY command: standard data, vital product data pages, and the
//! answer of a target for a logical unit that it does not have.

use crate::endian::{be32_bytes, be64_bytes, write_be32, write_be64};
use crate::scsi::buffer::{append_bytes, append_zeros, fit, fit_bytes, is_outcome, zeros};
use crate::scsi::cdb::ScsiCommand;
use crate::scsi::device::{
    SCSI_DISK_F_REMOVABLE, SCSI_TYPE_DISK, ScsiDevice, bytes_of, feature_is_set,
};
use crate::scsi::opcode::{
    SCSI_INQUIRY_PRODUCT_MAX_LEN, SCSI_INQUIRY_VENDOR_MAX_LEN, SCSI_INQUIRY_VERSION_MAX_LEN,
    SCSI_INQUIRY_VPD_SERIAL_NUMBER_MAX_LEN, SCSI_MAX_INQUIRY_LEN, SCSI_TARGET_INQUIRY_LEN,
    TYPE_INACTIVE, TYPE_NO_LUN, TYPE_UNKNOWN,
};
use crate::scsi::sense::{ScsiSense, scsi_sense_invalid_field};
use vstd::prelude::*;
use vstd::string::StringSliceAdditionalSpecFns;

verus! {

/// Largest transfer that the block limits page announces, in blocks.
pub const MAX_XFER_BLOCKS: u32 = 0x7f_ffff;
/// Largest number of blocks of one UNMAP that the block limits page announces.
pub const MAX_UNMAP_BLOCKS: u32 = 0x20_0000;
/// Largest number of block descriptors of one UNMAP.
pub const MAX_UNMAP_DESCRIPTORS: u32 = 255;
/// Optimal UNMAP granularity in blocks.
pub const OPT_UNMAP_GRANULARITY: u32 = 8;
/// Longest device identifier that the device identification page carries.
pub const MAX_DEVICE_ID_LEN: usize = 247;

/// The peripheral device type byte that opens every INQUIRY answer.
pub open spec fn peripheral_type(dev: ScsiDevice) -> u8 {
    (dev.scsi_type & 0x1f) as u8
}

/// The first 36 bytes of standard INQUIRY data for a transfer of `buflen`
/// bytes: eight bytes of flags, then vendor, product and revision, each cut
/// or padded with zeros to its width of 8, 16 and 4 bytes.
pub open spec fn inquiry_data(dev: ScsiDevice, buflen: int) -> Seq<u8> {
    seq![
        peripheral_type(dev),
        if feature_is_set(dev.state.features, SCSI_DISK_F_REMOVABLE) {
            0x80u8
        } else {
            0u8
        },
        5u8,
        0x12u8,
        if buflen > 36 {
            (buflen - 5) as u8
        } else {
            31u8
        },
        0u8,
        0u8,
        0x12u8,
    ] + fit(bytes_of(dev.state.vendor), 8) + fit(bytes_of(dev.state.product), 16) + fit(
        bytes_of(dev.state.version),
        4,
    )
}

/// Standard INQUIRY data for a command that asks for `xfer` bytes: as many
/// bytes as were asked for, 256 at most.
pub open spec fn standard_inquiry(dev: ScsiDevice, xfer: u64) -> Seq<u8> {
    let buflen = if xfer < SCSI_MAX_INQUIRY_LEN {
        xfer as int
    } else {
        SCSI_MAX_INQUIRY_LEN as int
    };
    fit(inquiry_data(dev, buflen), buflen)
}

/// The page codes that the supported pages page lists.
pub open spec fn vpd_supported_pages(dev: ScsiDevice) -> Seq<u8> {
    seq![0x00u8] + (if bytes_of(dev.state.serial).len() > 0 {
        seq![0x80u8]
    } else {
        Seq::<u8>::empty()
    }) + seq![0x83u8] + (if dev.scsi_type == SCSI_TYPE_DISK {
        seq![0xb0u8, 0xb1u8, 0xb2u8]
    } else {
        Seq::<u8>::empty()
    })
}

/// The 60 bytes of the block limits page behind its header.
pub open spec fn vpd_block_limits() -> Seq<u8> {
    seq![1u8, 0u8, 0u8, 0u8] + be32_bytes(MAX_XFER_BLOCKS) + zeros(8) + be32_bytes(
        MAX_UNMAP_BLOCKS,
    ) + be32_bytes(MAX_UNMAP_DESCRIPTORS) + be32_bytes(OPT_UNMAP_GRANULARITY) + zeros(4)
        + be64_bytes(MAX_XFER_BLOCKS as u64) + zeros(20)
}

/// What a vital product data page carries behind its four-byte header, or
/// the sense code with which the page is refused.
pub open spec fn vpd_payload(dev: ScsiDevice, page: u8) -> Result<Seq<u8>, ScsiSense> {
    let serial = bytes_of(dev.state.serial);
    let id = bytes_of(dev.state.device_id);
    if page == 0x00 {
        Ok(vpd_supported_pages(dev))
    } else if page == 0x80 {
        if serial.len() == 0 {
            Err(scsi_sense_invalid_field())
        } else if serial.len() > SCSI_INQUIRY_VPD_SERIAL_NUMBER_MAX_LEN {
            Ok(serial.subrange(0, SCSI_INQUIRY_VPD_SERIAL_NUMBER_MAX_LEN as int))
        } else {
            Ok(serial)
        }
    } else if page == 0x83 {
        if id.len() == 0 {
            Ok(Seq::<u8>::empty())
        } else if id.len() > MAX_DEVICE_ID_LEN {
            Ok(
                seq![0x2u8, 0u8, 0u8, MAX_DEVICE_ID_LEN as u8] + id.subrange(
                    0,
                    MAX_DEVICE_ID_LEN as int,
                ),
            )
        } else {
            Ok(seq![0x2u8, 0u8, 0u8, id.len() as u8] + id)
        }
    } else if page == 0xb0 {
        if dev.scsi_type == SCSI_TYPE_DISK {
            Ok(vpd_block_limits())
        } else {
            Err(scsi_sense_invalid_field())
        }
    } else if page == 0xb1 {
        Ok(zeros(60))
    } else if page == 0xb2 {
        Ok(seq![0u8, 0xe0u8, 1u8, 0u8])
    } else {
        Err(scsi_sense_invalid_field())
    }
}

/// A vital product data page: peripheral type, page code, a zero byte and
/// the length of what follows, then what the page carries.
pub open spec fn vpd_page(dev: ScsiDevice, page: u8) -> Result<Seq<u8>, ScsiSense> {
    match vpd_payload(dev, page) {
        Ok(payload) => Ok(
            seq![peripheral_type(dev), page, 0u8, payload.len() as u8] + payload,
        ),
        Err(sense) => Err(sense),
    }
}

/// The answer of a device to INQUIRY.
pub open spec fn inquiry_response(cmd: ScsiCommand, dev: ScsiDevice) -> Result<Seq<u8>, ScsiSense> {
    if cmd.buf[1] == 0x1 {
        vpd_page(dev, cmd.buf[2])
    } else if cmd.buf[2] != 0 {
        Err(scsi_sense_invalid_field())
    } else {
        Ok(standard_inquiry(dev, cmd.xfer))
    }
}

/// The additional length byte of the target's standard INQUIRY data: what
/// follows byte 4 of a transfer of `xfer` bytes, 36 at most.
pub open spec fn target_inquiry_additional_len(xfer: u64) -> u8 {
    if xfer >= SCSI_TARGET_INQUIRY_LEN {
        (SCSI_TARGET_INQUIRY_LEN - 5) as u8
    } else if xfer >= 5 {
        (xfer - 5) as u8
    } else {
        0u8
    }
}

/// The answer of a target to INQUIRY for the logical unit `lun`, which it
/// does not have.
pub open spec fn target_inquiry_response(lun: u16, cmd: ScsiCommand) -> Result<
    Seq<u8>,
    ScsiSense,
> {
    if cmd.buf[1] == 0x1 {
        if cmd.buf[2] == 0x00 {
            Ok(seq![0u8, 0u8, 0u8, 1u8, 0u8])
        } else {
            Err(scsi_sense_invalid_field())
        }
    } else if cmd.buf[2] != 0 {
        Err(scsi_sense_invalid_field())
    } else {
        Ok(
            seq![
                if lun != 0 {
                    TYPE_NO_LUN
                } else {
                    TYPE_UNKNOWN | TYPE_INACTIVE
                },
                0u8,
                5u8,
                0x12u8,
                if lun != 0 {
                    0u8
                } else {
                    target_inquiry_additional_len(cmd.xfer)
                },
                0u8,
                0u8,
                0x12u8,
            ] + zeros(28),
        )
    }
}

/// An INQUIRY for the page of supported pages succeeds and lists the pages
/// behind its four-byte header, and an INQUIRY for any page that it lists
/// succeeds too. `first` asks for the page of supported pages, `next` for
/// the page that stands `i`th in the list.
pub proof fn lemma_listed_vpd_pages_succeed(
    dev: ScsiDevice,
    first: ScsiCommand,
    next: ScsiCommand,
    i: int,
)
    requires
        first.buf[1] == 0x1,
        first.buf[2] == 0x00,
        0 <= i < vpd_supported_pages(dev).len(),
        next.buf[1] == 0x1,
        next.buf[2] == vpd_supported_pages(dev)[i],
    ensures
        inquiry_response(first, dev) is Ok,
        inquiry_response(first, dev)->Ok_0.len() == 4 + vpd_supported_pages(dev).len(),
        inquiry_response(first, dev)->Ok_0[3] == vpd_supported_pages(dev).len(),
        inquiry_response(first, dev)->Ok_0[4 + i] == next.buf[2],
        inquiry_response(next, dev) is Ok,
        inquiry_response(next, dev)->Ok_0[1] == next.buf[2],
{
    let pages = vpd_supported_pages(dev);
    let page = pages[i];
    assert(page == 0x00 || page == 0x83 || (page == 0x80 && bytes_of(dev.state.serial).len() > 0)
        || ((page == 0xb0 || page == 0xb1 || page == 0xb2) && dev.scsi_type == SCSI_TYPE_DISK));
}

fn peripheral_type_of(dev: &ScsiDevice) -> (r: u8)
    ensures
        r == peripheral_type(*dev),
{
    let t: u32 = dev.scsi_type;
    assert(t & 0x1f < 0x100) by (bit_vector);
    (t & 0x1f) as u8
}

/// Standard INQUIRY data and vital product data pages of a device.
pub fn scsi_command_emulate_inquiry(cmd: &ScsiCommand, dev: &ScsiDevice) -> (r: Result<
    Vec<u8>,
    ScsiSense,
>)
    ensures
        is_outcome(r, inquiry_response(*cmd, *dev)),
{
    if cmd.buf[1] == 0x1 {
        return scsi_command_emulate_vpd_page(cmd, dev);
    }
    if cmd.buf[2] != 0 {
        return Err(scsi_sense_invalid_field());
    }
    let buflen: u32 = if cmd.xfer < SCSI_MAX_INQUIRY_LEN as u64 {
        cmd.xfer as u32
    } else {
        SCSI_MAX_INQUIRY_LEN
    };
    let mut data: Vec<u8> = Vec::new();
    data.push(peripheral_type_of(dev));
    data.push(
        if dev.has_feature(SCSI_DISK_F_REMOVABLE) {
            0x80
        } else {
            0
        },
    );
    data.push(5);
    data.push(0x12);
    data.push(
        if buflen > 36 {
            (buflen - 5) as u8
        } else {
            31
        },
    );
    data.push(0);
    data.push(0);
    data.push(0x12);
    let vendor = fit_bytes(dev.state.vendor.as_str().as_bytes(), SCSI_INQUIRY_VENDOR_MAX_LEN);
    let product = fit_bytes(dev.state.product.as_str().as_bytes(), SCSI_INQUIRY_PRODUCT_MAX_LEN);
    let version = fit_bytes(dev.state.version.as_str().as_bytes(), SCSI_INQUIRY_VERSION_MAX_LEN);
    append_bytes(&mut data, vendor.as_slice());
    append_bytes(&mut data, product.as_slice());
    append_bytes(&mut data, version.as_slice());
    assert(data@ =~= inquiry_data(*dev, buflen as int));
    Ok(fit_bytes(data.as_slice(), buflen as usize))
}

/// A vital product data page of a device.
pub fn scsi_command_emulate_vpd_page(cmd: &ScsiCommand, dev: &ScsiDevice) -> (r: Result<
    Vec<u8>,
    ScsiSense,
>)
    ensures
        is_outcome(r, vpd_page(*dev, cmd.buf[2])),
{
    let page_code: u8 = cmd.buf[2];
    let serial = dev.state.serial.as_str().as_bytes();
    let id = dev.state.device_id.as_str().as_bytes();
    let mut payload: Vec<u8> = Vec::new();
    if page_code == 0x00 {
        payload.push(0x00);
        if serial.len() > 0 {
            payload.push(0x80);
        }
        payload.push(0x83);
        if dev.scsi_type == SCSI_TYPE_DISK {
            payload.push(0xb0);
            payload.push(0xb1);
            payload.push(0xb2);
        }
        assert(payload@ =~= vpd_supported_pages(*dev));
    } else if page_code == 0x80 {
        if serial.len() == 0 {
            return Err(scsi_sense_invalid_field());
        }
        if serial.len() > SCSI_INQUIRY_VPD_SERIAL_NUMBER_MAX_LEN {
            payload = fit_bytes(serial, SCSI_INQUIRY_VPD_SERIAL_NUMBER_MAX_LEN);
            assert(payload@ =~= serial@.subrange(
                0,
                SCSI_INQUIRY_VPD_SERIAL_NUMBER_MAX_LEN as int,
            ));
        } else {
            payload = fit_bytes(serial, serial.len());
            assert(payload@ =~= serial@);
        }
    } else if page_code == 0x83 {
        if id.len() > MAX_DEVICE_ID_LEN {
            payload.push(0x2);
            payload.push(0);
            payload.push(0);
            payload.push(MAX_DEVICE_ID_LEN as u8);
            let head = fit_bytes(id, MAX_DEVICE_ID_LEN);
            assert(head@ =~= id@.subrange(0, MAX_DEVICE_ID_LEN as int));
            append_bytes(&mut payload, head.as_slice());
        } else if id.len() > 0 {
            payload.push(0x2);
            payload.push(0);
            payload.push(0);
            payload.push(id.len() as u8);
            append_bytes(&mut payload, id);
        }
        assert(vpd_payload(*dev, page_code) == Ok::<Seq<u8>, ScsiSense>(payload@)) by {
            if id@.len() > MAX_DEVICE_ID_LEN {
                assert(payload@ =~= seq![0x2u8, 0u8, 0u8, MAX_DEVICE_ID_LEN as u8] + id@.subrange(
                    0,
                    MAX_DEVICE_ID_LEN as int,
                ));
            } else if id@.len() > 0 {
                assert(payload@ =~= seq![0x2u8, 0u8, 0u8, id@.len() as u8] + id@);
            } else {
                assert(payload@ =~= Seq::<u8>::empty());
            }
        }
    } else if page_code == 0xb0 {
        if dev.scsi_type != SCSI_TYPE_DISK {
            return Err(scsi_sense_invalid_field());
        }
        payload.push(1);
        append_zeros(&mut payload, 3);
        append_bytes(&mut payload, write_be32(MAX_XFER_BLOCKS).as_slice());
        append_zeros(&mut payload, 8);
        append_bytes(&mut payload, write_be32(MAX_UNMAP_BLOCKS).as_slice());
        append_bytes(&mut payload, write_be32(MAX_UNMAP_DESCRIPTORS).as_slice());
        append_bytes(&mut payload, write_be32(OPT_UNMAP_GRANULARITY).as_slice());
        append_zeros(&mut payload, 4);
        append_bytes(&mut payload, write_be64(MAX_XFER_BLOCKS as u64).as_slice());
        append_zeros(&mut payload, 20);
        assert(payload@ =~= vpd_block_limits());
    } else if page_code == 0xb1 {
        append_zeros(&mut payload, 60);
        assert(payload@ =~= zeros(60));
    } else if page_code == 0xb2 {
        payload.push(0);
        payload.push(0xe0);
        payload.push(1);
        payload.push(0);
        assert(payload@ =~= seq![0u8, 0xe0u8, 1u8, 0u8]);
    } else {
        return Err(scsi_sense_invalid_field());
    }
    assert(vpd_payload(*dev, page_code) == Ok::<Seq<u8>, ScsiSense>(payload@));
    assert(payload@.len() <= 251);
    let mut outbuf: Vec<u8> = Vec::new();
    outbuf.push(peripheral_type_of(dev));
    outbuf.push(page_code);
    outbuf.push(0);
    outbuf.push(payload.len() as u8);
    append_bytes(&mut outbuf, payload.as_slice());
    assert(outbuf@ =~= seq![
        peripheral_type(*dev),
        page_code,
        0u8,
        payload@.len() as u8,
    ] + payload@);
    Ok(outbuf)
}

/// The answer of a target to INQUIRY for the logical unit `lun`, which it
/// does not have.
pub fn scsi_command_emulate_target_inquiry(lun: u16, cmd: &ScsiCommand) -> (r: Result<
    Vec<u8>,
    ScsiSense,
>)
    ensures
        is_outcome(r, target_inquiry_response(lun, *cmd)),
{
    let mut outbuf: Vec<u8> = Vec::new();
    if cmd.buf[1] == 0x1 {
        if cmd.buf[2] != 0x00 {
            return Err(scsi_sense_invalid_field());
        }
        outbuf.push(0);
        outbuf.push(0);
        outbuf.push(0);
        outbuf.push(1);
        outbuf.push(0);
        assert(outbuf@ =~= seq![0u8, 0u8, 0u8, 1u8, 0u8]);
        return Ok(outbuf);
    }
    if cmd.buf[2] != 0 {
        return Err(scsi_sense_invalid_field());
    }
    let additional: u8 = if cmd.xfer >= SCSI_TARGET_INQUIRY_LEN as u64 {
        (SCSI_TARGET_INQUIRY_LEN - 5) as u8
    } else if cmd.xfer >= 5 {
        (cmd.xfer - 5) as u8
    } else {
        0
    };
    if lun != 0 {
        outbuf.push(TYPE_NO_LUN);
    } else {
        outbuf.push(TYPE_UNKNOWN | TYPE_INACTIVE);
    }
    outbuf.push(0);
    outbuf.push(5);
    outbuf.push(0x12);
    if lun != 0 {
        outbuf.push(0);
    } else {
        outbuf.push(additional);
    }
    outbuf.push(0);
    outbuf.push(0);
    outbuf.push(0x12);
    append_zeros(&mut outbuf, 28);
    assert(outbuf@ =~= target_inquiry_response(lun, *cmd)->Ok_0);
    Ok(outbuf)
}

} // verus!
