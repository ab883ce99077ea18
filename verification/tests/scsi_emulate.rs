use hv_core::scsi::bus::{ScsiBus, ScsiError};
use hv_core::scsi::capacity::{
    scsi_command_emulate_read_capacity_10, scsi_command_emulate_service_action_in_16,
};
use hv_core::scsi::cdb::{ScsiCommand, ScsiXferMode};
use hv_core::scsi::device::{
    ScsiDevConfig, ScsiDevState, ScsiDevice, SCSI_TYPE_DISK, SCSI_TYPE_ROM,
};
use hv_core::scsi::inquiry::{
    scsi_command_emulate_inquiry, scsi_command_emulate_target_inquiry,
    scsi_command_emulate_vpd_page,
};
use hv_core::scsi::mode_sense::{
    scsi_command_emulate_mode_sense, scsi_command_emulate_mode_sense_page,
};
use hv_core::scsi::opcode::{CHECK_CONDITION, DMA_SCSI_OPS, EMULATE_SCSI_OPS, GOOD};
use hv_core::scsi::report_luns::{scsi_command_emulate_report_luns, scsi_report_luns_data};
use hv_core::scsi::request::{
    write_buf_mem, IoCmd, Iovec, ScsiFailure, ScsiRequest, VirtioScsiCmdReq, VirtioScsiCmdResp,
    VirtioScsiRequest,
};
use hv_core::scsi::sense::{
    scsi_sense_invalid_field, scsi_sense_invalid_opcode, scsi_sense_io_error,
    scsi_sense_lun_not_supported, scsi_sense_no_sense, scsi_sense_not_ready,
    scsi_sense_saving_params_not_supported, ScsiSense,
};

fn disk(target: u8, lun: u16) -> ScsiDevice {
    ScsiDevice {
        config: ScsiDevConfig { target, lun },
        state: ScsiDevState {
            features: 0,
            vendor: "HUAWEI  ".to_string(),
            product: "STRATOVIRT     D".to_string(),
            device_id: "drive-0".to_string(),
            version: "1.0 ".to_string(),
            serial: "SN0001".to_string(),
        },
        disk_image: Some(3),
        disk_sectors: 2048,
        scsi_type: SCSI_TYPE_DISK,
    }
}

fn rom() -> ScsiDevice {
    let mut dev = disk(0, 0);
    dev.scsi_type = SCSI_TYPE_ROM;
    dev
}

fn bus_with(places: &[(u8, u16)]) -> ScsiBus {
    let mut bus = ScsiBus::new("scsi0.0".to_string(), "scsi0".to_string());
    for (target, lun) in places {
        bus.attach(disk(*target, *lun)).unwrap();
    }
    bus
}

fn cdb32(bytes: &[u8]) -> [u8; 32] {
    let mut out = [0u8; 32];
    out[..bytes.len()].copy_from_slice(bytes);
    out
}

fn command(bytes: &[u8]) -> ScsiCommand {
    bus_with(&[]).scsi_bus_parse_req_cdb(cdb32(bytes)).unwrap()
}

fn virtio_request(bytes: &[u8], iovec: Vec<Iovec>) -> VirtioScsiRequest {
    VirtioScsiRequest {
        req: VirtioScsiCmdReq {
            lun: [1, 0, 0x40, 0, 0, 0, 0, 0],
            tag: 7,
            task_attr: 0,
            prio: 0,
            crn: 0,
            cdb: cdb32(bytes),
        },
        resp: VirtioScsiCmdResp {
            sense_len: 0,
            resid: 99,
            status_qualifier: 5,
            status: 0xee,
            response: 0xee,
            sense: [0xcc; 96],
        },
        iovec,
    }
}

fn request(bytes: &[u8], dev: ScsiDevice, iovec: Vec<Iovec>) -> ScsiRequest {
    ScsiRequest::new(virtio_request(bytes, iovec), &bus_with(&[]), dev).unwrap()
}

fn sense_of(req: &ScsiRequest) -> ScsiSense {
    let sense = &req.virtioscsireq.resp.sense;
    assert_eq!(sense[0], 0x70);
    assert_eq!(sense[7], 10);
    assert_eq!(req.virtioscsireq.resp.sense_len, 18);
    ScsiSense { key: sense[2], asc: sense[12], ascq: sense[13] }
}

#[test]
fn inquiry_of_a_disk() {
    let cmd = command(&[0x12, 0x00, 0x00, 0x00, 0x24, 0x00]);
    assert_eq!(cmd.xfer, 36);
    let buf = scsi_command_emulate_inquiry(&cmd, &disk(0, 0)).unwrap();
    assert_eq!(buf.len(), 36);
    assert_eq!(buf[0], 0x00);
    assert_eq!(buf[1], 0x00);
    assert_eq!(buf[2], 5);
    assert_eq!(buf[3], 0x12);
    assert_eq!(buf[4], 31);
    assert_eq!(&buf[5..7], &[0, 0]);
    assert_eq!(buf[7], 0x12);
    assert_eq!(&buf[8..16], b"HUAWEI  ");
    assert_eq!(&buf[16..32], b"STRATOVIRT     D");
    assert_eq!(&buf[32..36], b"1.0 ");
}

#[test]
fn inquiry_cuts_and_pads_its_fields() {
    let mut dev = disk(0, 0);
    dev.state.vendor = "ACME".to_string();
    dev.state.product = "A PRODUCT NAME THAT IS TOO LONG".to_string();
    dev.state.version = "12345".to_string();
    dev.state.features = 1;
    dev.scsi_type = SCSI_TYPE_ROM;
    let buf = scsi_command_emulate_inquiry(&command(&[0x12, 0, 0, 0, 96, 0]), &dev).unwrap();
    assert_eq!(buf.len(), 96);
    assert_eq!(buf[0], 0x05);
    assert_eq!(buf[1], 0x80);
    assert_eq!(buf[4], 91);
    assert_eq!(&buf[8..16], b"ACME\0\0\0\0");
    assert_eq!(&buf[16..32], b"A PRODUCT NAME T");
    assert_eq!(&buf[32..36], b"1234");
    assert!(buf[36..].iter().all(|b| *b == 0));
}

#[test]
fn inquiry_answers_as_many_bytes_as_were_asked_for() {
    let dev = disk(0, 0);
    let short = scsi_command_emulate_inquiry(&command(&[0x12, 0, 0, 0, 5, 0]), &dev).unwrap();
    assert_eq!(short, vec![0, 0, 5, 0x12, 31]);
    let none = scsi_command_emulate_inquiry(&command(&[0x12, 0, 0, 0, 0, 0]), &dev).unwrap();
    assert!(none.is_empty());
    let long = scsi_command_emulate_inquiry(&command(&[0x12, 0, 0, 0x02, 0x00, 0]), &dev).unwrap();
    assert_eq!(long.len(), 256);
    assert_eq!(long[4], 251);
    let edge = scsi_command_emulate_inquiry(&command(&[0x12, 0, 0, 0, 37, 0]), &dev).unwrap();
    assert_eq!(edge[4], 32);
}

#[test]
fn inquiry_with_a_page_code_and_no_evpd_is_refused() {
    let r = scsi_command_emulate_inquiry(&command(&[0x12, 0, 0x80, 0, 36, 0]), &disk(0, 0));
    assert_eq!(r, Err(scsi_sense_invalid_field()));
    let r = scsi_command_emulate_inquiry(&command(&[0x12, 3, 0x00, 0, 36, 0]), &disk(0, 0));
    assert_eq!(r.unwrap().len(), 36);
}

#[test]
fn vpd_supported_pages() {
    let cmd = command(&[0x12, 1, 0x00, 0, 0xff, 0]);
    assert_eq!(
        scsi_command_emulate_inquiry(&cmd, &disk(0, 0)).unwrap(),
        vec![0, 0, 0, 6, 0x00, 0x80, 0x83, 0xb0, 0xb1, 0xb2]
    );
    let mut no_serial = disk(0, 0);
    no_serial.state.serial = String::new();
    assert_eq!(
        scsi_command_emulate_vpd_page(&cmd, &no_serial).unwrap(),
        vec![0, 0, 0, 5, 0x00, 0x83, 0xb0, 0xb1, 0xb2]
    );
    assert_eq!(
        scsi_command_emulate_vpd_page(&cmd, &rom()).unwrap(),
        vec![5, 0, 0, 3, 0x00, 0x80, 0x83]
    );
}

#[test]
fn every_listed_vpd_page_is_answered() {
    let mut no_serial = disk(0, 0);
    no_serial.state.serial = String::new();
    let mut rom_no_serial = rom();
    rom_no_serial.state.serial = String::new();
    for dev in [disk(0, 0), no_serial, rom(), rom_no_serial] {
        let list = scsi_command_emulate_vpd_page(&command(&[0x12, 1, 0, 0, 0xff, 0]), &dev).unwrap();
        assert_eq!(list[3] as usize, list.len() - 4);
        for page in &list[4..] {
            let r = scsi_command_emulate_vpd_page(&command(&[0x12, 1, *page, 0, 0xff, 0]), &dev);
            let buf = r.unwrap();
            assert_eq!(buf[1], *page);
            assert_eq!(buf[3] as usize, buf.len() - 4);
        }
    }
}

#[test]
fn vpd_serial_number() {
    let cmd = command(&[0x12, 1, 0x80, 0, 0xff, 0]);
    assert_eq!(
        scsi_command_emulate_vpd_page(&cmd, &disk(0, 0)).unwrap(),
        vec![0, 0x80, 0, 6, b'S', b'N', b'0', b'0', b'0', b'1']
    );
    let mut long = disk(0, 0);
    long.state.serial = "0123456789abcdefghijklmnopqrstuvwxyz".to_string();
    let buf = scsi_command_emulate_vpd_page(&cmd, &long).unwrap();
    assert_eq!(buf.len(), 36);
    assert_eq!(buf[3], 32);
    assert_eq!(&buf[4..], b"0123456789abcdefghijklmnopqrstuv");
    let mut none = disk(0, 0);
    none.state.serial = String::new();
    assert_eq!(scsi_command_emulate_vpd_page(&cmd, &none), Err(scsi_sense_invalid_field()));
}

#[test]
fn vpd_device_identification() {
    let cmd = command(&[0x12, 1, 0x83, 0, 0xff, 0]);
    assert_eq!(
        scsi_command_emulate_vpd_page(&cmd, &disk(0, 0)).unwrap(),
        vec![0, 0x83, 0, 11, 0x02, 0, 0, 7, b'd', b'r', b'i', b'v', b'e', b'-', b'0']
    );
    let mut none = disk(0, 0);
    none.state.device_id = String::new();
    assert_eq!(scsi_command_emulate_vpd_page(&cmd, &none).unwrap(), vec![0, 0x83, 0, 0]);
    let mut long = disk(0, 0);
    long.state.device_id = "x".repeat(300);
    let buf = scsi_command_emulate_vpd_page(&cmd, &long).unwrap();
    assert_eq!(buf.len(), 255);
    assert_eq!(buf[3], 251);
    assert_eq!(&buf[4..8], &[0x02, 0, 0, 247]);
    assert!(buf[8..].iter().all(|b| *b == b'x'));
    let mut edge = disk(0, 0);
    edge.state.device_id = "y".repeat(256);
    assert_eq!(scsi_command_emulate_vpd_page(&cmd, &edge).unwrap()[7], 247);
}

#[test]
fn vpd_block_limits() {
    let cmd = command(&[0x12, 1, 0xb0, 0, 0xff, 0]);
    let buf = scsi_command_emulate_vpd_page(&cmd, &disk(0, 0)).unwrap();
    let mut want = vec![0u8; 64];
    want[1] = 0xb0;
    want[3] = 60;
    want[4] = 1;
    want[8..12].copy_from_slice(&0x007f_ffffu32.to_be_bytes());
    want[20..24].copy_from_slice(&0x0020_0000u32.to_be_bytes());
    want[24..28].copy_from_slice(&255u32.to_be_bytes());
    want[28..32].copy_from_slice(&8u32.to_be_bytes());
    want[36..44].copy_from_slice(&0x007f_ffffu64.to_be_bytes());
    assert_eq!(buf, want);
    assert_eq!(scsi_command_emulate_vpd_page(&cmd, &rom()), Err(scsi_sense_invalid_field()));
}

#[test]
fn vpd_block_device_characteristics_and_provisioning() {
    let b1 = scsi_command_emulate_vpd_page(&command(&[0x12, 1, 0xb1, 0, 0xff, 0]), &disk(0, 0));
    let mut want = vec![0u8; 64];
    want[1] = 0xb1;
    want[3] = 60;
    assert_eq!(b1.unwrap(), want);
    let b2 = scsi_command_emulate_vpd_page(&command(&[0x12, 1, 0xb2, 0, 0xff, 0]), &disk(0, 0));
    assert_eq!(b2.unwrap(), vec![0, 0xb2, 0, 4, 0, 0xe0, 1, 0]);
    let bad = scsi_command_emulate_vpd_page(&command(&[0x12, 1, 0x81, 0, 0xff, 0]), &disk(0, 0));
    assert_eq!(bad, Err(scsi_sense_invalid_field()));
}

#[test]
fn target_inquiry() {
    let cmd = command(&[0x12, 0, 0, 0, 36, 0]);
    let mut want = vec![0u8; 36];
    want[0] = 0x7f;
    want[2] = 5;
    want[3] = 0x12;
    want[7] = 0x12;
    assert_eq!(scsi_command_emulate_target_inquiry(3, &cmd).unwrap(), want);
    want[0] = 0x3f;
    want[4] = 31;
    assert_eq!(scsi_command_emulate_target_inquiry(0, &cmd).unwrap(), want);
    want[4] = 15;
    let short = command(&[0x12, 0, 0, 0, 20, 0]);
    assert_eq!(scsi_command_emulate_target_inquiry(0, &short).unwrap(), want);
    want[4] = 0;
    let tiny = command(&[0x12, 0, 0, 0, 4, 0]);
    assert_eq!(scsi_command_emulate_target_inquiry(0, &tiny).unwrap(), want);
    want[4] = 31;
    let long = command(&[0x12, 0, 0, 0, 255, 0]);
    assert_eq!(scsi_command_emulate_target_inquiry(0, &long).unwrap(), want);
}

#[test]
fn target_inquiry_vital_product_data() {
    let cmd = command(&[0x12, 1, 0x00, 0, 36, 0]);
    assert_eq!(scsi_command_emulate_target_inquiry(3, &cmd).unwrap(), vec![0, 0, 0, 1, 0]);
    let cmd = command(&[0x12, 1, 0x83, 0, 36, 0]);
    assert_eq!(scsi_command_emulate_target_inquiry(3, &cmd), Err(scsi_sense_invalid_field()));
    let cmd = command(&[0x12, 0, 0x83, 0, 36, 0]);
    assert_eq!(scsi_command_emulate_target_inquiry(0, &cmd), Err(scsi_sense_invalid_field()));
}

#[test]
fn report_luns_of_two_units() {
    let cmd = command(&[0xA0, 0, 0, 0, 0, 0, 0, 0, 0, 0x40, 0, 0]);
    assert_eq!(cmd.xfer, 0x40);
    let want = vec![
        0, 0, 0, 0x10, 0, 0, 0, 0, //
        0, 0, 0, 0, 0, 0, 0, 0, //
        0, 1, 0, 0, 0, 0, 0, 0,
    ];
    assert_eq!(scsi_report_luns_data(&vec![0, 1]), want);
    let bus = bus_with(&[(0, 0), (0, 1), (1, 0)]);
    let dev = bus.get_device(0, 0).unwrap();
    let buf = scsi_command_emulate_report_luns(&cmd, dev, &bus).unwrap();
    assert_eq!(buf, want);
    // The order in which the devices were put on the bus does not count.
    let bus = bus_with(&[(0, 1), (1, 0), (0, 0)]);
    let dev = bus.get_device(0, 1).unwrap();
    assert_eq!(scsi_command_emulate_report_luns(&cmd, dev, &bus).unwrap(), want);
    let iov = vec![Iovec { iov_base: 0x1000, iov_len: 0x40 }];
    let mut req = request(&[0xA0, 0, 0, 0, 0, 0, 0, 0, 0, 0x40, 0, 0], disk(0, 0), iov);
    let writes = req.emulate_execute(&bus, 0, 0);
    assert_eq!(writes.len(), 1);
    assert_eq!(writes[0].data, want);
    assert_eq!(req.virtioscsireq.resp.status, GOOD);
}

#[test]
fn report_luns_lists_every_unit_of_the_target() {
    let bus = bus_with(&[(2, 0), (2, 7), (2, 255), (2, 256), (2, 0x3fff), (3, 1)]);
    let cmd = command(&[0xA0, 0, 2, 0, 0, 0, 0, 0, 0x10, 0x00, 0, 0]);
    let dev = bus.get_device(2, 7).unwrap();
    let buf = scsi_command_emulate_report_luns(&cmd, dev, &bus).unwrap();
    assert_eq!(buf.len(), 8 + 8 * 5);
    assert_eq!(&buf[0..4], &40u32.to_be_bytes());
    assert_eq!(&buf[4..8], &[0, 0, 0, 0]);
    let entries: Vec<Vec<u8>> = buf[8..].chunks(8).map(|c| c.to_vec()).collect();
    assert_eq!(
        entries,
        vec![
            vec![0, 0, 0, 0, 0, 0, 0, 0],
            vec![0, 7, 0, 0, 0, 0, 0, 0],
            vec![0, 255, 0, 0, 0, 0, 0, 0],
            vec![0x41, 0x00, 0, 0, 0, 0, 0, 0],
            vec![0x7f, 0xff, 0, 0, 0, 0, 0, 0],
        ]
    );
}

#[test]
fn report_luns_entries() {
    assert_eq!(scsi_report_luns_data(&vec![]), vec![0, 0, 0, 0, 0, 0, 0, 0]);
    assert_eq!(
        scsi_report_luns_data(&vec![0x0123, 5]),
        vec![0, 0, 0, 16, 0, 0, 0, 0, 0x41, 0x23, 0, 0, 0, 0, 0, 0, 0, 5, 0, 0, 0, 0, 0, 0]
    );
    assert_eq!(
        scsi_report_luns_data(&vec![0xffff]),
        vec![0, 0, 0, 8, 0, 0, 0, 0, 0xff, 0xff, 0, 0, 0, 0, 0, 0]
    );
    let many: Vec<u16> = (0..1000).collect();
    let buf = scsi_report_luns_data(&many);
    assert_eq!(buf.len(), 8008);
    assert_eq!(&buf[0..4], &8000u32.to_be_bytes());
}

#[test]
fn report_luns_boundaries() {
    let bus = bus_with(&[(0, 0)]);
    let dev = bus.get_device(0, 0).unwrap();
    let short = command(&[0xA0, 0, 0, 0, 0, 0, 0, 0, 0, 15, 0, 0]);
    assert_eq!(
        scsi_command_emulate_report_luns(&short, dev, &bus),
        Err(scsi_sense_invalid_field())
    );
    let reserved = command(&[0xA0, 0, 3, 0, 0, 0, 0, 0, 0, 0x40, 0, 0]);
    assert_eq!(
        scsi_command_emulate_report_luns(&reserved, dev, &bus),
        Err(scsi_sense_invalid_field())
    );
    let enough = command(&[0xA0, 0, 0, 0, 0, 0, 0, 0, 0, 16, 0, 0]);
    assert_eq!(scsi_command_emulate_report_luns(&enough, dev, &bus).unwrap().len(), 16);
    // No device of the target on the bus: the header alone.
    let empty = bus_with(&[(5, 0)]);
    assert_eq!(
        scsi_command_emulate_report_luns(&enough, dev, &empty).unwrap(),
        vec![0, 0, 0, 0, 0, 0, 0, 0]
    );
    let none = bus_with(&[]);
    assert_eq!(
        scsi_command_emulate_report_luns(&enough, dev, &none).unwrap(),
        vec![0, 0, 0, 0, 0, 0, 0, 0]
    );
}

#[test]
fn read_capacity_16_on_a_2_tib_disk() {
    let mut dev = disk(0, 0);
    dev.disk_sectors = 0x1_0000_0000;
    let cmd = command(&[0x9e, 0x10, 0, 0, 0, 0, 0, 0, 0, 0, 0, 0, 0, 32, 0, 0]);
    let buf = scsi_command_emulate_service_action_in_16(&cmd, &dev).unwrap();
    let mut want = vec![0u8; 32];
    want[0..8].copy_from_slice(&0x1_0000_0000u64.to_be_bytes());
    want[8..12].copy_from_slice(&512u32.to_be_bytes());
    assert_eq!(buf, want);
    dev.disk_sectors = 0x0102_0304_0506_0708;
    let buf = scsi_command_emulate_service_action_in_16(&cmd, &dev).unwrap();
    assert_eq!(&buf[0..8], &[1, 2, 3, 4, 5, 6, 7, 8]);
    // The service action is in the low five bits of byte 1.
    let cmd = command(&[0x9e, 0xf0, 0, 0, 0, 0, 0, 0, 0, 0, 0, 0, 0, 32, 0, 0]);
    assert!(scsi_command_emulate_service_action_in_16(&cmd, &dev).is_ok());
    let cmd = command(&[0x9e, 0x11, 0, 0, 0, 0, 0, 0, 0, 0, 0, 0, 0, 32, 0, 0]);
    assert_eq!(
        scsi_command_emulate_service_action_in_16(&cmd, &dev),
        Err(scsi_sense_invalid_field())
    );
}

#[test]
fn read_capacity_10() {
    let cmd = command(&[0x25, 0, 0, 0, 0, 0, 0, 0, 0, 0]);
    let dev = disk(0, 0);
    let first = scsi_command_emulate_read_capacity_10(&cmd, &dev).unwrap();
    let second = scsi_command_emulate_read_capacity_10(&cmd, &dev).unwrap();
    assert_eq!(first, second);
    assert_eq!(first, vec![0, 0, 0x08, 0, 0, 0, 0x02, 0]);
    let mut big = disk(0, 0);
    big.disk_sectors = 0x1_0000_0000;
    assert_eq!(
        scsi_command_emulate_read_capacity_10(&cmd, &big).unwrap(),
        vec![0xff, 0xff, 0xff, 0xff, 0, 0, 2, 0]
    );
    big.disk_sectors = 0x1_0000_0005;
    assert_eq!(
        scsi_command_emulate_read_capacity_10(&cmd, &big).unwrap(),
        vec![0xff, 0xff, 0xff, 0xff, 0, 0, 2, 0]
    );
    big.disk_sectors = 0xffff_ffff;
    assert_eq!(
        scsi_command_emulate_read_capacity_10(&cmd, &big).unwrap(),
        vec![0xff, 0xff, 0xff, 0xff, 0, 0, 2, 0]
    );
    // An address without the PMI bit is refused, with it accepted.
    let cmd = command(&[0x25, 0, 0, 0, 0, 1, 0, 0, 0, 0]);
    assert_eq!(scsi_command_emulate_read_capacity_10(&cmd, &dev), Err(scsi_sense_invalid_field()));
    let cmd = command(&[0x25, 0, 0, 0, 0, 1, 0, 0, 1, 0]);
    assert!(scsi_command_emulate_read_capacity_10(&cmd, &dev).is_ok());
}

#[test]
fn mode_sense_10_with_all_pages() {
    let cmd = command(&[0x5a, 0, 0x3f, 0, 0, 0, 0, 0, 0xff, 0]);
    let buf = scsi_command_emulate_mode_sense(&cmd, &disk(0, 0)).unwrap();
    assert_eq!(buf.len(), 8 + 8 + 12 + 20);
    assert_eq!(&buf[0..2], &[0, 46]);
    assert_eq!(&buf[2..8], &[0, 0, 0, 0, 0, 8]);
    assert_eq!(&buf[8..16], &[0, 0, 0x08, 0, 0, 0, 0x02, 0]);
    assert_eq!(&buf[16..19], &[0x01, 10, 0x80]);
    assert!(buf[19..28].iter().all(|b| *b == 0));
    assert_eq!(&buf[28..31], &[0x08, 18, 0x04]);
    assert!(buf[31..48].iter().all(|b| *b == 0));
}

#[test]
fn mode_sense_6() {
    let mut dev = disk(0, 0);
    dev.state.features = 2;
    dev.disk_sectors = 0x1234_5678_9abc;
    let cmd = command(&[0x1a, 0, 0x08, 0, 0xff, 0]);
    let buf = scsi_command_emulate_mode_sense(&cmd, &dev).unwrap();
    assert_eq!(buf.len(), 4 + 8 + 20);
    assert_eq!(&buf[0..4], &[31, 0, 0x10, 8]);
    assert_eq!(&buf[4..12], &[0, 0x78, 0x9a, 0xbc, 0, 0, 2, 0]);
    assert_eq!(&buf[12..15], &[0x08, 18, 0x04]);
    // Block descriptors disabled.
    let cmd = command(&[0x1a, 0x08, 0x01, 0, 0xff, 0]);
    let buf = scsi_command_emulate_mode_sense(&cmd, &dev).unwrap();
    assert_eq!(buf.len(), 4 + 12);
    assert_eq!(&buf[0..4], &[15, 0, 0x10, 0]);
    assert_eq!(&buf[4..7], &[0x01, 10, 0x80]);
    // Changeable values of the error recovery page.
    let cmd = command(&[0x1a, 0x08, 0x41, 0, 0xff, 0]);
    let buf = scsi_command_emulate_mode_sense(&cmd, &dev).unwrap();
    assert_eq!(&buf[4..7], &[0x01, 10, 0x00]);
}

#[test]
fn mode_sense_of_a_rom_has_no_block_descriptor() {
    let cmd = command(&[0x5a, 0, 0x08, 0, 0, 0, 0, 0, 0xff, 0]);
    let mut dev = rom();
    dev.state.features = 2;
    let buf = scsi_command_emulate_mode_sense(&cmd, &dev).unwrap();
    assert_eq!(buf.len(), 8 + 20);
    assert_eq!(&buf[0..8], &[0, 26, 0, 0, 0, 0, 0, 0]);
    let mut empty = disk(0, 0);
    empty.disk_sectors = 0;
    let buf = scsi_command_emulate_mode_sense(&cmd, &empty).unwrap();
    assert_eq!(buf.len(), 8 + 8 + 20);
    assert_eq!(buf[7], 8);
    assert_eq!(&buf[8..16], &[0, 0, 0, 0, 0, 0, 2, 0]);
}

#[test]
fn mode_sense_refusals() {
    let dev = disk(0, 0);
    let saved = command(&[0x1a, 0, 0xc8, 0, 0xff, 0]);
    assert_eq!(
        scsi_command_emulate_mode_sense(&saved, &dev),
        Err(scsi_sense_saving_params_not_supported())
    );
    let saved_all = command(&[0x5a, 0, 0xff, 0, 0, 0, 0, 0, 0xff, 0]);
    assert_eq!(
        scsi_command_emulate_mode_sense(&saved_all, &dev),
        Err(scsi_sense_saving_params_not_supported())
    );
    let unknown = command(&[0x1a, 0, 0x04, 0, 0xff, 0]);
    assert_eq!(scsi_command_emulate_mode_sense(&unknown, &dev), Err(scsi_sense_invalid_field()));
    let unknown = command(&[0x1a, 0, 0x00, 0, 0xff, 0]);
    assert_eq!(scsi_command_emulate_mode_sense(&unknown, &dev), Err(scsi_sense_invalid_field()));
}

#[test]
fn mode_sense_page_appends_to_the_buffer() {
    let mut out = vec![9u8, 9];
    let copy = scsi_command_emulate_mode_sense_page(0x08, 0, &mut out).unwrap();
    assert_eq!(out.len(), 22);
    assert_eq!(&out[0..5], &[9, 9, 0x08, 18, 0x04]);
    assert_eq!(copy, out);
    let copy = scsi_command_emulate_mode_sense_page(0x01, 1, &mut out).unwrap();
    assert_eq!(out.len(), 34);
    assert_eq!(&out[22..25], &[0x01, 10, 0]);
    assert_eq!(copy, out);
    let before = out.clone();
    assert_eq!(
        scsi_command_emulate_mode_sense_page(0x1c, 0, &mut out),
        Err(scsi_sense_invalid_field())
    );
    assert_eq!(out, before);
}

#[test]
fn request_new_parses_the_command() {
    let iov = vec![Iovec { iov_base: 0x1000, iov_len: 512 }];
    let req = request(&[0x28, 0, 0, 0, 0, 9, 0, 0, 1, 0], disk(0, 0), iov.clone());
    assert_eq!(req.cmd.command, 0x28);
    assert_eq!(req.cmd.lba, 9);
    assert_eq!(req.cmd.xfer, 512);
    assert_eq!(req.cmd.mode, ScsiXferMode::ScsiXferFromDev);
    assert_eq!(req.opstype, DMA_SCSI_OPS);
    assert_eq!(req._resid, 512);
    assert_eq!(req._sense_size, 0);
    assert_eq!(req._sense, [0u8; 252]);
    assert_eq!(req.virtioscsireq.iovec, iov);
    assert_eq!(req.virtioscsireq.req.tag, 7);
    assert_eq!(req.dev.state.device_id, "drive-0");
    let emulated = request(&[0x12, 0, 0, 0, 36, 0], disk(0, 0), vec![]);
    assert_eq!(emulated.opstype, EMULATE_SCSI_OPS);
}

#[test]
fn request_new_refuses_a_command_that_does_not_parse() {
    let r = ScsiRequest::new(virtio_request(&[0xff], vec![]), &bus_with(&[]), disk(0, 0));
    assert_eq!(r.err(), Some(ScsiError::BadCdb));
    let r = ScsiRequest::new(virtio_request(&[0x7f], vec![]), &bus_with(&[]), disk(0, 0));
    assert_eq!(r.err(), Some(ScsiError::BadCdb));
}

#[test]
fn unsupported_opcode() {
    let mut req = request(&[0x00, 0, 0, 0, 0, 0], disk(0, 0), vec![]);
    req.cmd.command = 0xff;
    req.cmd.buf[0] = 0xff;
    let writes = req.emulate_execute(&bus_with(&[(0, 0)]), 0, 0);
    assert!(writes.is_empty());
    assert_eq!(req.virtioscsireq.resp.status, 0x02);
    assert_eq!(req.virtioscsireq.resp.response, 0);
    let sense = sense_of(&req);
    assert_eq!(sense.key, 0x05);
    assert_eq!(sense.asc, 0x20);
    assert_eq!(sense.ascq, 0x00);
    // A command that parses and is not emulated ends the same way.
    let mut req = request(&[0x1e, 0, 0, 0, 0, 0], disk(0, 0), vec![]);
    req.emulate_execute(&bus_with(&[(0, 0)]), 0, 0);
    assert_eq!(req.virtioscsireq.resp.status, CHECK_CONDITION);
    assert_eq!(sense_of(&req), scsi_sense_invalid_opcode());
}

#[test]
fn emulate_execute_completes_the_request() {
    let iov = vec![
        Iovec { iov_base: 0x1000, iov_len: 16 },
        Iovec { iov_base: 0x2000, iov_len: 64 },
        Iovec { iov_base: 0x3000, iov_len: 0 },
    ];
    let mut req = request(&[0x12, 0, 0, 0, 36, 0], disk(0, 0), iov);
    let writes = req.emulate_execute(&bus_with(&[(0, 0)]), 0, 0);
    let resp = &req.virtioscsireq.resp;
    assert_eq!(resp.response, 0);
    assert_eq!(resp.status, GOOD);
    assert_eq!(resp.resid, 0);
    assert_eq!(resp.status_qualifier, 5);
    assert_eq!(resp.sense_len, 0);
    assert_eq!(resp.sense, [0xcc; 96]);
    let whole = scsi_command_emulate_inquiry(&req.cmd, &req.dev).unwrap();
    assert_eq!(writes.len(), 3);
    assert_eq!(writes[0].hva, 0x1000);
    assert_eq!(writes[0].data, whole[..16].to_vec());
    assert_eq!(writes[1].hva, 0x2000);
    assert_eq!(writes[1].data, whole);
    assert_eq!(writes[2].hva, 0x3000);
    assert!(writes[2].data.is_empty());
}

#[test]
fn a_refused_command_completes_with_check_condition() {
    let iov = vec![Iovec { iov_base: 0x1000, iov_len: 64 }];
    let mut req = request(&[0x12, 0, 0x80, 0, 36, 0], disk(0, 0), iov);
    let writes = req.emulate_execute(&bus_with(&[(0, 0)]), 0, 0);
    assert!(writes.is_empty());
    assert_eq!(req.virtioscsireq.resp.status, CHECK_CONDITION);
    assert_eq!(req.virtioscsireq.resp.response, 0);
    assert_eq!(req.virtioscsireq.resp.resid, 0);
    assert_eq!(sense_of(&req), scsi_sense_invalid_field());
    // The rest of the sense field is left as it was.
    let sense = &req.virtioscsireq.resp.sense;
    assert_eq!(sense[1], 0xcc);
    assert_eq!(&sense[3..7], &[0xcc; 4]);
    assert_eq!(&sense[8..12], &[0xcc; 4]);
    assert!(sense[14..].iter().all(|b| *b == 0xcc));
}

#[test]
fn request_sense() {
    let mut req = request(&[0x03, 0, 0, 0, 18, 0], disk(0, 0), vec![]);
    assert!(req.emulate_execute(&bus_with(&[(0, 0)]), 0, 0).is_empty());
    assert_eq!(req.virtioscsireq.resp.status, GOOD);
    assert_eq!(sense_of(&req), scsi_sense_no_sense());
    // A target asked for a unit that it does not have.
    let mut req = request(&[0x03, 0, 0, 0, 18, 0], disk(0, 0), vec![]);
    assert!(req.emulate_execute(&bus_with(&[(0, 0)]), 4, 0).is_empty());
    assert_eq!(req.virtioscsireq.resp.status, GOOD);
    assert_eq!(sense_of(&req), scsi_sense_lun_not_supported());
    // A target asked for unit 0 while it was routed elsewhere: no sense data.
    let mut req = request(&[0x03, 0, 0, 0, 18, 0], disk(0, 1), vec![]);
    assert!(req.emulate_execute(&bus_with(&[(0, 1)]), 0, 1).is_empty());
    assert_eq!(req.virtioscsireq.resp.status, GOOD);
    assert_eq!(req.virtioscsireq.resp.sense_len, 0);
    assert_eq!(req.virtioscsireq.resp.sense, [0xcc; 96]);
}

#[test]
fn test_unit_ready() {
    let mut req = request(&[0x00, 0, 0, 0, 0, 0], disk(0, 0), vec![]);
    req.emulate_execute(&bus_with(&[(0, 0)]), 0, 0);
    assert_eq!(req.virtioscsireq.resp.status, GOOD);
    assert_eq!(req.virtioscsireq.resp.sense_len, 0);
    let mut no_backend = disk(0, 0);
    no_backend.disk_image = None;
    let mut req = request(&[0x00, 0, 0, 0, 0, 0], no_backend.clone(), vec![]);
    req.emulate_execute(&bus_with(&[(0, 0)]), 0, 0);
    assert_eq!(req.virtioscsireq.resp.status, CHECK_CONDITION);
    assert_eq!(sense_of(&req), scsi_sense_not_ready());
    assert_eq!(sense_of(&req).key, 0x02);
    // A target is ready whatever its units are.
    let mut req = request(&[0x00, 0, 0, 0, 0, 0], no_backend, vec![]);
    req.emulate_execute(&bus_with(&[(0, 0)]), 3, 0);
    assert_eq!(req.virtioscsireq.resp.status, GOOD);
}

#[test]
fn target_requests_honour_four_commands() {
    let bus = bus_with(&[(0, 0), (0, 1)]);
    let iov = vec![Iovec { iov_base: 0x1000, iov_len: 4096 }];
    // INQUIRY to a unit that the target does not have.
    let mut req = request(&[0x12, 0, 0, 0, 36, 0], disk(0, 0), iov.clone());
    let writes = req.emulate_execute(&bus, 9, 0);
    assert_eq!(req.virtioscsireq.resp.status, GOOD);
    assert_eq!(writes.len(), 1);
    assert_eq!(writes[0].data.len(), 36);
    assert_eq!(writes[0].data[0], 0x7f);
    // REPORT LUNS is a target request whatever unit it names.
    let mut req = request(&[0xa0, 0, 0, 0, 0, 0, 0, 0, 0, 0x40, 0, 0], disk(0, 0), iov.clone());
    let writes = req.emulate_execute(&bus, 0, 0);
    assert_eq!(req.virtioscsireq.resp.status, GOOD);
    assert_eq!(writes[0].data.len(), 24);
    assert_eq!(&writes[0].data[0..4], &[0, 0, 0, 16]);
    // Anything else is refused.
    for cdb in [&[0x25u8, 0, 0, 0, 0, 0, 0, 0, 0, 0][..], &[0x1a, 0, 0x08, 0, 0xff, 0], &[0x35, 0]] {
        let mut req = request(cdb, disk(0, 0), iov.clone());
        let writes = req.emulate_execute(&bus, 9, 0);
        assert!(writes.is_empty());
        assert_eq!(req.virtioscsireq.resp.status, CHECK_CONDITION);
        assert_eq!(sense_of(&req), scsi_sense_invalid_opcode());
    }
}

#[test]
fn commands_without_data_succeed() {
    let bus = bus_with(&[(0, 0)]);
    for cdb in [&[0x41u8, 0, 0, 0, 0, 0, 0, 0, 1, 0][..], &[0x93, 0], &[0x35, 0]] {
        let iov = vec![Iovec { iov_base: 0x1000, iov_len: 4096 }];
        let mut req = request(cdb, disk(0, 0), iov);
        assert!(req.emulate_execute(&bus, 0, 0).is_empty());
        assert_eq!(req.virtioscsireq.resp.status, GOOD);
        assert_eq!(req.virtioscsireq.resp.sense_len, 0);
    }
}

#[test]
fn emulate_execute_dispatches_every_emulated_command() {
    let bus = bus_with(&[(0, 0)]);
    let iov = vec![Iovec { iov_base: 0x1000, iov_len: 4096 }];
    let mut req = request(&[0x25, 0, 0, 0, 0, 0, 0, 0, 0, 0], disk(0, 0), iov.clone());
    assert_eq!(req.emulate_execute(&bus, 0, 0)[0].data, vec![0, 0, 8, 0, 0, 0, 2, 0]);
    let mut req = request(&[0x1a, 0x08, 0x08, 0, 0xff, 0], disk(0, 0), iov.clone());
    assert_eq!(req.emulate_execute(&bus, 0, 0)[0].data.len(), 24);
    let mut req = request(&[0x5a, 0x08, 0x08, 0, 0, 0, 0, 0, 0xff, 0], disk(0, 0), iov.clone());
    assert_eq!(req.emulate_execute(&bus, 0, 0)[0].data.len(), 28);
    let cdb = [0x9e, 0x10, 0, 0, 0, 0, 0, 0, 0, 0, 0, 0, 0, 32, 0, 0];
    let mut req = request(&cdb, disk(0, 0), iov.clone());
    assert_eq!(req.emulate_execute(&bus, 0, 0)[0].data.len(), 32);
    let mut req = request(&[0x12, 1, 0xb2, 0, 0xff, 0], disk(0, 0), iov);
    assert_eq!(req.emulate_execute(&bus, 0, 0)[0].data, vec![0, 0xb2, 0, 4, 0, 0xe0, 1, 0]);
}

#[test]
fn set_scsi_sense_writes_fixed_format_sense_data() {
    let mut req = request(&[0x00, 0, 0, 0, 0, 0], disk(0, 0), vec![]);
    req.set_scsi_sense(scsi_sense_io_error());
    let sense = sense_of(&req);
    assert_eq!((sense.key, sense.asc, sense.ascq), (0x0b, 0x00, 0x06));
    assert_eq!(req.virtioscsireq.resp.status, 0xee);
    assert_eq!(req.virtioscsireq.resp.resid, 99);
}

#[test]
fn cmd_complete_hands_the_data_to_every_buffer() {
    let iov = vec![Iovec { iov_base: 0x10, iov_len: 2 }, Iovec { iov_base: 0x20, iov_len: 9 }];
    let mut req = request(&[0x00, 0, 0, 0, 0, 0], disk(0, 0), iov);
    let writes = req.cmd_complete(1, 0x08, None, &[1, 2, 3, 4]);
    assert_eq!(writes.len(), 2);
    assert_eq!((writes[0].hva, writes[0].data.clone()), (0x10, vec![1, 2]));
    assert_eq!((writes[1].hva, writes[1].data.clone()), (0x20, vec![1, 2, 3, 4]));
    assert_eq!(req.virtioscsireq.resp.response, 1);
    assert_eq!(req.virtioscsireq.resp.status, 0x08);
    assert_eq!(req.virtioscsireq.resp.resid, 0);
    assert_eq!(req.virtioscsireq.resp.sense_len, 0);
    assert!(req.cmd_complete(0, 0, Some(scsi_sense_no_sense()), &[]).is_empty());
    assert_eq!(req.virtioscsireq.resp.sense_len, 18);
}

#[test]
fn write_buf_mem_cuts_to_the_buffer() {
    let w = write_buf_mem(&[1, 2, 3], 2, 0xabc);
    assert_eq!((w.hva, w.data), (0xabc, vec![1, 2]));
    let w = write_buf_mem(&[1, 2, 3], 3, 1);
    assert_eq!(w.data, vec![1, 2, 3]);
    let w = write_buf_mem(&[1, 2, 3], u64::MAX, 1);
    assert_eq!(w.data, vec![1, 2, 3]);
    let w = write_buf_mem(&[1, 2, 3], 0, 1);
    assert!(w.data.is_empty());
}

#[test]
fn execute_plans_a_read() {
    let iov = vec![Iovec { iov_base: 0x1000, iov_len: 512 }, Iovec { iov_base: 0x9000, iov_len: 512 }];
    let req = request(&[0x28, 0, 0, 0, 0, 9, 0, 0, 2, 0], disk(0, 0), iov.clone());
    let plan = req.execute(11, true, false).unwrap().unwrap();
    assert!(plan.native);
    assert_eq!(plan.aiocb.opcode, IoCmd::Preadv);
    assert_eq!(plan.aiocb.file_fd, 11);
    assert_eq!(plan.aiocb.offset, 9 * 512);
    assert_eq!(plan.aiocb.iovec, iov);
    assert!(plan.aiocb.process);
    assert!(!plan.aiocb.last_aio);
    let plan = req.execute(11, false, true).unwrap().unwrap();
    assert!(!plan.native);
    assert!(plan.aiocb.last_aio);
}

#[test]
fn write_then_read_of_one_block_go_to_the_same_place() {
    let data = vec![Iovec { iov_base: 0x1000, iov_len: 512 }];
    let write = request(&[0x2a, 0, 0, 0, 0x12, 0x34, 0, 0, 1, 0], disk(0, 0), data.clone());
    let read = request(&[0x28, 0, 0, 0, 0x12, 0x34, 0, 0, 1, 0], disk(0, 0), data);
    let w = write.execute(3, false, true).unwrap().unwrap();
    let r = read.execute(3, false, true).unwrap().unwrap();
    assert_eq!(w.aiocb.opcode, IoCmd::Pwritev);
    assert_eq!(r.aiocb.opcode, IoCmd::Preadv);
    assert_eq!(w.aiocb.offset, 0x1234 * 512);
    assert_eq!(w.aiocb.offset, r.aiocb.offset);
    assert_eq!(w.aiocb.file_fd, r.aiocb.file_fd);
    assert_eq!(w.aiocb.iovec, r.aiocb.iovec);
    assert_eq!(write.cmd.xfer, 512);
    assert_eq!(read.cmd.xfer, 512);
}

#[test]
fn execute_refuses_a_block_beyond_what_a_file_holds() {
    // The last block whose offset fits 64 bits.
    let cdb = [0x88, 0, 0x00, 0x7f, 0xff, 0xff, 0xff, 0xff, 0xff, 0xff, 0, 0, 0, 1, 0, 0];
    let req = request(&cdb, disk(0, 0), vec![]);
    assert_eq!(req.cmd.lba, 0x007f_ffff_ffff_ffff);
    let plan = req.execute(3, true, true).unwrap().unwrap();
    assert_eq!(plan.aiocb.offset, 0xffff_ffff_ffff_fe00);
    // The block behind it.
    let cdb = [0x88, 0, 0x00, 0x80, 0, 0, 0, 0, 0, 0, 0, 0, 0, 1, 0, 0];
    let req = request(&cdb, disk(0, 0), vec![]);
    assert_eq!(req.execute(3, true, true).err(), Some(ScsiFailure::LbaOutOfRange));
    let cdb = [0x8a, 0, 0xff, 0xff, 0xff, 0xff, 0xff, 0xff, 0xff, 0xff, 0, 0, 0, 1, 0, 0];
    let mut req = request(&cdb, disk(0, 0), vec![]);
    assert_eq!(req.execute(3, false, true).err(), Some(ScsiFailure::LbaOutOfRange));
    req.virtioscsireq.fail(ScsiFailure::LbaOutOfRange);
    assert_eq!(req.virtioscsireq.resp.status, CHECK_CONDITION);
    assert_eq!(sense_of(&req), ScsiSense { key: 0x05, asc: 0x21, ascq: 0x00 });
    let mut none = request(&[0x00, 0, 0, 0, 0, 0], disk(0, 0), vec![]);
    none.cmd.mode = ScsiXferMode::ScsiXferNone;
    none.cmd.lba = u64::MAX;
    assert!(none.execute(3, true, true).unwrap().is_none());
}

#[test]
fn failures_complete_with_their_sense_code() {
    let cases = [
        (ScsiFailure::BadCdb, (0x05, 0x24, 0x00)),
        (ScsiFailure::UnknownLun, (0x05, 0x25, 0x00)),
        (ScsiFailure::IoError, (0x0b, 0x00, 0x06)),
        (ScsiFailure::LbaOutOfRange, (0x05, 0x21, 0x00)),
    ];
    for (failure, (key, asc, ascq)) in cases {
        let iov = vec![Iovec { iov_base: 0x1000, iov_len: 512 }];
        let mut req = virtio_request(&[0xff], iov.clone());
        req.fail(failure);
        assert_eq!(req.resp.response, 0);
        assert_eq!(req.resp.status, CHECK_CONDITION);
        assert_eq!(req.resp.resid, 0);
        assert_eq!(req.resp.status_qualifier, 5);
        assert_eq!(req.resp.sense_len, 18);
        assert_eq!(req.resp.sense[0], 0x70);
        assert_eq!(req.resp.sense[7], 10);
        assert_eq!((req.resp.sense[2], req.resp.sense[12], req.resp.sense[13]), (key, asc, ascq));
        assert_eq!(req.resp.sense[1], 0xcc);
        assert_eq!(req.iovec, iov);
        assert_eq!(req.req.cdb[0], 0xff);
    }
}

#[test]
fn a_large_transfer_makes_a_request() {
    let cdb = [0x88, 0, 0, 0, 0, 0, 0, 0, 0, 5, 0xff, 0xff, 0xff, 0xff, 0, 0];
    let req = request(&cdb, disk(0, 0), vec![]);
    assert_eq!(req.cmd.xfer, 0xffff_ffff * 512);
    assert_eq!(req._resid, 0xffff_ffff * 512);
    assert_eq!(req.opstype, DMA_SCSI_OPS);
    // INQUIRY to a device answers 256 bytes at most, however many were asked for.
    let mut inquiry = request(&[0x12, 0, 0, 0xff, 0xff, 0], disk(0, 0), vec![]);
    inquiry.cmd.xfer = u64::MAX;
    assert_eq!(scsi_command_emulate_inquiry(&inquiry.cmd, &inquiry.dev).unwrap().len(), 256);
    assert_eq!(
        scsi_command_emulate_target_inquiry(0, &inquiry.cmd).unwrap()[4],
        31
    );
}
