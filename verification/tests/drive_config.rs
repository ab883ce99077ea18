use hv_core::config::cmdline::{
    get_chardev_socket_path, parse_blk, parse_drive, parse_vhost_user_blk_pci, pci_args_check,
};
use hv_core::config::device::{get_pci_bdf, get_pci_df, DeviceAddArgument};
use hv_core::config::drive::{
    BlkDevConfig, ChardevConfig, ChardevType, DriveConfig, PFlashConfig, VmConfig, MAX_IOPS,
    MAX_PATH_LENGTH, MAX_STRING_LENGTH,
};
use hv_core::config::error::ConfigError;
use hv_core::config::parser::CmdParser;
use hv_core::config::text::{
    decimal_text, find_char, joined, parse_number, text_ends_with, text_eq,
};

#[test]
fn test_drive_config_cmdline_parser() {
    let mut vm_config = VmConfig::default();
    assert!(vm_config
        .add_drive(
            "id=rootfs,file=/path/to/rootfs,readonly=off,direct=on,throttling.iops-total=200"
        )
        .is_ok());
    let blk_cfg_res = parse_blk(
        &mut vm_config,
        "virtio-blk-device,drive=rootfs,id=rootfs,iothread=iothread1,serial=111111,num-queues=4",
        None,
    );
    assert!(blk_cfg_res.is_ok());
    let blk_device_config = blk_cfg_res.unwrap();
    assert_eq!(blk_device_config.id, "rootfs");
    assert_eq!(blk_device_config.path_on_host, "/path/to/rootfs");
    assert_eq!(blk_device_config.direct, true);
    assert_eq!(blk_device_config.read_only, false);
    assert_eq!(blk_device_config.serial_num, Some(String::from("111111")));
    assert_eq!(blk_device_config.queues, 4);

    let mut vm_config = VmConfig::default();
    assert!(vm_config
        .add_drive("id=rootfs,file=/path/to/rootfs,readonly=off,direct=on")
        .is_ok());
    let blk_cfg_res = parse_blk(
        &mut vm_config,
        "virtio-blk-device,drive=rootfs1,id=rootfs1,iothread=iothread1,iops=200,serial=111111",
        None,
    );
    assert!(blk_cfg_res.is_err()); // Can not find drive named "rootfs1".
}

#[test]
fn test_pci_block_config_cmdline_parser() {
    let mut vm_config = VmConfig::default();
    assert!(vm_config
        .add_drive("id=rootfs,file=/path/to/rootfs,readonly=off,direct=on")
        .is_ok());
    let blk_cfg = "virtio-blk-pci,id=rootfs,bus=pcie.0,addr=0x1.0x2,drive=rootfs,serial=111111,num-queues=4";
    let blk_cfg_res = parse_blk(&mut vm_config, blk_cfg, None);
    assert!(blk_cfg_res.is_ok());
    let drive_configs = blk_cfg_res.unwrap();
    assert_eq!(drive_configs.id, "rootfs");
    assert_eq!(drive_configs.path_on_host, "/path/to/rootfs");
    assert_eq!(drive_configs.direct, true);
    assert_eq!(drive_configs.read_only, false);
    assert_eq!(drive_configs.serial_num, Some(String::from("111111")));
    assert_eq!(drive_configs.queues, 4);

    let pci_bdf = get_pci_bdf(blk_cfg);
    assert!(pci_bdf.is_ok());
    let pci = pci_bdf.unwrap();
    assert_eq!(pci.bus, "pcie.0".to_string());
    assert_eq!(pci.addr, (1, 2));

    //  drive "rootfs" has been removed.
    let blk_cfg_res = parse_blk(&mut vm_config, blk_cfg, None);
    assert!(blk_cfg_res.is_err());

    let mut vm_config = VmConfig::default();
    assert!(vm_config
        .add_drive("id=rootfs,file=/path/to/rootfs,readonly=off,direct=on")
        .is_ok());
    let blk_cfg =
        "virtio-blk-pci,id=blk1,bus=pcie.0,addr=0x1.0x2,drive=rootfs,multifunction=on";
    assert!(parse_blk(&mut vm_config, blk_cfg, None).is_ok());
}

#[test]
fn test_pflash_config_cmdline_parser() {
    let mut vm_config = VmConfig::default();
    assert!(vm_config
        .add_drive("if=pflash,readonly=on,file=flash0.fd,unit=0")
        .is_ok());
    assert!(vm_config.pflashs.is_some());
    let pflash = vm_config.pflashs.unwrap();
    assert!(pflash.len() == 1);
    let pflash_cfg = &pflash[0];
    assert_eq!(pflash_cfg.unit, 0);
    assert_eq!(pflash_cfg.path_on_host, "flash0.fd".to_string());
    assert_eq!(pflash_cfg.read_only, true);

    let mut vm_config = VmConfig::default();
    assert!(vm_config
        .add_drive("readonly=on,file=flash0.fd,unit=0,if=pflash")
        .is_ok());

    let mut vm_config = VmConfig::default();
    assert!(vm_config
        .add_drive("readonly=on,if=pflash,file=flash0.fd,unit=0")
        .is_ok());

    let mut vm_config = VmConfig::default();
    assert!(vm_config
        .add_drive("if=pflash,readonly=on,file=flash0.fd,unit=2")
        .is_err());

    let mut vm_config = VmConfig::default();
    assert!(vm_config
        .add_drive("if=pflash,readonly=on,file=flash0.fd,unit=0")
        .is_ok());
    assert!(vm_config
        .add_drive("if=pflash,file=flash1.fd,unit=1")
        .is_ok());
    assert!(vm_config.pflashs.is_some());
    let pflash = vm_config.pflashs.unwrap();
    assert!(pflash.len() == 2);
    let pflash_cfg = &pflash[0];
    assert_eq!(pflash_cfg.unit, 0);
    assert_eq!(pflash_cfg.path_on_host, "flash0.fd".to_string());
    assert_eq!(pflash_cfg.read_only, true);
    let pflash_cfg = &pflash[1];
    assert_eq!(pflash_cfg.unit, 1);
    assert_eq!(pflash_cfg.path_on_host, "flash1.fd".to_string());
    assert_eq!(pflash_cfg.read_only, false);
}

#[test]
fn test_drive_config_check() {
    let mut drive_conf = DriveConfig::default();
    for _ in 0..MAX_STRING_LENGTH {
        drive_conf.id += "A";
    }
    assert!(drive_conf.check().is_ok());

    // Overflow
    drive_conf.id += "A";
    assert!(drive_conf.check().is_err());

    let mut drive_conf = DriveConfig::default();
    for _ in 0..MAX_PATH_LENGTH {
        drive_conf.path_on_host += "A";
    }
    assert!(drive_conf.check().is_ok());

    // Overflow
    drive_conf.path_on_host += "A";
    assert!(drive_conf.check().is_err());

    let mut drive_conf = DriveConfig::default();
    drive_conf.iops = Some(MAX_IOPS);
    assert!(drive_conf.check().is_ok());

    let mut drive_conf = DriveConfig::default();
    drive_conf.iops = None;
    assert!(drive_conf.check().is_ok());

    // Overflow
    drive_conf.iops = Some(MAX_IOPS + 1);
    assert!(drive_conf.check().is_err());
}

#[test]
fn test_add_drive_with_config() {
    let mut vm_config = VmConfig::default();

    let drive_list = ["drive-0", "drive-1", "drive-2"];
    for id in drive_list.iter() {
        let mut drive_conf = DriveConfig::default();
        drive_conf.id = String::from(*id);
        assert!(vm_config.add_drive_with_config(drive_conf).is_ok());

        let drive = vm_config.get_drive(*id).unwrap();
        assert_eq!(*id, drive.id);
    }

    let mut drive_conf = DriveConfig::default();
    drive_conf.id = String::from("drive-0");
    assert!(vm_config.add_drive_with_config(drive_conf).is_err());
}

#[test]
fn test_del_drive_by_id() {
    let mut vm_config = VmConfig::default();

    assert!(vm_config.del_drive_by_id("drive-0").is_err());

    let drive_list = ["drive-0", "drive-1", "drive-2"];
    for id in drive_list.iter() {
        let mut drive_conf = DriveConfig::default();
        drive_conf.id = String::from(*id);
        assert!(vm_config.add_drive_with_config(drive_conf).is_ok());
    }

    for id in drive_list.iter() {
        let mut drive_conf = DriveConfig::default();
        drive_conf.id = String::from(*id);
        assert!(vm_config.get_drive(*id).is_some());
        assert!(vm_config.del_drive_by_id(*id).is_ok());
        assert!(vm_config.get_drive(*id).is_none());
    }
}

fn other(message: &str) -> ConfigError {
    ConfigError::Other(message.to_string())
}

fn parser(name: &str, keys: &[&str], option: &str) -> Result<CmdParser, ConfigError> {
    let mut p = CmdParser::new(name);
    for key in keys {
        p.push(key);
    }
    p.parse(option)?;
    Ok(p)
}

#[test]
fn parser_takes_items_apart() {
    let p = parser("dev", &["", "id", "file", "flag"], "virtio,id=a=b,flag").unwrap();
    assert_eq!(p.get_value_string("file"), None);
    assert_eq!(p.get_value_string(""), Some("virtio".to_string()));
    assert_eq!(p.get_value_string("id"), Some("a=b".to_string()));
    assert_eq!(p.get_value_string("flag"), Some(String::new()));
    assert_eq!(p.get_value_string("nothing"), None);
    let p = parser("dev", &["", "id"], "id=x").unwrap();
    assert_eq!(p.get_value_string(""), None);
    assert_eq!(p.get_value_string("id"), Some("x".to_string()));
    let p = parser("dev", &["", "id"], "").unwrap();
    assert_eq!(p.get_value_string(""), Some(String::new()));
    assert_eq!(p.get_value_string("id"), None);
}

#[test]
fn parser_refusals() {
    let invalid = |a: &str, b: &str| ConfigError::InvalidParam(a.to_string(), b.to_string());
    assert_eq!(parser("dev", &["id"], ",id=1").err(), Some(invalid(",id=1", "dev")));
    assert_eq!(parser("dev", &["id"], "id=1,").err(), Some(invalid("id=1,", "dev")));
    assert_eq!(parser("dev", &["id"], "=1").err(), Some(invalid("=1", "dev")));
    assert_eq!(parser("dev", &["id", "x"], "id=1,x=").err(), Some(invalid("x=", "dev")));
    assert_eq!(parser("dev", &["id"], "id=1,other=2").err(), Some(invalid("other", "dev")));
    assert_eq!(parser("dev", &["id"], "kind,id=1").err(), Some(invalid("kind", "dev")));
    assert_eq!(parser("dev", &["id"], "id=1,,id=2").err(), Some(invalid("", "dev")));
    assert_eq!(
        parser("dev", &["id"], "id=1,id=2").err(),
        Some(ConfigError::FieldRepeat("dev".to_string(), "id".to_string()))
    );
    assert_eq!(parser("dev", &["id", "file"], "file=1,=2").err(), Some(invalid("=2", "dev")));
}

#[test]
fn get_parameters_passes_over_what_it_does_not_know() {
    let mut p = CmdParser::new("drive");
    p.push("if");
    assert!(p.get_parameters("id=a,if=pflash,unit=0").is_ok());
    assert_eq!(p.get_value_string("if"), Some("pflash".to_string()));
    assert_eq!(p.get_value_string("id"), None);
    let mut p = CmdParser::new("drive");
    p.push("if");
    assert_eq!(
        p.get_parameters("if=a,if=b").err(),
        Some(ConfigError::FieldRepeat("drive".to_string(), "if".to_string()))
    );
    let mut p = CmdParser::new("drive");
    p.push("if");
    assert!(p.get_parameters("id=a,").is_err());
}

#[test]
fn push_again_forgets_the_value() {
    let mut p = CmdParser::new("dev");
    p.push("id");
    p.push("file");
    p.parse("id=1,file=2").unwrap();
    p.push("id");
    assert_eq!(p.params.len(), 2);
    assert_eq!(p.get_value_string("id"), None);
    assert_eq!(p.get_value_string("file"), Some("2".to_string()));
    assert!(p.parse("id=3").is_ok());
    assert_eq!(p.get_value_string("id"), Some("3".to_string()));
}

#[test]
fn numbers_and_switches() {
    let keys = ["", "n", "s", "bad", "sw"];
    let p = parser("dev", &keys, "x1,n=200,s=+7,bad=12a,sw=on").unwrap();
    assert_eq!(p.get_value_number("n", u64::MAX), Ok(Some(200)));
    assert_eq!(p.get_value_number("s", 255), Ok(Some(7)));
    assert_eq!(p.get_value_number("missing", 255), Ok(None));
    assert_eq!(
        p.get_value_number("n", 199),
        Err(ConfigError::ConvertValueFailed("n".to_string(), "200".to_string()))
    );
    assert_eq!(
        p.get_value_number("bad", 255),
        Err(ConfigError::ConvertValueFailed("bad".to_string(), "12a".to_string()))
    );
    assert_eq!(
        p.get_value_number("", 255),
        Err(ConfigError::ConvertValueFailed("dev".to_string(), "x1".to_string()))
    );
    assert_eq!(p.get_value_switch("sw"), Ok(Some(true)));
    assert_eq!(p.get_value_switch("missing"), Ok(None));
    assert_eq!(
        p.get_value_switch("n"),
        Err(ConfigError::ConvertValueFailed("n".to_string(), "200".to_string()))
    );
    let p = parser("dev", &["sw"], "sw=off").unwrap();
    assert_eq!(p.get_value_switch("sw"), Ok(Some(false)));
    let p = parser("dev", &["sw"], "sw=ON").unwrap();
    assert!(p.get_value_switch("sw").is_err());
}

#[test]
fn parse_number_reads_like_the_standard_library() {
    let cases = [
        "", "+", "-", "0", "+0", "-0", "7", "007", "255", "256", "+255", "1_0", " 1", "1 ", "0x10",
        "18446744073709551615", "18446744073709551616", "99999999999999999999999", "１２", "12a",
        "++1", "65535", "65536",
    ];
    for s in cases {
        assert_eq!(parse_number(s, 10, u64::MAX), s.parse::<u64>().ok(), "{:?}", s);
        assert_eq!(parse_number(s, 10, 65535), s.parse::<u16>().ok().map(u64::from), "{:?}", s);
        assert_eq!(parse_number(s, 10, 255), s.parse::<u8>().ok().map(u64::from), "{:?}", s);
    }
    let hex = ["", "+", "0", "f", "F", "ff", "FF", "100", "g", "0x1", "+1f", "-1", "1F", "a0"];
    for s in hex {
        let want = u8::from_str_radix(s, 16).ok().map(u64::from);
        assert_eq!(parse_number(s, 16, 255), want, "{:?}", s);
    }
    assert_eq!(parse_number("1f", 16, 255), Some(31));
    assert_eq!(parse_number("200", 10, 255), Some(200));
}

#[test]
fn decimal_text_writes_like_the_standard_library() {
    for n in [0u64, 1, 9, 10, 11, 99, 100, 255, 65535, 1_000_000, u64::MAX] {
        assert_eq!(decimal_text(n), n.to_string());
        assert_eq!(parse_number(&decimal_text(n), 10, u64::MAX), Some(n));
    }
}

#[test]
fn text_helpers() {
    assert!(text_eq("native", "native"));
    assert!(!text_eq("native", "Native"));
    assert!(!text_eq("native", "nativ"));
    assert!(text_eq("", ""));
    assert_eq!(find_char("a,b,c", ',', 0), 1);
    assert_eq!(find_char("a,b,c", ',', 1), 1);
    assert_eq!(find_char("a,b,c", ',', 2), 3);
    assert_eq!(find_char("a,b,c", ',', 4), 5);
    assert_eq!(find_char("äö=ü", '=', 0), 2);
    assert_eq!(find_char("", ',', 0), 0);
    assert!(text_ends_with("virtio-blk-device", "-device"));
    assert!(!text_ends_with("virtio-blk-pci", "-device"));
    assert!(!text_ends_with("device", "-device"));
    assert!(text_ends_with("-device", "-device"));
    assert!(text_ends_with("x", ""));
    assert_eq!(joined("Drive ", "a"), "Drive a");
}

fn drive(option: &str) -> Result<DriveConfig, ConfigError> {
    let keys = ["file", "id", "readonly", "direct", "format", "if", "throttling.iops-total", "aio"];
    parse_drive(parser("drive", &keys, option)?)
}

#[test]
fn parse_drive_reads_every_parameter() {
    let d = drive("id=a,file=/f,readonly=on,direct=off,throttling.iops-total=5,aio=off").unwrap();
    assert_eq!(d.id, "a");
    assert_eq!(d.path_on_host, "/f");
    assert!(d.read_only);
    assert!(!d.direct);
    assert_eq!(d.iops, Some(5));
    assert_eq!(d.aio, None);
    let d = drive("id=a,file=/f").unwrap();
    assert!(!d.read_only);
    assert!(d.direct);
    assert_eq!(d.iops, None);
    assert_eq!(d.aio, Some("native".to_string()));
    let d = drive("id=a,file=/f,aio=io_uring,format=raw").unwrap();
    assert_eq!(d.aio, Some("io_uring".to_string()));
    let d = drive("id=a,file=/f,direct=off").unwrap();
    assert_eq!(d.aio, None);
    let d = drive("id=a,file=/f,direct=off,aio=io_uring").unwrap();
    assert_eq!(d.aio, Some("io_uring".to_string()));
}

#[test]
fn parse_drive_refusals() {
    let missing = |a: &str| ConfigError::FieldIsMissing(a.to_string(), "blk".to_string());
    assert_eq!(drive("file=/f").err(), Some(missing("id")));
    assert_eq!(drive("id=a").err(), Some(missing("file")));
    assert_eq!(
        drive("id=a,file=/f,format=qcow2").err(),
        Some(other("Only 'raw' type of block is supported"))
    );
    assert_eq!(
        drive("format=qcow2").err(),
        Some(other("Only 'raw' type of block is supported"))
    );
    assert_eq!(
        drive("id=a,file=/f,aio=threads").err(),
        Some(other("Invalid aio configure, should be one of native|io_uring|off"))
    );
    assert_eq!(
        drive("id=a,file=/f,readonly=yes").err(),
        Some(ConfigError::ConvertValueFailed("readonly".to_string(), "yes".to_string()))
    );
    assert_eq!(
        drive("id=a,file=/f,throttling.iops-total=many").err(),
        Some(ConfigError::ConvertValueFailed(
            "throttling.iops-total".to_string(),
            "many".to_string()
        ))
    );
    assert_eq!(
        drive("id=a,file=/f,throttling.iops-total=1000001").err(),
        Some(ConfigError::IllegalValue("iops of block device".to_string(), 0, true, 1000000, true))
    );
    assert_eq!(
        drive("id=a,file=/f,direct=off,aio=native").err(),
        Some(ConfigError::InvalidParam(
            "aio".to_string(),
            "native aio type should be used with \"direct\" on".to_string()
        ))
    );
    assert_eq!(
        drive("id=a,file=/f,direct=on,aio=off").err(),
        Some(ConfigError::InvalidParam(
            "aio".to_string(),
            "low performance expected when use sync io with \"direct\" on".to_string()
        ))
    );
    let long = format!("id={},file=/f", "A".repeat(256));
    assert_eq!(
        drive(&long).err(),
        Some(ConfigError::StringLengthTooLong("Drive id".to_string(), 255))
    );
    let long = format!("id=a,file={}", "A".repeat(4097));
    assert_eq!(
        drive(&long).err(),
        Some(ConfigError::StringLengthTooLong("Drive device path".to_string(), 4096))
    );
    // Lengths are counted in bytes.
    let long = format!("id={},file=/f", "ä".repeat(128));
    assert!(drive(&long).is_err());
    let fits = format!("id={},file=/f", "ä".repeat(127));
    assert!(drive(&fits).is_ok());
}

#[test]
fn add_drive_goes_by_the_kind() {
    let mut vm = VmConfig::default();
    assert!(vm.add_drive("id=a,file=/f,if=none").is_ok());
    assert_eq!(vm.drives.len(), 1);
    assert_eq!(vm.add_drive("id=a,file=/g").err(), Some(other("Drive a has been added")));
    assert_eq!(vm.drives.len(), 1);
    assert_eq!(vm.get_drive("a").unwrap().path_on_host, "/f");
    assert_eq!(
        vm.add_drive("id=b,file=/g,if=scsi").err(),
        Some(other("Unknow 'if' argument: scsi"))
    );
    assert_eq!(
        vm.add_drive("id=b,file=/g,if=none,if=none").err(),
        Some(ConfigError::FieldRepeat("drive".to_string(), "if".to_string()))
    );
    assert_eq!(
        vm.add_drive("id=b,file=/g,unit=1").err(),
        Some(ConfigError::InvalidParam("unit".to_string(), "drive".to_string()))
    );
    assert!(vm.add_block_drive("id=b,file=/g").is_ok());
    assert_eq!(vm.drives.len(), 2);
    assert!(vm.pflashs.is_none());
    assert_eq!(vm.del_drive_by_id("a"), Ok("/f".to_string()));
    assert_eq!(vm.del_drive_by_id("a"), Err(other("Drive a not found")));
    assert_eq!(vm.drives.len(), 1);
    assert_eq!(vm.drives[0].id, "b");
}

#[test]
fn add_pflash_refusals() {
    let mut vm = VmConfig::default();
    assert_eq!(
        vm.add_pflash("if=pflash,unit=0").err(),
        Some(ConfigError::FieldIsMissing("file".to_string(), "pflash".to_string()))
    );
    assert_eq!(
        vm.add_pflash("if=pflash,file=f").err(),
        Some(ConfigError::FieldIsMissing("unit".to_string(), "pflash".to_string()))
    );
    assert_eq!(
        vm.add_pflash("file=f,unit=0,format=qcow2").err(),
        Some(other("Only 'raw' type of pflash is supported"))
    );
    assert_eq!(
        vm.add_pflash("file=f,unit=2").err(),
        Some(ConfigError::UnitIdError("PFlash unit id".to_string(), 2, 1))
    );
    assert_eq!(
        vm.add_pflash("file=f,unit=x").err(),
        Some(ConfigError::ConvertValueFailed("unit".to_string(), "x".to_string()))
    );
    assert_eq!(
        vm.add_pflash("file=f,unit=0,id=a").err(),
        Some(ConfigError::InvalidParam("id".to_string(), "pflash".to_string()))
    );
    assert!(vm.pflashs.is_none());
    assert!(vm.add_pflash("file=f,unit=1,format=raw").is_ok());
    assert_eq!(
        vm.add_pflash("file=g,unit=1").err(),
        Some(ConfigError::IdRepeat("pflash".to_string(), "1".to_string()))
    );
    assert_eq!(vm.pflashs.as_ref().unwrap().len(), 1);
    let flash = PFlashConfig { path_on_host: "h".to_string(), read_only: true, unit: 0 };
    assert!(vm.add_flashdev(flash).is_ok());
    assert_eq!(vm.pflashs.as_ref().unwrap().len(), 2);
    let long = PFlashConfig { path_on_host: "p".repeat(4097), read_only: false, unit: 0 };
    assert_eq!(
        long.check().err(),
        Some(ConfigError::StringLengthTooLong("drive device path".to_string(), 4096))
    );
}

fn vm_with_drive() -> VmConfig {
    let mut vm = VmConfig::default();
    vm.add_drive("id=rootfs,file=/path/to/rootfs,readonly=on,direct=off,aio=off").unwrap();
    vm
}

#[test]
fn parse_blk_reads_every_parameter() {
    let mut vm = vm_with_drive();
    let option = "virtio-blk-pci,id=blk0,drive=rootfs,bootindex=3,serial=s1,iothread=t1,\
                  num-queues=2,queue-size=128,bus=pcie.0,addr=0x2";
    let blk = parse_blk(&mut vm, option, Some(8)).unwrap();
    assert_eq!(blk.id, "blk0");
    assert_eq!(blk.path_on_host, "/path/to/rootfs");
    assert!(blk.read_only);
    assert!(!blk.direct);
    assert_eq!(blk.iops, None);
    assert_eq!(blk.aio, None);
    assert_eq!(blk.boot_index, Some(3));
    assert_eq!(blk.serial_num, Some("s1".to_string()));
    assert_eq!(blk.iothread, Some("t1".to_string()));
    assert_eq!(blk.queues, 2);
    assert_eq!(blk.queue_size, 128);
    assert_eq!(blk.chardev, None);
    assert_eq!(blk.socket_path, None);
    assert!(vm.drives.is_empty());
    let mut vm = vm_with_drive();
    let blk = parse_blk(&mut vm, "virtio-blk-pci,id=blk0,drive=rootfs", Some(8)).unwrap();
    assert_eq!(blk.queues, 8);
    assert_eq!(blk.queue_size, 256);
    assert_eq!(blk.boot_index, None);
    let mut vm = vm_with_drive();
    let blk = parse_blk(&mut vm, "id=blk0,drive=rootfs", None).unwrap();
    assert_eq!(blk.queues, 1);
}

#[test]
fn parse_blk_refusals() {
    let cases: Vec<(&str, ConfigError)> = vec![
        (
            "virtio-blk-pci,id=blk0",
            ConfigError::FieldIsMissing("drive".to_string(), "blk".to_string()),
        ),
        ("virtio-blk-pci,drive=rootfs", other("No id configured for blk device")),
        (
            "virtio-blk-pci,id=blk0,drive=other",
            other("No drive configured matched for blk device"),
        ),
        (
            "virtio-blk-pci,id=blk0,drive=rootfs,bootindex=256",
            ConfigError::ConvertValueFailed("bootindex".to_string(), "256".to_string()),
        ),
        (
            "virtio-blk-pci,id=blk0,drive=rootfs,num-queues=65536",
            ConfigError::ConvertValueFailed("num-queues".to_string(), "65536".to_string()),
        ),
        (
            "virtio-blk-pci,id=blk0,drive=rootfs,chardev=c",
            ConfigError::InvalidParam("chardev".to_string(), "virtio-blk".to_string()),
        ),
        (
            "virtio-blk-device,id=blk0,drive=rootfs,bus=pcie.0",
            other("virtio mmio device does not support bus arguments"),
        ),
        (
            "virtio-blk-device,id=blk0,drive=rootfs,addr=1",
            other("virtio mmio device does not support addr arguments"),
        ),
        (
            "virtio-blk-device,id=blk0,drive=rootfs,multifunction=on",
            other("virtio mmio device does not support multifunction arguments"),
        ),
        (
            "virtio-blk-device,id=blk0,drive=rootfs,multifunction=1",
            ConfigError::ConvertValueFailed("multifunction".to_string(), "1".to_string()),
        ),
    ];
    for (option, error) in cases {
        let mut vm = vm_with_drive();
        assert_eq!(parse_blk(&mut vm, option, None).err(), Some(error), "{}", option);
        assert_eq!(vm.drives.len(), 1, "{}", option);
    }
}

#[test]
fn parse_blk_takes_the_drive_before_it_checks_the_device() {
    let cases: Vec<(&str, ConfigError)> = vec![
        (
            "virtio-blk-pci,id=blk0,drive=rootfs,num-queues=0",
            ConfigError::IllegalValue(
                "number queues of block device".to_string(),
                1,
                true,
                32,
                true,
            ),
        ),
        (
            "virtio-blk-pci,id=blk0,drive=rootfs,num-queues=33",
            ConfigError::IllegalValue(
                "number queues of block device".to_string(),
                1,
                true,
                32,
                true,
            ),
        ),
        (
            "virtio-blk-pci,id=blk0,drive=rootfs,queue-size=2",
            ConfigError::IllegalValue("queue size of block device".to_string(), 2, false, 1024, true),
        ),
        (
            "virtio-blk-pci,id=blk0,drive=rootfs,queue-size=2048",
            ConfigError::IllegalValue("queue size of block device".to_string(), 2, false, 1024, true),
        ),
        (
            "virtio-blk-pci,id=blk0,drive=rootfs,queue-size=100",
            other("Queue size should be power of 2!"),
        ),
        (
            "virtio-blk-pci,id=blk0,drive=rootfs,serial=0123456789abcdefghijk",
            ConfigError::StringLengthTooLong("drive serial number".to_string(), 20),
        ),
    ];
    for (option, error) in cases {
        let mut vm = vm_with_drive();
        assert_eq!(parse_blk(&mut vm, option, None).err(), Some(error), "{}", option);
        assert!(vm.drives.is_empty(), "{}", option);
    }
    let mut vm = vm_with_drive();
    assert!(parse_blk(&mut vm, "virtio-blk-pci,id=b,drive=rootfs,queue-size=4", None).is_ok());
    let mut vm = vm_with_drive();
    assert!(parse_blk(&mut vm, "virtio-blk-pci,id=b,drive=rootfs,queue-size=1024", None).is_ok());
    let mut vm = vm_with_drive();
    assert!(parse_blk(&mut vm, "virtio-blk-pci,id=b,drive=rootfs,num-queues=32", None).is_ok());
}

#[test]
fn blk_check_limits() {
    let blk = BlkDevConfig::default();
    assert!(blk.check().is_ok());
    assert_eq!(blk.queues, 1);
    assert_eq!(blk.queue_size, 256);
    assert_eq!(blk.aio, Some("native".to_string()));
    let mut long = BlkDevConfig::default();
    long.id = "i".repeat(256);
    assert_eq!(
        long.check().err(),
        Some(ConfigError::StringLengthTooLong("drive device id".to_string(), 255))
    );
    let mut long = BlkDevConfig::default();
    long.iothread = Some("t".repeat(256));
    assert_eq!(
        long.check().err(),
        Some(ConfigError::StringLengthTooLong("iothread name".to_string(), 255))
    );
    let mut sync = BlkDevConfig::default();
    sync.aio = None;
    assert!(sync.check().is_err());
    sync.direct = false;
    assert!(sync.check().is_ok());
}

fn vm_with_chardev(backend: ChardevType) -> VmConfig {
    let mut vm = VmConfig::default();
    vm.chardev.push(ChardevConfig { id: "c0".to_string(), backend });
    vm
}

fn socket(server: bool, nowait: bool) -> ChardevType {
    ChardevType::Socket { path: "/tmp/blk.sock".to_string(), server, nowait }
}

#[test]
fn vhost_user_blk() {
    let mut vm = vm_with_chardev(socket(false, false));
    let option = "vhost-user-blk-pci,id=blk0,chardev=c0,bus=pcie.0,addr=0x3,num-queues=4";
    let blk = parse_vhost_user_blk_pci(&mut vm, option, Some(2)).unwrap();
    assert_eq!(blk.id, "blk0");
    assert_eq!(blk.chardev, Some("c0".to_string()));
    assert_eq!(blk.socket_path, Some("/tmp/blk.sock".to_string()));
    assert_eq!(blk.queues, 4);
    assert_eq!(blk.queue_size, 256);
    assert_eq!(blk.path_on_host, "");
    assert!(vm.chardev.is_empty());
    let mut vm = vm_with_chardev(socket(false, false));
    let option = "vhost-user-blk-pci,id=blk0,chardev=c0,queue-size=512";
    let blk = parse_vhost_user_blk_pci(&mut vm, option, Some(2)).unwrap();
    assert_eq!(blk.queues, 2);
    assert_eq!(blk.queue_size, 512);
}

#[test]
fn vhost_user_blk_refusals() {
    let mut vm = vm_with_chardev(socket(false, false));
    assert_eq!(
        parse_vhost_user_blk_pci(&mut vm, "vhost-user-blk-pci,id=blk0", None).err(),
        Some(ConfigError::FieldIsMissing("chardev".to_string(), "vhost-user-blk-pci".to_string()))
    );
    assert_eq!(
        parse_vhost_user_blk_pci(&mut vm, "vhost-user-blk-pci,chardev=c0", None).err(),
        Some(other("No id configured for blk device"))
    );
    assert_eq!(
        parse_vhost_user_blk_pci(&mut vm, "vhost-user-blk-pci,id=b,chardev=c0,drive=d", None).err(),
        Some(ConfigError::InvalidParam("drive".to_string(), "vhost-user-blk-pci".to_string()))
    );
    assert_eq!(
        parse_vhost_user_blk_pci(&mut vm, "vhost-user-blk-pci,id=b,chardev=c1", None).err(),
        Some(other("Chardev: c1 not found for character device"))
    );
    assert_eq!(vm.chardev.len(), 1);
    assert_eq!(
        parse_vhost_user_blk_pci(&mut vm, "x,id=b,chardev=c0,num-queues=64", None).err(),
        Some(ConfigError::IllegalValue(
            "number queues of block device".to_string(),
            1,
            true,
            32,
            true
        ))
    );
    assert!(vm.chardev.is_empty());
    let mut vm = vm_with_chardev(socket(true, false));
    assert_eq!(
        get_chardev_socket_path("c0", &mut vm).err(),
        Some(other("Argument 'server' or 'nowait' is not need for chardev c0"))
    );
    assert!(vm.chardev.is_empty());
    let mut vm = vm_with_chardev(socket(false, true));
    assert!(get_chardev_socket_path("c0", &mut vm).is_err());
    let mut vm = vm_with_chardev(ChardevType::Stdio);
    assert_eq!(
        get_chardev_socket_path("c0", &mut vm).err(),
        Some(other("Chardev c0 backend should be socket type."))
    );
    let mut vm = vm_with_chardev(ChardevType::File("/f".to_string()));
    assert!(get_chardev_socket_path("c0", &mut vm).is_err());
    let mut vm = vm_with_chardev(socket(false, false));
    assert_eq!(get_chardev_socket_path("c0", &mut vm), Ok("/tmp/blk.sock".to_string()));
}

#[test]
fn pci_args_check_looks_at_the_kind() {
    let keys = ["", "bus", "addr", "multifunction"];
    assert!(pci_args_check(&parser("d", &keys, "virtio-blk-pci,bus=b,addr=1").unwrap()).is_ok());
    assert!(pci_args_check(&parser("d", &keys, "virtio-blk-device").unwrap()).is_ok());
    assert!(pci_args_check(&parser("d", &keys, "bus=b").unwrap()).is_ok());
    assert!(pci_args_check(&parser("d", &keys, "virtio-blk-device,bus=b").unwrap()).is_err());
}

#[test]
fn pci_address() {
    assert_eq!(get_pci_df("0x1.0x2"), Ok((1, 2)));
    assert_eq!(get_pci_df("1f.7"), Ok((31, 7)));
    assert_eq!(get_pci_df("0x1F"), Ok((31, 0)));
    assert_eq!(get_pci_df("0x0x3"), Ok((3, 0)));
    assert_eq!(get_pci_df("0"), Ok((0, 0)));
    assert_eq!(get_pci_df("+a.+1"), Ok((10, 1)));
    for bad in ["", "0x", "20", "1.8", "1.2.3", "x", "1.", ".1", "0x1.0xg", "100", "1,2"] {
        assert!(get_pci_df(bad).is_err(), "{:?}", bad);
    }
    assert_eq!(
        get_pci_bdf("virtio-blk-pci,id=a").err(),
        Some(other("Bus not specified for pci device"))
    );
    assert_eq!(
        get_pci_bdf("virtio-blk-pci,bus=pcie.0").err(),
        Some(other("No addr found for pci device"))
    );
    assert!(get_pci_bdf("virtio-blk-pci,bus=pcie.0,addr=0x20").is_err());
    let bdf = get_pci_bdf("bus=pcie.1,addr=0x1f.0x7,whatever=1").unwrap();
    assert_eq!(bdf.bus, "pcie.1");
    assert_eq!(bdf.addr, (31, 7));
}

#[test]
fn add_blk_device_config_writes_an_option() {
    let mut vm = VmConfig::default();
    let mut args = DeviceAddArgument {
        id: "blk1".to_string(),
        driver: "virtio-blk-pci".to_string(),
        addr: None,
        bus: None,
        drive: None,
        serial_num: None,
        iothread: None,
        multifunction: None,
        mq: None,
        queues: None,
        boot_index: None,
    };
    vm.add_blk_device_config(&args);
    assert_eq!(vm.devices.len(), 1);
    assert_eq!(vm.devices[0].driver, "virtio-blk-pci");
    assert_eq!(vm.devices[0].options, "virtio-blk-pci,id=blk1");
    args.drive = Some("rootfs".to_string());
    args.serial_num = Some("111".to_string());
    args.addr = Some("0x1.0x2".to_string());
    args.bus = Some("pcie.0".to_string());
    args.multifunction = Some(true);
    args.iothread = Some("t1".to_string());
    args.mq = Some("on".to_string());
    args.queues = Some(4);
    args.boot_index = Some(0);
    vm.add_blk_device_config(&args);
    assert_eq!(vm.devices.len(), 2);
    assert_eq!(
        vm.devices[1].options,
        "virtio-blk-pci,id=blk1,drive=rootfs,serial=111,addr=0x1.0x2,bus=pcie.0,\
         multifunction=on,iothread=t1,mq=on,num-queues=4,bootindex=0"
    );
    args.multifunction = Some(false);
    args.queues = Some(65535);
    args.boot_index = Some(255);
    args.mq = None;
    vm.add_blk_device_config(&args);
    assert_eq!(
        vm.devices[2].options,
        "virtio-blk-pci,id=blk1,drive=rootfs,serial=111,addr=0x1.0x2,bus=pcie.0,\
         multifunction=off,iothread=t1,num-queues=65535,bootindex=255"
    );
    assert_eq!(vm.devices[0].options, "virtio-blk-pci,id=blk1");
}

#[test]
fn check_path_goes_by_what_the_file_system_says() {
    let mut drive = DriveConfig::default();
    drive.path_on_host = "/dev/vda".to_string();
    // A regular file, a block device, a directory, a character device.
    assert_eq!(drive.check_path(Ok(0o100644), Some(3)), Ok(()));
    assert_eq!(drive.check_path(Ok(0o060660), Some(3)), Ok(()));
    assert_eq!(
        drive.check_path(Ok(0o040755), Some(3)),
        Err(ConfigError::UnRegularFileOrBlk("/dev/vda".to_string()))
    );
    assert_eq!(
        drive.check_path(Ok(0o020620), Some(3)),
        Err(ConfigError::UnRegularFileOrBlk("/dev/vda".to_string()))
    );
    assert_eq!(
        drive.check_path(Err("No such file or directory".to_string()), Some(3)),
        Err(ConfigError::NoMetadata(
            "/dev/vda".to_string(),
            "No such file or directory".to_string()
        ))
    );
    assert_eq!(drive.check_path(Ok(0o100644), Some(255)), Ok(()));
    assert_eq!(
        drive.check_path(Ok(0o100644), Some(256)),
        Err(ConfigError::StringLengthTooLong("File name".to_string(), 255))
    );
    assert_eq!(
        drive.check_path(Ok(0o100644), None),
        Err(ConfigError::InvalidParam("/dev/vda".to_string(), "file".to_string()))
    );
    // The kind of the file is looked at before its name.
    assert_eq!(
        drive.check_path(Ok(0o040755), Some(256)),
        Err(ConfigError::UnRegularFileOrBlk("/dev/vda".to_string()))
    );
}
