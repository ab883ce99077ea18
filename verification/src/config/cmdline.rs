//! The options `-drive` and `-device` for drives, flash devices and block
//! devices: from the text of an option to the configuration.

use crate::config::drive::{
    BlkDevConfig, BlkDevConfigView, ChardevConfig, ChardevConfigView, ChardevType, ChardevTypeView,
    DEFAULT_VIRTQUEUE_SIZE, DriveConfig, DriveConfigView, PFlashConfig, PFlashConfigView, VmConfig,
    blk_checked, chardev_index, default_blk, drive_checked, drive_index, has_drive, is_checked,
    lemma_chardev_index, pflash_checked, unit_index,
};
use crate::config::error::{ConfigError, ConfigErrorView};
use crate::config::parser::{
    CmdParser, ParamView, number_given, parsed, pushed, raw_value, switch_given,
};
use crate::config::text::{decimal, ends_with, joined, text_ends_with, text_eq};
use vstd::prelude::*;
use vstd::string::StrSliceExecFns;
use vstd::string::StringExecFns;

verus! {

/// The parameters after each of `keys` was made known in turn.
pub open spec fn all_pushed(ps: Seq<ParamView>, keys: Seq<Seq<char>>) -> Seq<ParamView>
    decreases keys.len(),
{
    if keys.len() == 0 {
        ps
    } else {
        pushed(all_pushed(ps, keys.drop_last()), keys.last())
    }
}

/// The parameters of a drive.
pub open spec fn drive_keys() -> Seq<Seq<char>> {
    seq![
        "file"@,
        "id"@,
        "readonly"@,
        "direct"@,
        "format"@,
        "if"@,
        "throttling.iops-total"@,
        "aio"@,
    ]
}

/// The parameters of a flash device.
pub open spec fn pflash_keys() -> Seq<Seq<char>> {
    seq!["if"@, "file"@, "format"@, "readonly"@, "unit"@]
}

/// The parameters of a virtio block device.
pub open spec fn blk_keys() -> Seq<Seq<char>> {
    seq![
        ""@,
        "id"@,
        "bus"@,
        "addr"@,
        "multifunction"@,
        "drive"@,
        "bootindex"@,
        "serial"@,
        "iothread"@,
        "num-queues"@,
        "queue-size"@,
    ]
}

/// The parameters of a vhost-user block device.
pub open spec fn vhost_user_blk_keys() -> Seq<Seq<char>> {
    seq![""@, "id"@, "bus"@, "addr"@, "num-queues"@, "chardev"@, "queue-size"@]
}

/// Whether `r` is the outcome `want`, texts compared as sequences.
pub open spec fn is_drive(r: Result<DriveConfig, ConfigError>, want: Result<
    DriveConfigView,
    ConfigErrorView,
>) -> bool {
    match want {
        Ok(d) => r is Ok && r->Ok_0@ == d,
        Err(e) => r is Err && r->Err_0@ == e,
    }
}

/// Whether `r` is the outcome `want`, texts compared as sequences.
pub open spec fn is_blk(r: Result<BlkDevConfig, ConfigError>, want: Result<
    BlkDevConfigView,
    ConfigErrorView,
>) -> bool {
    match want {
        Ok(b) => r is Ok && r->Ok_0@ == b,
        Err(e) => r is Err && r->Err_0@ == e,
    }
}

/// The way of asynchronous I/O of a drive: the one given unless it is
/// `off`, and without one the native way for direct I/O and none else.
pub open spec fn aio_of(given: Option<Seq<char>>, direct: bool) -> Option<Seq<char>> {
    match given {
        Some(aio) => if aio != "off"@ {
            Some(aio)
        } else {
            None
        },
        None => if direct {
            Some("native"@)
        } else {
            None
        },
    }
}

/// The drive that the parameters `ps` of the option `name` describe. Only
/// the raw format is supported, identifier and file are needed, and the
/// drive must be within its limits.
pub open spec fn drive_parsed(ps: Seq<ParamView>, name: Seq<char>) -> Result<
    DriveConfigView,
    ConfigErrorView,
> {
    let format = raw_value(ps, "format"@);
    let id = raw_value(ps, "id"@);
    let file = raw_value(ps, "file"@);
    let aio = raw_value(ps, "aio"@);
    if format is Some && format->0 != "raw"@ {
        Err(ConfigErrorView::Other("Only 'raw' type of block is supported"@))
    } else if id is None {
        Err(ConfigErrorView::FieldIsMissing("id"@, "blk"@))
    } else if file is None {
        Err(ConfigErrorView::FieldIsMissing("file"@, "blk"@))
    } else {
        match switch_given(ps, name, "readonly"@) {
            Err(e) => Err(e),
            Ok(read_only) => match switch_given(ps, name, "direct"@) {
                Err(e) => Err(e),
                Ok(direct) => match number_given(
                    ps,
                    name,
                    "throttling.iops-total"@,
                    u64::MAX as nat,
                ) {
                    Err(e) => Err(e),
                    Ok(iops) => {
                        let direct = match direct {
                            Some(d) => d,
                            None => true,
                        };
                        let drive = DriveConfigView {
                            id: id->0,
                            path_on_host: file->0,
                            read_only: match read_only {
                                Some(r) => r,
                                None => false,
                            },
                            direct,
                            iops: match iops {
                                Some(n) => Some(n as u64),
                                None => None,
                            },
                            aio: aio_of(aio, direct),
                        };
                        if aio is Some && aio->0 != "native"@ && aio->0 != "io_uring"@ && aio->0
                            != "off"@ {
                            Err(
                                ConfigErrorView::Other(
                                    "Invalid aio configure, should be one of native|io_uring|off"@,
                                ),
                            )
                        } else {
                            match drive_checked(drive) {
                                Err(e) => Err(e),
                                Ok(_) => Ok(drive),
                            }
                        }
                    },
                },
            },
        }
    }
}

/// The drive that the parameters of `cmd_parser` describe. The file itself
/// is not looked at.
pub fn parse_drive(cmd_parser: CmdParser) -> (r: Result<DriveConfig, ConfigError>)
    ensures
        is_drive(r, drive_parsed(cmd_parser.spec_params(), cmd_parser.name@)),
{
    let mut drive = DriveConfig::default();
    match cmd_parser.get_value_string("format") {
        Some(format) => {
            if !text_eq(format.as_str(), "raw") {
                return Err(ConfigError::Other("Only 'raw' type of block is supported".to_owned()));
            }
        },
        None => {},
    }
    match cmd_parser.get_value_string("id") {
        Some(id) => {
            drive.id = id;
        },
        None => {
            return Err(ConfigError::FieldIsMissing("id".to_owned(), "blk".to_owned()));
        },
    }
    match cmd_parser.get_value_string("file") {
        Some(file) => {
            drive.path_on_host = file;
        },
        None => {
            return Err(ConfigError::FieldIsMissing("file".to_owned(), "blk".to_owned()));
        },
    }
    match cmd_parser.get_value_switch("readonly") {
        Err(e) => {
            return Err(e);
        },
        Ok(Some(read_only)) => {
            drive.read_only = read_only;
        },
        Ok(None) => {},
    }
    match cmd_parser.get_value_switch("direct") {
        Err(e) => {
            return Err(e);
        },
        Ok(Some(direct)) => {
            drive.direct = direct;
        },
        Ok(None) => {},
    }
    match cmd_parser.get_value_number("throttling.iops-total", u64::MAX) {
        Err(e) => {
            return Err(e);
        },
        Ok(iops) => {
            drive.iops = iops;
        },
    }
    match cmd_parser.get_value_string("aio") {
        Some(aio) => {
            if !text_eq(aio.as_str(), "native") && !text_eq(aio.as_str(), "io_uring") && !text_eq(
                aio.as_str(),
                "off",
            ) {
                return Err(
                    ConfigError::Other(
                        "Invalid aio configure, should be one of native|io_uring|off".to_owned(),
                    ),
                );
            }
            if !text_eq(aio.as_str(), "off") {
                drive.aio = Some(aio);
            } else {
                drive.aio = None;
            }
        },
        None => {
            if drive.direct {
                drive.aio = Some("native".to_owned());
            } else {
                drive.aio = None;
            }
        },
    }
    match drive.check() {
        Err(e) => Err(e),
        Ok(()) => Ok(drive),
    }
}

/// What the parameters of a device on the system bus may not hold: a
/// device whose kind ends in `-device` has no bus, no address and no
/// functions.
pub open spec fn pci_args_checked(ps: Seq<ParamView>, name: Seq<char>) -> Result<
    (),
    ConfigErrorView,
> {
    let kind = raw_value(ps, ""@);
    if kind is Some && ends_with(kind->0, "-device"@) {
        if raw_value(ps, "bus"@) is Some {
            Err(ConfigErrorView::Other("virtio mmio device does not support bus arguments"@))
        } else if raw_value(ps, "addr"@) is Some {
            Err(ConfigErrorView::Other("virtio mmio device does not support addr arguments"@))
        } else {
            match switch_given(ps, name, "multifunction"@) {
                Err(e) => Err(e),
                Ok(Some(_)) => Err(
                    ConfigErrorView::Other(
                        "virtio mmio device does not support multifunction arguments"@,
                    ),
                ),
                Ok(None) => Ok(()),
            }
        }
    } else {
        Ok(())
    }
}

/// Whether the parameters of a device fit its kind.
pub fn pci_args_check(cmd_parser: &CmdParser) -> (r: Result<(), ConfigError>)
    ensures
        is_checked(r, pci_args_checked(cmd_parser.spec_params(), cmd_parser.name@)),
{
    let on_system_bus: bool = match cmd_parser.get_value_string("") {
        Some(kind) => text_ends_with(kind.as_str(), "-device"),
        None => false,
    };
    if on_system_bus {
        if cmd_parser.get_value_string("bus").is_some() {
            return Err(
                ConfigError::Other("virtio mmio device does not support bus arguments".to_owned()),
            );
        }
        if cmd_parser.get_value_string("addr").is_some() {
            return Err(
                ConfigError::Other("virtio mmio device does not support addr arguments".to_owned()),
            );
        }
        match cmd_parser.get_value_switch("multifunction") {
            Err(e) => {
                return Err(e);
            },
            Ok(Some(_)) => {
                return Err(
                    ConfigError::Other(
                        "virtio mmio device does not support multifunction arguments".to_owned(),
                    ),
                );
            },
            Ok(None) => {},
        }
    }
    Ok(())
}

/// The number of queues of a block device: the one given, else the one
/// that the machine proposes, else one.
pub open spec fn queues_of(given: Option<nat>, queues_auto: Option<u16>) -> u16 {
    match given {
        Some(n) => n as u16,
        None => match queues_auto {
            Some(n) => n,
            None => 1u16,
        },
    }
}

/// A virtio block device as its parameters describe it, before its drive
/// is looked up, together with the identifier of the drive.
pub open spec fn blk_described(ps: Seq<ParamView>, name: Seq<char>, queues_auto: Option<u16>)
    -> Result<(BlkDevConfigView, Seq<char>), ConfigErrorView> {
    match pci_args_checked(ps, name) {
        Err(e) => Err(e),
        Ok(_) => match number_given(ps, name, "bootindex"@, u8::MAX as nat) {
            Err(e) => Err(e),
            Ok(boot_index) => if raw_value(ps, "drive"@) is None {
                Err(ConfigErrorView::FieldIsMissing("drive"@, "blk"@))
            } else if raw_value(ps, "id"@) is None {
                Err(ConfigErrorView::Other("No id configured for blk device"@))
            } else {
                match number_given(ps, name, "num-queues"@, u16::MAX as nat) {
                    Err(e) => Err(e),
                    Ok(queues) => match number_given(ps, name, "queue-size"@, u16::MAX as nat) {
                        Err(e) => Err(e),
                        Ok(queue_size) => Ok(
                            (
                                BlkDevConfigView {
                                    id: raw_value(ps, "id"@)->0,
                                    path_on_host: Seq::<char>::empty(),
                                    read_only: false,
                                    direct: true,
                                    serial_num: raw_value(ps, "serial"@),
                                    iothread: raw_value(ps, "iothread"@),
                                    iops: None,
                                    queues: queues_of(queues, queues_auto),
                                    boot_index: match boot_index {
                                        Some(n) => Some(n as u8),
                                        None => None,
                                    },
                                    chardev: None,
                                    socket_path: None,
                                    aio: Some("native"@),
                                    queue_size: match queue_size {
                                        Some(n) => n as u16,
                                        None => DEFAULT_VIRTQUEUE_SIZE,
                                    },
                                },
                                raw_value(ps, "drive"@)->0,
                            ),
                        ),
                    },
                }
            },
        },
    }
}

/// The block device with what its drive says of the file.
pub open spec fn blk_with_drive(blk: BlkDevConfigView, drive: DriveConfigView) -> BlkDevConfigView {
    BlkDevConfigView {
        path_on_host: drive.path_on_host,
        read_only: drive.read_only,
        direct: drive.direct,
        iops: drive.iops,
        aio: drive.aio,
        ..blk
    }
}

/// The virtio block device that the option `s` describes, given the
/// drives `drives`. The drive that the device names must be among them,
/// and the device must be within its limits.
pub open spec fn blk_parsed(drives: Seq<DriveConfigView>, s: Seq<char>, queues_auto: Option<u16>)
    -> Result<BlkDevConfigView, ConfigErrorView> {
    let name = "virtio-blk"@;
    match parsed(all_pushed(Seq::<ParamView>::empty(), blk_keys()), name, s, true) {
        Err(e) => Err(e),
        Ok(ps) => match blk_described(ps, name, queues_auto) {
            Err(e) => Err(e),
            Ok((blk, drive_id)) => {
                let i = drive_index(drives, drive_id, 0);
                if i >= drives.len() {
                    Err(ConfigErrorView::Other("No drive configured matched for blk device"@))
                } else {
                    let blk = blk_with_drive(blk, drives[i]);
                    match blk_checked(blk) {
                        Err(e) => Err(e),
                        Ok(_) => Ok(blk),
                    }
                }
            },
        },
    }
}

/// The drives that are left once the option `s` was parsed: the drive that
/// the device names is taken, whether or not the device turns out to be
/// within its limits.
pub open spec fn drives_after_blk(
    drives: Seq<DriveConfigView>,
    s: Seq<char>,
    queues_auto: Option<u16>,
) -> Seq<DriveConfigView> {
    let name = "virtio-blk"@;
    match parsed(all_pushed(Seq::<ParamView>::empty(), blk_keys()), name, s, true) {
        Err(e) => drives,
        Ok(ps) => match blk_described(ps, name, queues_auto) {
            Err(e) => drives,
            Ok((blk, drive_id)) => {
                let i = drive_index(drives, drive_id, 0);
                if i >= drives.len() {
                    drives
                } else {
                    drives.remove(i)
                }
            },
        },
    }
}

fn narrow_u16(n: Option<u64>) -> (r: Option<u16>)
    requires
        n matches Some(v) ==> v <= u16::MAX,
    ensures
        r is Some <==> n is Some,
        r matches Some(v) ==> v == n->0,
{
    match n {
        Some(v) => Some(v as u16),
        None => None,
    }
}

fn narrow_u8(n: Option<u64>) -> (r: Option<u8>)
    requires
        n matches Some(v) ==> v <= u8::MAX,
    ensures
        r is Some <==> n is Some,
        r matches Some(v) ==> v == n->0,
{
    match n {
        Some(v) => Some(v as u8),
        None => None,
    }
}

fn describe_blk(cmd_parser: &CmdParser, queues_auto: Option<u16>) -> (r: Result<
    (BlkDevConfig, String),
    ConfigError,
>)
    ensures
        match blk_described(cmd_parser.spec_params(), cmd_parser.name@, queues_auto) {
            Ok((blk, drive_id)) => r is Ok && r->Ok_0.0@ == blk && r->Ok_0.1@ == drive_id,
            Err(e) => r is Err && r->Err_0@ == e,
        },
{
    match pci_args_check(cmd_parser) {
        Err(e) => {
            return Err(e);
        },
        Ok(()) => {},
    }
    let mut blkdevcfg = BlkDevConfig::default();
    match cmd_parser.get_value_number("bootindex", 255) {
        Err(e) => {
            return Err(e);
        },
        Ok(boot_index) => {
            blkdevcfg.boot_index = narrow_u8(boot_index);
        },
    }
    let blkdrive: String = match cmd_parser.get_value_string("drive") {
        Some(drive) => drive,
        None => {
            return Err(ConfigError::FieldIsMissing("drive".to_owned(), "blk".to_owned()));
        },
    };
    blkdevcfg.iothread = cmd_parser.get_value_string("iothread");
    blkdevcfg.serial_num = cmd_parser.get_value_string("serial");
    match cmd_parser.get_value_string("id") {
        Some(id) => {
            blkdevcfg.id = id;
        },
        None => {
            return Err(ConfigError::Other("No id configured for blk device".to_owned()));
        },
    }
    match cmd_parser.get_value_number("num-queues", 65535) {
        Err(e) => {
            return Err(e);
        },
        Ok(queues) => {
            match narrow_u16(queues) {
                Some(queues) => {
                    blkdevcfg.queues = queues;
                },
                None => match queues_auto {
                    Some(queues) => {
                        blkdevcfg.queues = queues;
                    },
                    None => {},
                },
            }
        },
    }
    match cmd_parser.get_value_number("queue-size", 65535) {
        Err(e) => {
            return Err(e);
        },
        Ok(queue_size) => {
            match narrow_u16(queue_size) {
                Some(queue_size) => {
                    blkdevcfg.queue_size = queue_size;
                },
                None => {},
            }
        },
    }
    Ok((blkdevcfg, blkdrive))
}

fn push_all_blk(cmd_parser: &mut CmdParser)
    ensures
        final(cmd_parser).name == old(cmd_parser).name,
        final(cmd_parser).spec_params() == all_pushed(old(cmd_parser).spec_params(), blk_keys()),
{
    let ghost start = cmd_parser.spec_params();
    cmd_parser.push("");
    cmd_parser.push("id");
    cmd_parser.push("bus");
    cmd_parser.push("addr");
    cmd_parser.push("multifunction");
    cmd_parser.push("drive");
    cmd_parser.push("bootindex");
    cmd_parser.push("serial");
    cmd_parser.push("iothread");
    cmd_parser.push("num-queues");
    cmd_parser.push("queue-size");
    proof {
        reveal_with_fuel(pushed_upto, 12);
        lemma_all_pushed(start, blk_keys(), 11);
    }
}

/// `all_pushed` unfolded over the first `n` keys.
pub open spec fn pushed_upto(ps: Seq<ParamView>, keys: Seq<Seq<char>>, n: int) -> Seq<ParamView>
    decreases n,
{
    if n <= 0 {
        ps
    } else {
        pushed(pushed_upto(ps, keys, n - 1), keys[n - 1])
    }
}

/// Making the keys known one by one is making all of them known.
pub proof fn lemma_all_pushed(ps: Seq<ParamView>, keys: Seq<Seq<char>>, n: int)
    requires
        0 <= n <= keys.len(),
    ensures
        all_pushed(ps, keys.subrange(0, n)) == pushed_upto(ps, keys, n),
        n == keys.len() ==> all_pushed(ps, keys) == pushed_upto(ps, keys, n),
    decreases n,
{
    if n > 0 {
        lemma_all_pushed(ps, keys, n - 1);
        assert(keys.subrange(0, n).drop_last() =~= keys.subrange(0, n - 1));
    }
    if n == keys.len() {
        assert(keys.subrange(0, n) =~= keys);
    }
}

/// The virtio block device that the option `drive_config` describes. The
/// drive that the device names is taken from the drives of `vm_config`.
/// `queues_auto` is the number of queues for a device that names none. The
/// file itself is not looked at.
pub fn parse_blk(vm_config: &mut VmConfig, drive_config: &str, queues_auto: Option<u16>) -> (r:
    Result<BlkDevConfig, ConfigError>)
    ensures
        is_blk(r, blk_parsed(old(vm_config).spec_drives(), drive_config@, queues_auto)),
        final(vm_config).spec_drives() == drives_after_blk(
            old(vm_config).spec_drives(),
            drive_config@,
            queues_auto,
        ),
        final(vm_config).same_but_drives(*old(vm_config)),
{
    let mut cmd_parser = CmdParser::new("virtio-blk");
    push_all_blk(&mut cmd_parser);
    match cmd_parser.parse(drive_config) {
        Err(e) => {
            return Err(e);
        },
        Ok(()) => {},
    }
    let (mut blkdevcfg, blkdrive) = match describe_blk(&cmd_parser, queues_auto) {
        Err(e) => {
            return Err(e);
        },
        Ok(described) => described,
    };
    let i: usize = vm_config.find_drive(blkdrive.as_str());
    if i >= vm_config.drives.len() {
        return Err(ConfigError::Other("No drive configured matched for blk device".to_owned()));
    }
    let ghost before = blkdevcfg@;
    let drive_arg: DriveConfig = vm_config.drives.remove(i);
    assert(vm_config.spec_drives() =~= old(vm_config).spec_drives().remove(i as int));
    assert(drive_arg@ == old(vm_config).spec_drives()[i as int]);
    blkdevcfg.path_on_host = drive_arg.path_on_host;
    blkdevcfg.read_only = drive_arg.read_only;
    blkdevcfg.direct = drive_arg.direct;
    blkdevcfg.iops = drive_arg.iops;
    blkdevcfg.aio = drive_arg.aio;
    assert(blkdevcfg@ == blk_with_drive(before, drive_arg@));
    match blkdevcfg.check() {
        Err(e) => Err(e),
        Ok(()) => Ok(blkdevcfg),
    }
}

/// The socket of the character device named `chardev`, which must be
/// backed by a socket that neither listens nor waits.
pub open spec fn socket_path_of(cs: Seq<ChardevConfigView>, chardev: Seq<char>) -> Result<
    Seq<char>,
    ConfigErrorView,
> {
    let i = chardev_index(cs, chardev, 0);
    if i >= cs.len() {
        Err(ConfigErrorView::Other("Chardev: "@ + chardev + " not found for character device"@))
    } else {
        match cs[i].backend {
            ChardevTypeView::Socket { path, server, nowait } => if server || nowait {
                Err(
                    ConfigErrorView::Other(
                        "Argument 'server' or 'nowait' is not need for chardev "@ + chardev,
                    ),
                )
            } else {
                Ok(path)
            },
            _ => Err(
                ConfigErrorView::Other("Chardev "@ + chardev + " backend should be socket type."@),
            ),
        }
    }
}

/// The character devices that are left once the socket of `chardev` was
/// asked for: the device is taken where it is found.
pub open spec fn chardevs_after(cs: Seq<ChardevConfigView>, chardev: Seq<char>) -> Seq<
    ChardevConfigView,
> {
    let i = chardev_index(cs, chardev, 0);
    if i >= cs.len() {
        cs
    } else {
        cs.remove(i)
    }
}

/// Whether nothing but the character devices differs between the two.
pub open spec fn same_but_chardevs(a: VmConfig, b: VmConfig) -> bool {
    a.drives == b.drives && a.pflashs == b.pflashs && a.devices == b.devices
}

/// Takes the character device named `chardev` from the configuration and
/// returns the path of its socket.
pub fn get_chardev_socket_path(chardev: &str, vm_config: &mut VmConfig) -> (r: Result<
    String,
    ConfigError,
>)
    ensures
        same_but_chardevs(*final(vm_config), *old(vm_config)),
        final(vm_config).spec_chardevs() == chardevs_after(old(vm_config).spec_chardevs(), chardev@),
        match socket_path_of(old(vm_config).spec_chardevs(), chardev@) {
            Ok(path) => r is Ok && r->Ok_0@ == path,
            Err(e) => r is Err && r->Err_0@ == e,
        },
{
    let mut i: usize = 0;
    proof {
        lemma_chardev_index(vm_config.spec_chardevs(), chardev@, 0);
    }
    while i < vm_config.chardev.len() && !text_eq(vm_config.chardev[i].id.as_str(), chardev)
        invariant
            i <= vm_config.chardev@.len(),
            *vm_config == *old(vm_config),
            chardev_index(vm_config.spec_chardevs(), chardev@, 0) == chardev_index(
                vm_config.spec_chardevs(),
                chardev@,
                i as int,
            ),
        decreases vm_config.chardev@.len() - i,
    {
        i = i + 1;
    }
    if i >= vm_config.chardev.len() {
        let mut message: String = joined("Chardev: ", chardev);
        message.append(" not found for character device");
        return Err(ConfigError::Other(message));
    }
    let char_dev: ChardevConfig = vm_config.chardev.remove(i);
    assert(vm_config.spec_chardevs() =~= old(vm_config).spec_chardevs().remove(i as int));
    assert(char_dev@ == old(vm_config).spec_chardevs()[i as int]);
    match char_dev.backend {
        ChardevType::Socket { path, server, nowait } => {
            if server || nowait {
                return Err(
                    ConfigError::Other(
                        joined("Argument 'server' or 'nowait' is not need for chardev ", chardev),
                    ),
                );
            }
            Ok(path)
        },
        _ => {
            let mut message: String = joined("Chardev ", chardev);
            message.append(" backend should be socket type.");
            Err(ConfigError::Other(message))
        },
    }
}

/// A vhost-user block device as its parameters describe it, before the
/// socket of its character device is looked up.
pub open spec fn vhost_user_blk_described(
    ps: Seq<ParamView>,
    name: Seq<char>,
    queues_auto: Option<u16>,
) -> Result<BlkDevConfigView, ConfigErrorView> {
    match pci_args_checked(ps, name) {
        Err(e) => Err(e),
        Ok(_) => if raw_value(ps, "chardev"@) is None {
            Err(ConfigErrorView::FieldIsMissing("chardev"@, "vhost-user-blk-pci"@))
        } else if raw_value(ps, "id"@) is None {
            Err(ConfigErrorView::Other("No id configured for blk device"@))
        } else {
            match number_given(ps, name, "num-queues"@, u16::MAX as nat) {
                Err(e) => Err(e),
                Ok(queues) => match number_given(ps, name, "queue-size"@, u16::MAX as nat) {
                    Err(e) => Err(e),
                    Ok(queue_size) => Ok(
                        BlkDevConfigView {
                            id: raw_value(ps, "id"@)->0,
                            queues: queues_of(queues, queues_auto),
                            chardev: raw_value(ps, "chardev"@),
                            queue_size: match queue_size {
                                Some(n) => n as u16,
                                None => DEFAULT_VIRTQUEUE_SIZE,
                            },
                            ..default_blk()
                        },
                    ),
                },
            }
        },
    }
}

/// The vhost-user block device that the option `s` describes, given the
/// character devices `cs`.
pub open spec fn vhost_user_blk_parsed(
    cs: Seq<ChardevConfigView>,
    s: Seq<char>,
    queues_auto: Option<u16>,
) -> Result<BlkDevConfigView, ConfigErrorView> {
    let name = "vhost-user-blk-pci"@;
    match parsed(all_pushed(Seq::<ParamView>::empty(), vhost_user_blk_keys()), name, s, true) {
        Err(e) => Err(e),
        Ok(ps) => match vhost_user_blk_described(ps, name, queues_auto) {
            Err(e) => Err(e),
            Ok(blk) => match socket_path_of(cs, blk.chardev->0) {
                Err(e) => Err(e),
                Ok(path) => {
                    let blk = BlkDevConfigView { socket_path: Some(path), ..blk };
                    match blk_checked(blk) {
                        Err(e) => Err(e),
                        Ok(_) => Ok(blk),
                    }
                },
            },
        },
    }
}

/// The character devices that are left once the option `s` was parsed.
pub open spec fn chardevs_after_blk(
    cs: Seq<ChardevConfigView>,
    s: Seq<char>,
    queues_auto: Option<u16>,
) -> Seq<ChardevConfigView> {
    let name = "vhost-user-blk-pci"@;
    match parsed(all_pushed(Seq::<ParamView>::empty(), vhost_user_blk_keys()), name, s, true) {
        Err(e) => cs,
        Ok(ps) => match vhost_user_blk_described(ps, name, queues_auto) {
            Err(e) => cs,
            Ok(blk) => chardevs_after(cs, blk.chardev->0),
        },
    }
}

fn describe_vhost_user_blk(cmd_parser: &CmdParser, queues_auto: Option<u16>) -> (r: Result<
    BlkDevConfig,
    ConfigError,
>)
    ensures
        is_blk(r, vhost_user_blk_described(cmd_parser.spec_params(), cmd_parser.name@, queues_auto)),
{
    match pci_args_check(cmd_parser) {
        Err(e) => {
            return Err(e);
        },
        Ok(()) => {},
    }
    let mut blkdevcfg = BlkDevConfig::default();
    match cmd_parser.get_value_string("chardev") {
        Some(chardev) => {
            blkdevcfg.chardev = Some(chardev);
        },
        None => {
            return Err(
                ConfigError::FieldIsMissing(
                    "chardev".to_owned(),
                    "vhost-user-blk-pci".to_owned(),
                ),
            );
        },
    }
    match cmd_parser.get_value_string("id") {
        Some(id) => {
            blkdevcfg.id = id;
        },
        None => {
            return Err(ConfigError::Other("No id configured for blk device".to_owned()));
        },
    }
    match cmd_parser.get_value_number("num-queues", 65535) {
        Err(e) => {
            return Err(e);
        },
        Ok(queues) => {
            match narrow_u16(queues) {
                Some(queues) => {
                    blkdevcfg.queues = queues;
                },
                None => match queues_auto {
                    Some(queues) => {
                        blkdevcfg.queues = queues;
                    },
                    None => {},
                },
            }
        },
    }
    match cmd_parser.get_value_number("queue-size", 65535) {
        Err(e) => {
            return Err(e);
        },
        Ok(queue_size) => {
            match narrow_u16(queue_size) {
                Some(queue_size) => {
                    blkdevcfg.queue_size = queue_size;
                },
                None => {},
            }
        },
    }
    Ok(blkdevcfg)
}

/// The vhost-user block device that the option `drive_config` describes.
/// Its character device is taken from those of `vm_config`.
pub fn parse_vhost_user_blk_pci(
    vm_config: &mut VmConfig,
    drive_config: &str,
    queues_auto: Option<u16>,
) -> (r: Result<BlkDevConfig, ConfigError>)
    ensures
        is_blk(r, vhost_user_blk_parsed(old(vm_config).spec_chardevs(), drive_config@, queues_auto)),
        final(vm_config).spec_chardevs() == chardevs_after_blk(
            old(vm_config).spec_chardevs(),
            drive_config@,
            queues_auto,
        ),
        same_but_chardevs(*final(vm_config), *old(vm_config)),
{
    let mut cmd_parser = CmdParser::new("vhost-user-blk-pci");
    let ghost start = cmd_parser.spec_params();
    cmd_parser.push("");
    cmd_parser.push("id");
    cmd_parser.push("bus");
    cmd_parser.push("addr");
    cmd_parser.push("num-queues");
    cmd_parser.push("chardev");
    cmd_parser.push("queue-size");
    proof {
        reveal_with_fuel(pushed_upto, 8);
        lemma_all_pushed(start, vhost_user_blk_keys(), 7);
    }
    match cmd_parser.parse(drive_config) {
        Err(e) => {
            return Err(e);
        },
        Ok(()) => {},
    }
    let mut blkdevcfg: BlkDevConfig = match describe_vhost_user_blk(&cmd_parser, queues_auto) {
        Err(e) => {
            return Err(e);
        },
        Ok(described) => described,
    };
    let ghost before = blkdevcfg@;
    let chardev: String = match &blkdevcfg.chardev {
        Some(chardev) => chardev.clone(),
        None => {
            return Err(
                ConfigError::FieldIsMissing(
                    "chardev".to_owned(),
                    "vhost-user-blk-pci".to_owned(),
                ),
            );
        },
    };
    match get_chardev_socket_path(chardev.as_str(), vm_config) {
        Err(e) => {
            return Err(e);
        },
        Ok(path) => {
            blkdevcfg.socket_path = Some(path);
        },
    }
    assert(blkdevcfg@ == (BlkDevConfigView { socket_path: blkdevcfg@.socket_path, ..before }));
    match blkdevcfg.check() {
        Err(e) => Err(e),
        Ok(()) => Ok(blkdevcfg),
    }
}

/// The flash device that the option `s` describes. Only the raw format is
/// supported, file and unit are needed, and the device must be within its
/// limits.
pub open spec fn pflash_parsed(s: Seq<char>) -> Result<PFlashConfigView, ConfigErrorView> {
    let name = "pflash"@;
    match parsed(all_pushed(Seq::<ParamView>::empty(), pflash_keys()), name, s, true) {
        Err(e) => Err(e),
        Ok(ps) => {
            let format = raw_value(ps, "format"@);
            let file = raw_value(ps, "file"@);
            if format is Some && format->0 != "raw"@ {
                Err(ConfigErrorView::Other("Only 'raw' type of pflash is supported"@))
            } else if file is None {
                Err(ConfigErrorView::FieldIsMissing("file"@, "pflash"@))
            } else {
                match switch_given(ps, name, "readonly"@) {
                    Err(e) => Err(e),
                    Ok(read_only) => match number_given(ps, name, "unit"@, u64::MAX as nat) {
                        Err(e) => Err(e),
                        Ok(None) => Err(ConfigErrorView::FieldIsMissing("unit"@, "pflash"@)),
                        Ok(Some(unit)) => {
                            let pflash = PFlashConfigView {
                                path_on_host: file->0,
                                read_only: match read_only {
                                    Some(r) => r,
                                    None => false,
                                },
                                unit: unit as u64 as usize,
                            };
                            match pflash_checked(pflash) {
                                Err(e) => Err(e),
                                Ok(_) => Ok(pflash),
                            }
                        },
                    },
                }
            }
        },
    }
}

/// The drive that the option `s` describes.
pub open spec fn block_drive_parsed(s: Seq<char>) -> Result<DriveConfigView, ConfigErrorView> {
    let name = "drive"@;
    match parsed(all_pushed(Seq::<ParamView>::empty(), drive_keys()), name, s, true) {
        Err(e) => Err(e),
        Ok(ps) => drive_parsed(ps, name),
    }
}

/// What the option `s` configures: the text behind `if=`, or `none`.
pub open spec fn drive_kind(s: Seq<char>) -> Result<Seq<char>, ConfigErrorView> {
    match parsed(pushed(Seq::<ParamView>::empty(), "if"@), "drive"@, s, false) {
        Err(e) => Err(e),
        Ok(ps) => match raw_value(ps, "if"@) {
            Some(kind) => Ok(kind),
            None => Ok("none"@),
        },
    }
}

/// Whether `after` is `before` with the drive of the option `s` added.
pub open spec fn block_drive_added(
    before: VmConfig,
    s: Seq<char>,
    after: VmConfig,
    r: Result<(), ConfigError>,
) -> bool {
    &&& after.same_but_drives(before)
    &&& match block_drive_parsed(s) {
        Err(e) => r is Err && r->Err_0@ == e && after.drives@ == before.drives@,
        Ok(d) => if has_drive(before.spec_drives(), d.id) {
            &&& r is Err
            &&& r->Err_0@ == ConfigErrorView::Other("Drive "@ + d.id + " has been added"@)
            &&& after.drives@ == before.drives@
        } else {
            r is Ok && after.spec_drives() == before.spec_drives().push(d)
        },
    }
}

/// Whether `after` is `before` with the flash device of the option `s`
/// added.
pub open spec fn pflash_added(
    before: VmConfig,
    s: Seq<char>,
    after: VmConfig,
    r: Result<(), ConfigError>,
) -> bool {
    &&& after.drives == before.drives
    &&& after.devices == before.devices
    &&& after.chardev == before.chardev
    &&& match pflash_parsed(s) {
        Err(e) => r is Err && r->Err_0@ == e && after.pflashs == before.pflashs,
        Ok(p) => if unit_index(before.spec_pflashs(), p.unit, 0) < before.spec_pflashs().len() {
            &&& r is Err
            &&& r->Err_0@ == ConfigErrorView::IdRepeat("pflash"@, decimal(p.unit as nat))
            &&& after.pflashs == before.pflashs
        } else {
            r is Ok && after.pflashs is Some && after.spec_pflashs()
                == before.spec_pflashs().push(p)
        },
    }
}

impl VmConfig {
    /// Adds what the option `drive_config` of `-drive` describes: a drive,
    /// or a flash device where the option says `if=pflash`.
    pub fn add_drive(&mut self, drive_config: &str) -> (r: Result<(), ConfigError>)
        ensures
            match drive_kind(drive_config@) {
                Err(e) => r is Err && r->Err_0@ == e && *final(self) == *old(self),
                Ok(kind) => if kind == "none"@ {
                    block_drive_added(*old(self), drive_config@, *final(self), r)
                } else if kind == "pflash"@ {
                    pflash_added(*old(self), drive_config@, *final(self), r)
                } else {
                    &&& r is Err
                    &&& r->Err_0@ == ConfigErrorView::Other("Unknow 'if' argument: "@ + kind)
                    &&& *final(self) == *old(self)
                },
            },
    {
        let mut cmd_parser = CmdParser::new("drive");
        cmd_parser.push("if");
        match cmd_parser.get_parameters(drive_config) {
            Err(e) => {
                return Err(e);
            },
            Ok(()) => {},
        }
        let drive_type: String = match cmd_parser.get_value_string("if") {
            Some(kind) => kind,
            None => "none".to_owned(),
        };
        if text_eq(drive_type.as_str(), "none") {
            self.add_block_drive(drive_config)
        } else if text_eq(drive_type.as_str(), "pflash") {
            self.add_pflash(drive_config)
        } else {
            Err(ConfigError::Other(joined("Unknow 'if' argument: ", drive_type.as_str())))
        }
    }

    /// Adds the drive that the option `block_config` describes.
    pub fn add_block_drive(&mut self, block_config: &str) -> (r: Result<(), ConfigError>)
        ensures
            block_drive_added(*old(self), block_config@, *final(self), r),
    {
        let mut cmd_parser = CmdParser::new("drive");
        let ghost start = cmd_parser.spec_params();
        cmd_parser.push("file");
        cmd_parser.push("id");
        cmd_parser.push("readonly");
        cmd_parser.push("direct");
        cmd_parser.push("format");
        cmd_parser.push("if");
        cmd_parser.push("throttling.iops-total");
        cmd_parser.push("aio");
        proof {
            reveal_with_fuel(pushed_upto, 9);
            lemma_all_pushed(start, drive_keys(), 8);
        }
        match cmd_parser.parse(block_config) {
            Err(e) => {
                return Err(e);
            },
            Ok(()) => {},
        }
        let drive_cfg: DriveConfig = match parse_drive(cmd_parser) {
            Err(e) => {
                return Err(e);
            },
            Ok(drive) => drive,
        };
        let r = self.add_drive_with_config(drive_cfg);
        proof {
            if r is Ok {
                assert(self.spec_drives() =~= old(self).spec_drives().push(drive_cfg@));
            }
        }
        r
    }

    /// Adds the flash device that the option `pflash_config` describes.
    pub fn add_pflash(&mut self, pflash_config: &str) -> (r: Result<(), ConfigError>)
        ensures
            pflash_added(*old(self), pflash_config@, *final(self), r),
    {
        let mut cmd_parser = CmdParser::new("pflash");
        let ghost start = cmd_parser.spec_params();
        cmd_parser.push("if");
        cmd_parser.push("file");
        cmd_parser.push("format");
        cmd_parser.push("readonly");
        cmd_parser.push("unit");
        proof {
            reveal_with_fuel(pushed_upto, 6);
            lemma_all_pushed(start, pflash_keys(), 5);
        }
        match cmd_parser.parse(pflash_config) {
            Err(e) => {
                return Err(e);
            },
            Ok(()) => {},
        }
        let mut pflash = PFlashConfig::default();
        match cmd_parser.get_value_string("format") {
            Some(format) => {
                if !text_eq(format.as_str(), "raw") {
                    return Err(
                        ConfigError::Other("Only 'raw' type of pflash is supported".to_owned()),
                    );
                }
            },
            None => {},
        }
        match cmd_parser.get_value_string("file") {
            Some(drive_path) => {
                pflash.path_on_host = drive_path;
            },
            None => {
                return Err(ConfigError::FieldIsMissing("file".to_owned(), "pflash".to_owned()));
            },
        }
        match cmd_parser.get_value_switch("readonly") {
            Err(e) => {
                return Err(e);
            },
            Ok(Some(read_only)) => {
                pflash.read_only = read_only;
            },
            Ok(None) => {},
        }
        match cmd_parser.get_value_number("unit", u64::MAX) {
            Err(e) => {
                return Err(e);
            },
            Ok(Some(unit_id)) => {
                pflash.unit = #[verifier::truncate]
                (unit_id as usize);
            },
            Ok(None) => {
                return Err(ConfigError::FieldIsMissing("unit".to_owned(), "pflash".to_owned()));
            },
        }
        match pflash.check() {
            Err(e) => {
                return Err(e);
            },
            Ok(()) => {},
        }
        let ghost added = pflash@;
        let r = self.add_flashdev(pflash);
        proof {
            if r is Ok {
                assert(self.spec_pflashs() =~= old(self).spec_pflashs().push(added));
            }
        }
        r
    }
}

} // verus!
