//! Drives, block devices and flash devices of a configuration, and the
//! limits that they are held to.

use crate::config::error::{ConfigError, ConfigErrorView};
use crate::config::text::{byte_len, decimal, decimal_text, joined, text_eq};
use vstd::prelude::*;
use vstd::string::StringSliceAdditionalSpecFns;

verus! {

/// Longest identifier in bytes.
pub const MAX_STRING_LENGTH: usize = 255;

/// Longest path in bytes.
pub const MAX_PATH_LENGTH: usize = 4096;

/// Largest number of queues of a virtio device.
pub const MAX_VIRTIO_QUEUE: usize = 32;

/// Size of a virtqueue unless the configuration says otherwise.
pub const DEFAULT_VIRTQUEUE_SIZE: u16 = 256;

/// Longest serial number in bytes.
pub const MAX_SERIAL_NUM: usize = 20;

/// Largest number of I/O operations per second that a drive can be held to.
pub const MAX_IOPS: u64 = 1_000_000;

/// Number of flash units.
pub const MAX_UNIT_ID: usize = 2;

/// A virtqueue of a block device must be larger than this.
pub const MIN_QUEUE_SIZE_BLK: u16 = 2;

/// Largest virtqueue of a block device.
pub const MAX_QUEUE_SIZE_BLK: u16 = 1024;

/// File type bits of a regular file in the mode of a file.
pub const S_IFREG: u32 = 0x8000;

/// File type bits of a block device in the mode of a file.
pub const S_IFBLK: u32 = 0x6000;

/// The text of an optional text.
pub open spec fn text_of(s: Option<String>) -> Option<Seq<char>> {
    match s {
        Some(s) => Some(s@),
        None => None,
    }
}

/// Whether `r` is the outcome `want`, the texts of an error compared as
/// sequences.
pub open spec fn is_checked(r: Result<(), ConfigError>, want: Result<(), ConfigErrorView>) -> bool {
    match want {
        Ok(_) => r is Ok,
        Err(e) => r is Err && r->Err_0@ == e,
    }
}

/// A drive: the file behind a block device.
#[derive(Clone, Debug)]
pub struct DriveConfig {
    pub id: String,
    pub path_on_host: String,
    pub read_only: bool,
    pub direct: bool,
    pub iops: Option<u64>,
    pub aio: Option<String>,
}

/// A `DriveConfig` with its texts as sequences.
pub struct DriveConfigView {
    pub id: Seq<char>,
    pub path_on_host: Seq<char>,
    pub read_only: bool,
    pub direct: bool,
    pub iops: Option<u64>,
    pub aio: Option<Seq<char>>,
}

impl View for DriveConfig {
    type V = DriveConfigView;

    open spec fn view(&self) -> DriveConfigView {
        DriveConfigView {
            id: self.id@,
            path_on_host: self.path_on_host@,
            read_only: self.read_only,
            direct: self.direct,
            iops: self.iops,
            aio: text_of(self.aio),
        }
    }
}

/// A drive without identifier and path, with direct and native
/// asynchronous I/O.
pub open spec fn default_drive() -> DriveConfigView {
    DriveConfigView {
        id: Seq::<char>::empty(),
        path_on_host: Seq::<char>::empty(),
        read_only: false,
        direct: true,
        iops: None,
        aio: Some("native"@),
    }
}

impl Default for DriveConfig {
    fn default() -> (r: DriveConfig)
        ensures
            r@ == default_drive(),
    {
        DriveConfig {
            id: String::new(),
            path_on_host: String::new(),
            read_only: false,
            direct: true,
            iops: None,
            aio: Some("native".to_owned()),
        }
    }
}

/// Whether a drive is within its limits: identifier and path are not too
/// long, the I/O operations per second are not too many, native
/// asynchronous I/O goes with direct I/O, and direct I/O goes with
/// asynchronous I/O.
pub open spec fn drive_checked(d: DriveConfigView) -> Result<(), ConfigErrorView> {
    if byte_len(d.id) > MAX_STRING_LENGTH {
        Err(ConfigErrorView::StringLengthTooLong("Drive id"@, MAX_STRING_LENGTH))
    } else if byte_len(d.path_on_host) > MAX_PATH_LENGTH {
        Err(ConfigErrorView::StringLengthTooLong("Drive device path"@, MAX_PATH_LENGTH))
    } else if d.iops is Some && d.iops->0 > MAX_IOPS {
        Err(ConfigErrorView::IllegalValue("iops of block device"@, 0, true, MAX_IOPS, true))
    } else if d.aio == Some("native"@) && !d.direct {
        Err(
            ConfigErrorView::InvalidParam(
                "aio"@,
                "native aio type should be used with \"direct\" on"@,
            ),
        )
    } else if d.aio is None && d.direct {
        Err(
            ConfigErrorView::InvalidParam(
                "aio"@,
                "low performance expected when use sync io with \"direct\" on"@,
            ),
        )
    } else {
        Ok(())
    }
}

/// Whether the file at `path` can back a drive, given what the file system
/// says of it: `st_mode` is the mode of the file, or why its metadata
/// cannot be read, and `file_name_len` the length in bytes of the last
/// part of the path, if the path has one. The file must be a regular file
/// or a block device, and its name no longer than an identifier.
pub open spec fn path_checked(
    path: Seq<char>,
    st_mode: Result<u32, Seq<char>>,
    file_name_len: Option<usize>,
) -> Result<(), ConfigErrorView> {
    match st_mode {
        Err(why) => Err(ConfigErrorView::NoMetadata(path, why)),
        Ok(mode) => if (mode & S_IFREG) != S_IFREG && (mode & S_IFBLK) != S_IFBLK {
            Err(ConfigErrorView::UnRegularFileOrBlk(path))
        } else {
            match file_name_len {
                Some(n) => if n > MAX_STRING_LENGTH {
                    Err(ConfigErrorView::StringLengthTooLong("File name"@, MAX_STRING_LENGTH))
                } else {
                    Ok(())
                },
                None => Err(ConfigErrorView::InvalidParam(path, "file"@)),
            }
        },
    }
}

/// Whether the optional text `s` is `lit`.
pub fn option_is(s: &Option<String>, lit: &str) -> (r: bool)
    ensures
        r == (text_of(*s) == Some(lit@)),
{
    match s {
        Some(s) => text_eq(s.as_str(), lit),
        None => false,
    }
}

impl DriveConfig {
    /// Whether the file of the drive can back it, given what the file
    /// system says of it: `st_mode` is the mode of the file, or why its
    /// metadata cannot be read, and `file_name_len` the length in bytes of
    /// the last part of the path, if the path has one.
    pub fn check_path(&self, st_mode: Result<u32, String>, file_name_len: Option<usize>) -> (r:
        Result<(), ConfigError>)
        ensures
            is_checked(
                r,
                path_checked(
                    self.path_on_host@,
                    match st_mode {
                        Ok(mode) => Ok(mode),
                        Err(why) => Err(why@),
                    },
                    file_name_len,
                ),
            ),
    {
        match st_mode {
            Err(why) => {
                return Err(ConfigError::NoMetadata(self.path_on_host.clone(), why));
            },
            Ok(mode) => {
                if (mode & S_IFREG) != S_IFREG && (mode & S_IFBLK) != S_IFBLK {
                    return Err(ConfigError::UnRegularFileOrBlk(self.path_on_host.clone()));
                }
            },
        }
        match file_name_len {
            Some(n) => {
                if n > MAX_STRING_LENGTH {
                    return Err(
                        ConfigError::StringLengthTooLong("File name".to_owned(), MAX_STRING_LENGTH),
                    );
                }
            },
            None => {
                return Err(ConfigError::InvalidParam(self.path_on_host.clone(), "file".to_owned()));
            },
        }
        Ok(())
    }

    /// Whether the drive is within its limits. The file itself is not
    /// looked at.
    pub fn check(&self) -> (r: Result<(), ConfigError>)
        ensures
            is_checked(r, drive_checked(self@)),
    {
        if self.id.as_str().as_bytes().len() > MAX_STRING_LENGTH {
            return Err(ConfigError::StringLengthTooLong("Drive id".to_owned(), MAX_STRING_LENGTH));
        }
        if self.path_on_host.as_str().as_bytes().len() > MAX_PATH_LENGTH {
            return Err(
                ConfigError::StringLengthTooLong("Drive device path".to_owned(), MAX_PATH_LENGTH),
            );
        }
        if self.iops.is_some() && self.iops.unwrap() > MAX_IOPS {
            return Err(
                ConfigError::IllegalValue(
                    "iops of block device".to_owned(),
                    0,
                    true,
                    MAX_IOPS,
                    true,
                ),
            );
        }
        if option_is(&self.aio, "native") && !self.direct {
            return Err(
                ConfigError::InvalidParam(
                    "aio".to_owned(),
                    "native aio type should be used with \"direct\" on".to_owned(),
                ),
            );
        }
        if self.aio.is_none() && self.direct {
            return Err(
                ConfigError::InvalidParam(
                    "aio".to_owned(),
                    "low performance expected when use sync io with \"direct\" on".to_owned(),
                ),
            );
        }
        Ok(())
    }
}

/// A block device.
#[derive(Clone, Debug)]
pub struct BlkDevConfig {
    pub id: String,
    pub path_on_host: String,
    pub read_only: bool,
    pub direct: bool,
    pub serial_num: Option<String>,
    pub iothread: Option<String>,
    pub iops: Option<u64>,
    pub queues: u16,
    pub boot_index: Option<u8>,
    pub chardev: Option<String>,
    pub socket_path: Option<String>,
    pub aio: Option<String>,
    pub queue_size: u16,
}

/// A `BlkDevConfig` with its texts as sequences.
pub struct BlkDevConfigView {
    pub id: Seq<char>,
    pub path_on_host: Seq<char>,
    pub read_only: bool,
    pub direct: bool,
    pub serial_num: Option<Seq<char>>,
    pub iothread: Option<Seq<char>>,
    pub iops: Option<u64>,
    pub queues: u16,
    pub boot_index: Option<u8>,
    pub chardev: Option<Seq<char>>,
    pub socket_path: Option<Seq<char>>,
    pub aio: Option<Seq<char>>,
    pub queue_size: u16,
}

impl View for BlkDevConfig {
    type V = BlkDevConfigView;

    open spec fn view(&self) -> BlkDevConfigView {
        BlkDevConfigView {
            id: self.id@,
            path_on_host: self.path_on_host@,
            read_only: self.read_only,
            direct: self.direct,
            serial_num: text_of(self.serial_num),
            iothread: text_of(self.iothread),
            iops: self.iops,
            queues: self.queues,
            boot_index: self.boot_index,
            chardev: text_of(self.chardev),
            socket_path: text_of(self.socket_path),
            aio: text_of(self.aio),
            queue_size: self.queue_size,
        }
    }
}

/// A block device without identifier and path, with one queue of the
/// default size and direct, native asynchronous I/O.
pub open spec fn default_blk() -> BlkDevConfigView {
    BlkDevConfigView {
        id: Seq::<char>::empty(),
        path_on_host: Seq::<char>::empty(),
        read_only: false,
        direct: true,
        serial_num: None,
        iothread: None,
        iops: None,
        queues: 1,
        boot_index: None,
        chardev: None,
        socket_path: None,
        aio: Some("native"@),
        queue_size: DEFAULT_VIRTQUEUE_SIZE,
    }
}

impl Default for BlkDevConfig {
    fn default() -> (r: BlkDevConfig)
        ensures
            r@ == default_blk(),
    {
        BlkDevConfig {
            id: String::new(),
            path_on_host: String::new(),
            read_only: false,
            direct: true,
            serial_num: None,
            iothread: None,
            iops: None,
            queues: 1,
            boot_index: None,
            chardev: None,
            socket_path: None,
            aio: Some("native".to_owned()),
            queue_size: DEFAULT_VIRTQUEUE_SIZE,
        }
    }
}

/// The drive of a block device, as far as the limits of a drive go.
pub open spec fn drive_of_blk(b: BlkDevConfigView) -> DriveConfigView {
    DriveConfigView {
        id: Seq::<char>::empty(),
        path_on_host: b.path_on_host,
        read_only: false,
        direct: b.direct,
        iops: b.iops,
        aio: b.aio,
    }
}

/// Whether a block device is within its limits: identifier, serial number
/// and thread name are not too long, the queues are between 1 and 32, the
/// queue size is a power of two above 2 and up to 1024, and the drive is
/// within the limits of a drive.
pub open spec fn blk_checked(b: BlkDevConfigView) -> Result<(), ConfigErrorView> {
    if byte_len(b.id) > MAX_STRING_LENGTH {
        Err(ConfigErrorView::StringLengthTooLong("drive device id"@, MAX_STRING_LENGTH))
    } else if b.serial_num is Some && byte_len(b.serial_num->0) > MAX_SERIAL_NUM {
        Err(ConfigErrorView::StringLengthTooLong("drive serial number"@, MAX_SERIAL_NUM))
    } else if b.iothread is Some && byte_len(b.iothread->0) > MAX_STRING_LENGTH {
        Err(ConfigErrorView::StringLengthTooLong("iothread name"@, MAX_STRING_LENGTH))
    } else if b.queues < 1 || b.queues > MAX_VIRTIO_QUEUE {
        Err(
            ConfigErrorView::IllegalValue(
                "number queues of block device"@,
                1,
                true,
                MAX_VIRTIO_QUEUE as u64,
                true,
            ),
        )
    } else if b.queue_size <= MIN_QUEUE_SIZE_BLK || b.queue_size > MAX_QUEUE_SIZE_BLK {
        Err(
            ConfigErrorView::IllegalValue(
                "queue size of block device"@,
                MIN_QUEUE_SIZE_BLK as u64,
                false,
                MAX_QUEUE_SIZE_BLK as u64,
                true,
            ),
        )
    } else if b.queue_size & ((b.queue_size - 1) as u16) != 0 {
        Err(ConfigErrorView::Other("Queue size should be power of 2!"@))
    } else {
        drive_checked(drive_of_blk(b))
    }
}

impl BlkDevConfig {
    /// Whether the block device is within its limits. The file itself is
    /// not looked at.
    pub fn check(&self) -> (r: Result<(), ConfigError>)
        ensures
            is_checked(r, blk_checked(self@)),
    {
        if self.id.as_str().as_bytes().len() > MAX_STRING_LENGTH {
            return Err(
                ConfigError::StringLengthTooLong("drive device id".to_owned(), MAX_STRING_LENGTH),
            );
        }
        match &self.serial_num {
            Some(serial) => {
                if serial.as_str().as_bytes().len() > MAX_SERIAL_NUM {
                    return Err(
                        ConfigError::StringLengthTooLong(
                            "drive serial number".to_owned(),
                            MAX_SERIAL_NUM,
                        ),
                    );
                }
            },
            None => {},
        }
        match &self.iothread {
            Some(iothread) => {
                if iothread.as_str().as_bytes().len() > MAX_STRING_LENGTH {
                    return Err(
                        ConfigError::StringLengthTooLong(
                            "iothread name".to_owned(),
                            MAX_STRING_LENGTH,
                        ),
                    );
                }
            },
            None => {},
        }
        if self.queues < 1 || self.queues > MAX_VIRTIO_QUEUE as u16 {
            return Err(
                ConfigError::IllegalValue(
                    "number queues of block device".to_owned(),
                    1,
                    true,
                    MAX_VIRTIO_QUEUE as u64,
                    true,
                ),
            );
        }
        if self.queue_size <= MIN_QUEUE_SIZE_BLK || self.queue_size > MAX_QUEUE_SIZE_BLK {
            return Err(
                ConfigError::IllegalValue(
                    "queue size of block device".to_owned(),
                    MIN_QUEUE_SIZE_BLK as u64,
                    false,
                    MAX_QUEUE_SIZE_BLK as u64,
                    true,
                ),
            );
        }
        if self.queue_size & (self.queue_size - 1) != 0 {
            return Err(ConfigError::Other("Queue size should be power of 2!".to_owned()));
        }
        let aio: Option<String> = match &self.aio {
            Some(a) => Some(a.clone()),
            None => None,
        };
        let fake_drive = DriveConfig {
            id: String::new(),
            path_on_host: self.path_on_host.clone(),
            read_only: false,
            direct: self.direct,
            iops: self.iops,
            aio,
        };
        assert(fake_drive@ == drive_of_blk(self@));
        fake_drive.check()
    }
}

/// What is booted from, in its place in the boot order.
#[derive(Clone, Debug)]
pub struct BootIndexInfo {
    pub boot_index: u8,
    pub id: String,
    pub dev_path: String,
}

/// A flash device.
#[derive(Clone, Debug)]
pub struct PFlashConfig {
    pub path_on_host: String,
    pub read_only: bool,
    pub unit: usize,
}

/// A `PFlashConfig` with its text as a sequence.
pub struct PFlashConfigView {
    pub path_on_host: Seq<char>,
    pub read_only: bool,
    pub unit: usize,
}

impl View for PFlashConfig {
    type V = PFlashConfigView;

    open spec fn view(&self) -> PFlashConfigView {
        PFlashConfigView {
            path_on_host: self.path_on_host@,
            read_only: self.read_only,
            unit: self.unit,
        }
    }
}

impl Default for PFlashConfig {
    fn default() -> (r: PFlashConfig)
        ensures
            r@ == (PFlashConfigView {
                path_on_host: Seq::<char>::empty(),
                read_only: false,
                unit: 0,
            }),
    {
        PFlashConfig { path_on_host: String::new(), read_only: false, unit: 0 }
    }
}

/// Whether a flash device is within its limits: the path is not too long,
/// and the unit is 0 or 1.
pub open spec fn pflash_checked(p: PFlashConfigView) -> Result<(), ConfigErrorView> {
    if byte_len(p.path_on_host) > MAX_PATH_LENGTH {
        Err(ConfigErrorView::StringLengthTooLong("drive device path"@, MAX_PATH_LENGTH))
    } else if p.unit >= MAX_UNIT_ID {
        Err(ConfigErrorView::UnitIdError("PFlash unit id"@, p.unit, (MAX_UNIT_ID - 1) as usize))
    } else {
        Ok(())
    }
}

impl PFlashConfig {
    /// Whether the flash device is within its limits.
    pub fn check(&self) -> (r: Result<(), ConfigError>)
        ensures
            is_checked(r, pflash_checked(self@)),
    {
        if self.path_on_host.as_str().as_bytes().len() > MAX_PATH_LENGTH {
            return Err(
                ConfigError::StringLengthTooLong("drive device path".to_owned(), MAX_PATH_LENGTH),
            );
        }
        if self.unit >= MAX_UNIT_ID {
            return Err(
                ConfigError::UnitIdError("PFlash unit id".to_owned(), self.unit, MAX_UNIT_ID - 1),
            );
        }
        Ok(())
    }
}

/// How a character device is backed.
#[derive(Clone, Debug)]
pub enum ChardevType {
    Stdio,
    Pty,
    Socket { path: String, server: bool, nowait: bool },
    File(String),
}

/// A character device.
#[derive(Clone, Debug)]
pub struct ChardevConfig {
    pub id: String,
    pub backend: ChardevType,
}

/// A `ChardevType` with its texts as sequences.
pub enum ChardevTypeView {
    Stdio,
    Pty,
    Socket { path: Seq<char>, server: bool, nowait: bool },
    File(Seq<char>),
}

/// A `ChardevConfig` with its texts as sequences.
pub struct ChardevConfigView {
    pub id: Seq<char>,
    pub backend: ChardevTypeView,
}

impl View for ChardevConfig {
    type V = ChardevConfigView;

    open spec fn view(&self) -> ChardevConfigView {
        ChardevConfigView {
            id: self.id@,
            backend: match self.backend {
                ChardevType::Stdio => ChardevTypeView::Stdio,
                ChardevType::Pty => ChardevTypeView::Pty,
                ChardevType::Socket { path, server, nowait } => ChardevTypeView::Socket {
                    path: path@,
                    server,
                    nowait,
                },
                ChardevType::File(path) => ChardevTypeView::File(path@),
            },
        }
    }
}

/// The character devices with their texts as sequences.
pub open spec fn chardev_views(chardevs: Seq<ChardevConfig>) -> Seq<ChardevConfigView> {
    chardevs.map_values(|c: ChardevConfig| c@)
}

/// Index of the first character device named `id` at or behind `from`, or
/// the number of character devices where there is none.
pub open spec fn chardev_index(cs: Seq<ChardevConfigView>, id: Seq<char>, from: int) -> int
    decreases cs.len() - from,
{
    if from >= cs.len() {
        cs.len() as int
    } else if cs[from].id == id {
        from
    } else {
        chardev_index(cs, id, from + 1)
    }
}

/// What `chardev_index` finds lies between `from` and the end.
pub proof fn lemma_chardev_index(cs: Seq<ChardevConfigView>, id: Seq<char>, from: int)
    requires
        0 <= from <= cs.len(),
    ensures
        from <= chardev_index(cs, id, from) <= cs.len(),
    decreases cs.len() - from,
{
    if from < cs.len() && cs[from].id != id {
        lemma_chardev_index(cs, id, from + 1);
    }
}

/// A device by its driver and its option text.
#[derive(Clone, Debug)]
pub struct DeviceEntry {
    pub driver: String,
    pub options: String,
}

/// The configuration of a machine, as far as drives and block devices go.
#[derive(Clone, Debug)]
pub struct VmConfig {
    /// The drives, none with the identifier of another.
    pub drives: Vec<DriveConfig>,
    /// The flash devices.
    pub pflashs: Option<Vec<PFlashConfig>>,
    /// The devices in the order in which they were given.
    pub devices: Vec<DeviceEntry>,
    /// The character devices.
    pub chardev: Vec<ChardevConfig>,
}

/// The drives with their texts as sequences.
pub open spec fn drive_views(drives: Seq<DriveConfig>) -> Seq<DriveConfigView> {
    drives.map_values(|d: DriveConfig| d@)
}

/// The flash devices with their texts as sequences.
pub open spec fn pflash_views(pflashs: Seq<PFlashConfig>) -> Seq<PFlashConfigView> {
    pflashs.map_values(|p: PFlashConfig| p@)
}

/// Index of the first drive named `id` at or behind `from`, or the number
/// of drives where there is none.
pub open spec fn drive_index(ds: Seq<DriveConfigView>, id: Seq<char>, from: int) -> int
    decreases ds.len() - from,
{
    if from >= ds.len() {
        ds.len() as int
    } else if ds[from].id == id {
        from
    } else {
        drive_index(ds, id, from + 1)
    }
}

/// What `drive_index` finds lies between `from` and the end and is named
/// `id` unless it is the end, and no drive before it is.
pub proof fn lemma_drive_index(ds: Seq<DriveConfigView>, id: Seq<char>, from: int)
    requires
        0 <= from <= ds.len(),
    ensures
        from <= drive_index(ds, id, from) <= ds.len(),
        drive_index(ds, id, from) < ds.len() ==> ds[drive_index(ds, id, from)].id == id,
        forall|i: int| from <= i < drive_index(ds, id, from) ==> ds[i].id != id,
    decreases ds.len() - from,
{
    if from < ds.len() && ds[from].id != id {
        lemma_drive_index(ds, id, from + 1);
    }
}

/// Whether a drive named `id` is among `ds`.
pub open spec fn has_drive(ds: Seq<DriveConfigView>, id: Seq<char>) -> bool {
    drive_index(ds, id, 0) < ds.len()
}

/// Index of the first flash device of unit `unit` at or behind `from`, or
/// the number of flash devices where there is none.
pub open spec fn unit_index(ps: Seq<PFlashConfigView>, unit: usize, from: int) -> int
    decreases ps.len() - from,
{
    if from >= ps.len() {
        ps.len() as int
    } else if ps[from].unit == unit {
        from
    } else {
        unit_index(ps, unit, from + 1)
    }
}

/// What `unit_index` finds lies between `from` and the end and is of unit
/// `unit` unless it is the end.
pub proof fn lemma_unit_index(ps: Seq<PFlashConfigView>, unit: usize, from: int)
    requires
        0 <= from <= ps.len(),
    ensures
        from <= unit_index(ps, unit, from) <= ps.len(),
        unit_index(ps, unit, from) < ps.len() ==> ps[unit_index(ps, unit, from)].unit == unit,
    decreases ps.len() - from,
{
    if from < ps.len() && ps[from].unit != unit {
        lemma_unit_index(ps, unit, from + 1);
    }
}

impl Default for VmConfig {
    fn default() -> (r: VmConfig)
        ensures
            r.drives@.len() == 0,
            r.pflashs is None,
            r.devices@.len() == 0,
            r.chardev@.len() == 0,
    {
        VmConfig { drives: Vec::new(), pflashs: None, devices: Vec::new(), chardev: Vec::new() }
    }
}

impl VmConfig {
    /// The drives with their texts as sequences.
    pub open spec fn spec_drives(&self) -> Seq<DriveConfigView> {
        drive_views(self.drives@)
    }

    /// The flash devices with their texts as sequences, none where there
    /// is no list of them yet.
    pub open spec fn spec_pflashs(&self) -> Seq<PFlashConfigView> {
        match self.pflashs {
            Some(list) => pflash_views(list@),
            None => Seq::<PFlashConfigView>::empty(),
        }
    }

    /// The character devices with their texts as sequences.
    pub open spec fn spec_chardevs(&self) -> Seq<ChardevConfigView> {
        chardev_views(self.chardev@)
    }

    /// Whether nothing but the drives differs between `self` and `other`.
    pub open spec fn same_but_drives(&self, other: VmConfig) -> bool {
        self.pflashs == other.pflashs && self.devices == other.devices && self.chardev
            == other.chardev
    }

    /// Index of the drive named `id`, or the number of drives where there
    /// is none.
    pub fn find_drive(&self, id: &str) -> (i: usize)
        ensures
            i == drive_index(self.spec_drives(), id@, 0),
            i <= self.drives@.len(),
    {
        let mut i: usize = 0;
        proof {
            lemma_drive_index(self.spec_drives(), id@, 0);
        }
        while i < self.drives.len() && !text_eq(self.drives[i].id.as_str(), id)
            invariant
                i <= self.drives@.len(),
                drive_index(self.spec_drives(), id@, 0) == drive_index(
                    self.spec_drives(),
                    id@,
                    i as int,
                ),
            decreases self.drives@.len() - i,
        {
            i = i + 1;
        }
        i
    }

    /// The drive named `id`, if there is one.
    pub fn get_drive(&self, id: &str) -> (r: Option<&DriveConfig>)
        ensures
            r is Some <==> has_drive(self.spec_drives(), id@),
            r matches Some(d) ==> d@ == self.spec_drives()[drive_index(self.spec_drives(), id@, 0)],
    {
        let i: usize = self.find_drive(id);
        if i < self.drives.len() {
            Some(&self.drives[i])
        } else {
            None
        }
    }

    /// Adds a drive. Refused, with the configuration left as it is, where
    /// a drive of the same identifier is there already.
    pub fn add_drive_with_config(&mut self, drive_conf: DriveConfig) -> (r: Result<
        (),
        ConfigError,
    >)
        ensures
            final(self).same_but_drives(*old(self)),
            has_drive(old(self).spec_drives(), drive_conf.id@) ==> {
                &&& r is Err
                &&& r->Err_0@ == ConfigErrorView::Other(
                    "Drive "@ + drive_conf.id@ + " has been added"@,
                )
                &&& final(self).drives@ == old(self).drives@
            },
            !has_drive(old(self).spec_drives(), drive_conf.id@) ==> {
                &&& r is Ok
                &&& final(self).drives@ == old(self).drives@.push(drive_conf)
            },
    {
        let i: usize = self.find_drive(drive_conf.id.as_str());
        if i < self.drives.len() {
            let mut message: String = joined("Drive ", drive_conf.id.as_str());
            message.append(" has been added");
            return Err(ConfigError::Other(message));
        }
        self.drives.push(drive_conf);
        Ok(())
    }

    /// Removes the drive named `drive_id` and returns its path. Refused
    /// where there is no such drive.
    pub fn del_drive_by_id(&mut self, drive_id: &str) -> (r: Result<String, ConfigError>)
        ensures
            final(self).same_but_drives(*old(self)),
            has_drive(old(self).spec_drives(), drive_id@) ==> {
                let i = drive_index(old(self).spec_drives(), drive_id@, 0);
                &&& r is Ok
                &&& r->Ok_0@ == old(self).spec_drives()[i].path_on_host
                &&& final(self).drives@ == old(self).drives@.remove(i)
            },
            !has_drive(old(self).spec_drives(), drive_id@) ==> {
                &&& r is Err
                &&& r->Err_0@ == ConfigErrorView::Other("Drive "@ + drive_id@ + " not found"@)
                &&& final(self).drives@ == old(self).drives@
            },
    {
        let i: usize = self.find_drive(drive_id);
        if i < self.drives.len() {
            let drive: DriveConfig = self.drives.remove(i);
            Ok(drive.path_on_host)
        } else {
            let mut message: String = joined("Drive ", drive_id);
            message.append(" not found");
            Err(ConfigError::Other(message))
        }
    }

    /// Adds a flash device. Refused, with the configuration left as it is,
    /// where a flash device of the same unit is there already.
    pub fn add_flashdev(&mut self, pflash: PFlashConfig) -> (r: Result<(), ConfigError>)
        ensures
            final(self).drives == old(self).drives,
            final(self).devices == old(self).devices,
            final(self).chardev == old(self).chardev,
            unit_index(old(self).spec_pflashs(), pflash.unit, 0) < old(self).spec_pflashs().len()
                ==> {
                &&& r is Err
                &&& r->Err_0@ == ConfigErrorView::IdRepeat("pflash"@, decimal(pflash.unit as nat))
                &&& final(self).pflashs == old(self).pflashs
            },
            unit_index(old(self).spec_pflashs(), pflash.unit, 0) >= old(self).spec_pflashs().len()
                ==> {
                &&& r is Ok
                &&& final(self).pflashs is Some
                &&& final(self).pflashs->0@ == (match old(self).pflashs {
                    Some(list) => list@,
                    None => Seq::<PFlashConfig>::empty(),
                }).push(pflash)
            },
    {
        let mut repeated: bool = false;
        match &self.pflashs {
            Some(list) => {
                let mut i: usize = 0;
                while i < list.len() && !repeated
                    invariant
                        i <= list@.len(),
                        !repeated ==> unit_index(pflash_views(list@), pflash.unit, 0) == unit_index(
                            pflash_views(list@),
                            pflash.unit,
                            i as int,
                        ),
                        repeated ==> unit_index(pflash_views(list@), pflash.unit, 0) < list@.len(),
                    decreases list@.len() - i + if repeated { 0int } else { 1int },
                {
                    if list[i].unit == pflash.unit {
                        proof {
                            lemma_unit_index(pflash_views(list@), pflash.unit, i as int);
                        }
                        repeated = true;
                    } else {
                        i = i + 1;
                    }
                }
            },
            None => {},
        }
        if repeated {
            return Err(
                ConfigError::IdRepeat("pflash".to_owned(), decimal_text(pflash.unit as u64)),
            );
        }
        match &mut self.pflashs {
            Some(list) => {
                list.push(pflash);
            },
            None => {
                let mut list: Vec<PFlashConfig> = Vec::new();
                list.push(pflash);
                self.pflashs = Some(list);
            },
        }
        Ok(())
    }
}

} // verus!
