//! A SCSI device as the command engine sees it.

use vstd::prelude::*;

verus! {

/// Peripheral device type of a disk.
pub const SCSI_TYPE_DISK: u32 = 0x00;
/// Peripheral device type of a CD or DVD drive.
pub const SCSI_TYPE_ROM: u32 = 0x05;

/// Feature bit: the medium can be removed.
pub const SCSI_DISK_F_REMOVABLE: u32 = 0;
/// Feature bit: the device honours the DPO and FUA bits of reads and writes.
pub const SCSI_DISK_F_DPOFUA: u32 = 1;

/// Size of a sector in bytes.
pub const DEFAULT_SECTOR_SIZE: u32 = 512;

/// Where a device sits on its bus.
#[derive(Clone, Debug)]
pub struct ScsiDevConfig {
    /// Target number.
    pub target: u8,
    /// Logical unit number.
    pub lun: u16,
}

/// What a device says of itself.
#[derive(Clone, Debug)]
pub struct ScsiDevState {
    /// Feature bits, numbered by the `SCSI_DISK_F_` constants.
    pub features: u32,
    /// Vendor identification.
    pub vendor: String,
    /// Product identification.
    pub product: String,
    /// Device identifier.
    pub device_id: String,
    /// Product revision level.
    pub version: String,
    /// Unit serial number.
    pub serial: String,
}

/// A device on a SCSI bus.
#[derive(Clone, Debug)]
pub struct ScsiDevice {
    /// Where the device sits on its bus.
    pub config: ScsiDevConfig,
    /// What the device says of itself.
    pub state: ScsiDevState,
    /// Descriptor of the opened backing file, if there is one.
    pub disk_image: Option<i32>,
    /// Number of sectors of the backing file.
    pub disk_sectors: u64,
    /// Peripheral device type: `SCSI_TYPE_DISK` or `SCSI_TYPE_ROM`.
    pub scsi_type: u32,
}

/// Whether feature bit `bit` is set in `features`.
pub open spec fn feature_is_set(features: u32, bit: u32) -> bool {
    features & (1u32 << bit) != 0
}

/// The bytes of a string.
pub open spec fn bytes_of(s: String) -> Seq<u8> {
    vstd::utf8::encode_utf8(s@)
}

impl ScsiDevice {
    /// Whether the device has feature `bit`, one of the `SCSI_DISK_F_`
    /// constants.
    pub fn has_feature(&self, bit: u32) -> (b: bool)
        requires
            bit < 32,
        ensures
            b == feature_is_set(self.state.features, bit),
    {
        self.state.features & (1u32 << bit) != 0
    }
}

} // verus!
