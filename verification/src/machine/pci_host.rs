//! How the PCI host finds the configuration register that an access means:
//! by the address in the window of memory-mapped configuration, or by the
//! configuration address register of the two legacy ports.

use vstd::prelude::*;

verus! {

/// A register in the configuration space of a PCI function.
#[derive(Clone, Copy, Debug, PartialEq, Eq, Structural)]
pub struct PciConfigAddress {
    /// Bus number.
    pub bus: u8,
    /// Device number, below 32.
    pub device: u8,
    /// Function number, below 8.
    pub function: u8,
    /// Offset of the register in the configuration space, below 4096.
    pub register: u16,
}

impl PciConfigAddress {
    /// Whether every field is within its width.
    pub open spec fn wf(self) -> bool {
        self.device < 32 && self.function < 8 && self.register < 4096
    }
}

/// The offset in the window of memory-mapped configuration that selects
/// `addr`: 8 bits of bus, 5 of device, 3 of function, 12 of register.
pub open spec fn ecam_offset_of(addr: PciConfigAddress) -> int {
    addr.bus * 0x10_0000 + addr.device * 0x8000 + addr.function * 0x1000 + addr.register
}

/// The register that the legacy ports select for the value `config_addr` of
/// the configuration address register and an access to byte `byte` of the
/// data port: bus, device and function from bits 23 to 8, the double word
/// from bits 7 to 2. Nothing is selected unless bit 31 is set.
pub open spec fn legacy_address_of(config_addr: u32, byte: int) -> Option<PciConfigAddress> {
    if config_addr / 0x8000_0000 == 0 {
        None
    } else {
        Some(
            PciConfigAddress {
                bus: (config_addr / 0x1_0000 % 0x100) as u8,
                device: (config_addr / 0x800 % 0x20) as u8,
                function: (config_addr / 0x100 % 0x8) as u8,
                register: (config_addr / 4 % 0x40 * 4 + byte) as u16,
            },
        )
    }
}

/// The register that offset `offset` of the window of memory-mapped
/// configuration selects.
pub fn ecam_decode(offset: u64) -> (addr: PciConfigAddress)
    requires
        offset < 0x1000_0000,
    ensures
        addr.wf(),
        ecam_offset_of(addr) == offset,
{
    let word: u32 = offset as u32;
    assert(word < 0x1000_0000 ==> (word >> 20) & 0xff == word / 0x10_0000 && (word >> 15) & 0x1f
        == word / 0x8000 % 0x20 && (word >> 12) & 0x7 == word / 0x1000 % 8 && word & 0xfff == word
        % 0x1000) by (bit_vector);
    PciConfigAddress {
        bus: ((word >> 20) & 0xff) as u8,
        device: ((word >> 15) & 0x1f) as u8,
        function: ((word >> 12) & 0x7) as u8,
        register: (word & 0xfff) as u16,
    }
}

/// The offset in the window of memory-mapped configuration that selects
/// `addr`.
pub fn ecam_encode(addr: PciConfigAddress) -> (offset: u64)
    requires
        addr.wf(),
    ensures
        offset == ecam_offset_of(addr),
        offset < 0x1000_0000,
{
    addr.bus as u64 * 0x10_0000 + addr.device as u64 * 0x8000 + addr.function as u64 * 0x1000
        + addr.register as u64
}

/// The register that the legacy ports select for the value `config_addr` of
/// the configuration address register and an access to the data port at
/// `port`, one of its four bytes.
pub fn legacy_decode(config_addr: u32, port: u64) -> (addr: Option<PciConfigAddress>)
    requires
        0xcfc <= port < 0xd00,
    ensures
        addr == legacy_address_of(config_addr, port - 0xcfc),
        addr matches Some(a) ==> a.wf() && a.register < 256,
{
    assert(config_addr >> 31 == config_addr / 0x8000_0000 && (config_addr >> 16) & 0xff
        == config_addr / 0x1_0000 % 0x100 && (config_addr >> 11) & 0x1f == config_addr / 0x800
        % 0x20 && (config_addr >> 8) & 0x7 == config_addr / 0x100 % 0x8 && config_addr & 0xfc
        == config_addr / 4 % 0x40 * 4) by (bit_vector);
    if config_addr >> 31 == 0 {
        return None;
    }
    let byte: u32 = (port - 0xcfc) as u32;
    Some(
        PciConfigAddress {
            bus: ((config_addr >> 16) & 0xff) as u8,
            device: ((config_addr >> 11) & 0x1f) as u8,
            function: ((config_addr >> 8) & 0x7) as u8,
            register: ((config_addr & 0xfc) + byte) as u16,
        },
    )
}

/// Both ways of access reach the same registers: what the legacy ports
/// select lies in the first 256 bytes of the configuration space of its
/// function, and its offset in the window selects it again. Two registers
/// that differ have offsets that differ.
pub proof fn lemma_both_paths_agree(a: PciConfigAddress, b: PciConfigAddress)
    requires
        a.wf(),
        b.wf(),
    ensures
        0 <= ecam_offset_of(a) < 0x1000_0000,
        ecam_offset_of(a) == ecam_offset_of(b) ==> a == b,
{
}

} // verus!
