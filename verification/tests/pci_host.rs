use hv_core::machine::pci_host::{ecam_decode, ecam_encode, legacy_decode, PciConfigAddress};

#[test]
fn ecam_offsets() {
    let addr = PciConfigAddress { bus: 3, device: 17, function: 5, register: 0x9ab };
    let offset = (3 << 20) | (17 << 15) | (5 << 12) | 0x9ab;
    assert_eq!(ecam_encode(addr), offset);
    assert_eq!(ecam_decode(offset), addr);
    assert_eq!(
        ecam_decode(0),
        PciConfigAddress { bus: 0, device: 0, function: 0, register: 0 }
    );
    assert_eq!(
        ecam_decode(0x0fff_ffff),
        PciConfigAddress { bus: 255, device: 31, function: 7, register: 0xfff }
    );
    for offset in [1u64, 0xfff, 0x1000, 0x7fff, 0x8000, 0xf_ffff, 0x10_0000, 0x0abc_def0] {
        assert_eq!(ecam_encode(ecam_decode(offset)), offset);
    }
}

#[test]
fn legacy_ports() {
    assert_eq!(legacy_decode(0x0000_0000, 0xcfc), None);
    assert_eq!(legacy_decode(0x7fff_ffff, 0xcfc), None);
    assert_eq!(
        legacy_decode(0x8000_0000, 0xcfc),
        Some(PciConfigAddress { bus: 0, device: 0, function: 0, register: 0 })
    );
    // Bus 2, device 3, function 4, register 0x10, byte 2 of the data port.
    let config_addr = 0x8000_0000 | (2 << 16) | (3 << 11) | (4 << 8) | 0x10;
    assert_eq!(
        legacy_decode(config_addr, 0xcfe),
        Some(PciConfigAddress { bus: 2, device: 3, function: 4, register: 0x12 })
    );
    // The low two bits of the register do not count, the reserved bits neither.
    assert_eq!(
        legacy_decode(0xff00_00ff, 0xcff),
        Some(PciConfigAddress { bus: 0, device: 0, function: 0, register: 0xff })
    );
    assert_eq!(
        legacy_decode(0x80ff_ffff, 0xcfc),
        Some(PciConfigAddress { bus: 255, device: 31, function: 7, register: 0xfc })
    );
    let addr = legacy_decode(config_addr, 0xcfc).unwrap();
    assert_eq!(ecam_decode(ecam_encode(addr)), addr);
}
