//! Guest accesses that the machine answers before they reach the I/O space.

use vstd::prelude::*;

verus! {

/// A read from an I/O port that the machine answers itself.
pub open spec fn is_quirk_port(addr: u64) -> bool {
    addr == 0x61
}

/// A read of the guest from I/O port `addr`. Port 0x61 always reads 0x20 in
/// its first byte, whatever was written before: kernels that calibrate
/// their clock against this port wait for that value. The answer is
/// `Some(true)` for this port. For every other port it is `None`, `data` is
/// left as it is, and the read goes to the I/O space.
pub fn pio_in(addr: u64, data: &mut [u8]) -> (r: Option<bool>)
    requires
        is_quirk_port(addr) ==> old(data)@.len() >= 1,
    ensures
        is_quirk_port(addr) ==> r == Some(true) && final(data)@ == old(data)@.update(0, 0x20u8),
        !is_quirk_port(addr) ==> r is None && final(data)@ == old(data)@,
{
    if addr == 0x61 {
        data[0] = 0x20;
        return Some(true);
    }
    None
}

} // verus!
