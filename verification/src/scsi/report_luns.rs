//! REPORT LUNS: the logical units of a target.

use crate::endian::{be32_at, be32_bytes, lemma_be32_round_trip, write_be32};
use crate::scsi::buffer::{append_bytes, append_zeros, zeros};
use crate::scsi::bus::{
    SCSI_MAX_LUNS, ScsiBus, key_of, key_target, lemma_distinct_luns_bounded,
    lemma_increasing_is_distinct, lemma_increasing_is_unique,
};
use crate::scsi::cdb::ScsiCommand;
use crate::scsi::device::ScsiDevice;
use crate::scsi::sense::{ScsiSense, scsi_sense_invalid_field};
use vstd::prelude::*;

verus! {

/// The eight bytes that stand for one logical unit: the number in the second
/// byte where it fits one, else spread over the first two with the flat
/// space addressing bit.
pub open spec fn lun_entry(lun: u16) -> Seq<u8> {
    if lun < 256 {
        seq![0u8, lun as u8] + zeros(6)
    } else {
        seq![0x40u8 | ((lun >> 8) & 0xff) as u8, (lun & 0xff) as u8] + zeros(6)
    }
}

/// Two logical unit numbers of 14 bits that differ have entries that
/// differ.
pub proof fn lemma_lun_entry_distinct(a: u16, b: u16)
    requires
        a < SCSI_MAX_LUNS,
        b < SCSI_MAX_LUNS,
        a != b,
    ensures
        lun_entry(a) != lun_entry(b),
{
    assert(a < 0x4000 && b < 0x4000 && a >= 256 && b >= 256 && a != b ==> (0x40u8 | ((a >> 8)
        & 0xff) as u8) != (0x40u8 | ((b >> 8) & 0xff) as u8) || ((a & 0xff) as u8) != ((b
        & 0xff) as u8)) by (bit_vector);
    assert(a < 0x4000 && a >= 256 ==> (0x40u8 | ((a >> 8) & 0xff) as u8) != 0u8)
        by (bit_vector);
    assert(b < 0x4000 && b >= 256 ==> (0x40u8 | ((b >> 8) & 0xff) as u8) != 0u8)
        by (bit_vector);
    if lun_entry(a) == lun_entry(b) {
        assert(lun_entry(a)[0] == lun_entry(b)[0]);
        assert(lun_entry(a)[1] == lun_entry(b)[1]);
    }
}

/// The entries of `luns` one after the other.
pub open spec fn lun_entries(luns: Seq<u16>) -> Seq<u8>
    decreases luns.len(),
{
    if luns.len() == 0 {
        Seq::<u8>::empty()
    } else {
        lun_entries(luns.drop_last()) + lun_entry(luns.last())
    }
}

/// The answer that lists `luns`: the length of the list in bytes, four
/// reserved bytes, then the list.
pub open spec fn report_luns_data(luns: Seq<u16>) -> Seq<u8> {
    be32_bytes((8 * luns.len()) as u32) + zeros(4) + lun_entries(luns)
}

/// Whether `data` is the answer to REPORT LUNS for `target`: it lists the
/// logical units of the target, each once, in rising order.
pub open spec fn is_report_luns_data(bus: ScsiBus, target: u8, data: Seq<u8>) -> bool {
    exists|luns: Seq<u16>| #[trigger] bus.lists_luns(target, luns) && data == report_luns_data(luns)
}

/// A command is refused where it leaves room for less than one entry or
/// names a kind of report that is reserved.
pub open spec fn report_luns_refused(cmd: ScsiCommand) -> bool {
    cmd.xfer < 16 || cmd.buf[2] > 2
}

/// A list of `n` entries is `8 * n` bytes long and holds the entry of the
/// `i`th logical unit from byte `8 * i`.
pub proof fn lemma_lun_entries(luns: Seq<u16>)
    ensures
        lun_entries(luns).len() == 8 * luns.len(),
        forall|i: int|
            0 <= i < luns.len() ==> lun_entries(luns).subrange(8 * i, 8 * i + 8) == lun_entry(
                #[trigger] luns[i],
            ),
    decreases luns.len(),
{
    if luns.len() > 0 {
        let front = luns.drop_last();
        lemma_lun_entries(front);
        assert forall|i: int| 0 <= i < luns.len() implies lun_entries(luns).subrange(
            8 * i,
            8 * i + 8,
        ) == lun_entry(#[trigger] luns[i]) by {
            if i < front.len() {
                assert(lun_entries(front).subrange(8 * i, 8 * i + 8) == lun_entry(front[i]));
                assert(lun_entries(luns).subrange(8 * i, 8 * i + 8) =~= lun_entries(
                    front,
                ).subrange(8 * i, 8 * i + 8));
            } else {
                assert(lun_entries(luns).subrange(8 * i, 8 * i + 8) =~= lun_entry(luns.last()));
            }
        }
    }
}

/// Of a bus that holds two devices at one target, the answer to REPORT LUNS
/// for that target lists both, each in an entry of its own, and its header
/// gives eight bytes for every logical unit of the target.
pub proof fn lemma_report_luns_lists_both(
    bus: ScsiBus,
    target: u8,
    lun_a: u16,
    lun_b: u16,
    data: Seq<u8>,
)
    requires
        bus.has_device(target, lun_a),
        bus.has_device(target, lun_b),
        lun_a != lun_b,
        is_report_luns_data(bus, target, data),
    ensures
        bus.target_luns(target).finite(),
        be32_at(data, 0) == 8 * bus.target_luns(target).len(),
        data.len() == 8 + 8 * bus.target_luns(target).len(),
        exists|i: int, j: int|
            0 <= i < bus.target_luns(target).len() && 0 <= j < bus.target_luns(target).len() && i
                != j && #[trigger] data.subrange(8 + 8 * i, 16 + 8 * i) == lun_entry(lun_a)
                && #[trigger] data.subrange(8 + 8 * j, 16 + 8 * j) == lun_entry(lun_b),
{
    let luns = choose|luns: Seq<u16>| #[trigger]
        bus.lists_luns(target, luns) && data == report_luns_data(luns);
    lemma_increasing_is_distinct(luns);
    lemma_report_luns_data(luns);
    luns.unique_seq_to_set();
    assert(luns.to_set().contains(lun_a));
    assert(luns.to_set().contains(lun_b));
    let i = choose|i: int| 0 <= i < luns.len() && luns[i] == lun_a;
    let j = choose|j: int| 0 <= j < luns.len() && luns[j] == lun_b;
    assert(data.subrange(8 + 8 * i, 16 + 8 * i) == lun_entry(luns[i]));
    assert(data.subrange(8 + 8 * j, 16 + 8 * j) == lun_entry(luns[j]));
}

/// There is one answer to REPORT LUNS for a target.
pub proof fn lemma_report_luns_is_unique(bus: ScsiBus, target: u8, a: Seq<u8>, b: Seq<u8>)
    requires
        is_report_luns_data(bus, target, a),
        is_report_luns_data(bus, target, b),
    ensures
        a == b,
{
    let luns_a = choose|luns: Seq<u16>| #[trigger]
        bus.lists_luns(target, luns) && a == report_luns_data(luns);
    let luns_b = choose|luns: Seq<u16>| #[trigger]
        bus.lists_luns(target, luns) && b == report_luns_data(luns);
    lemma_increasing_is_unique(luns_a, luns_b);
}

/// Of a target without a device the answer to REPORT LUNS is the header
/// alone: eight zero bytes.
pub proof fn lemma_report_luns_of_no_unit(bus: ScsiBus, target: u8, data: Seq<u8>)
    requires
        !bus.has_target(target),
        is_report_luns_data(bus, target, data),
    ensures
        data == zeros(8),
{
    let luns = choose|luns: Seq<u16>| #[trigger]
        bus.lists_luns(target, luns) && data == report_luns_data(luns);
    if luns.len() > 0 {
        assert(luns.to_set().contains(luns[0]));
        assert(bus.devices@.contains_key(key_of(target, luns[0])));
        assert(key_target(key_of(target, luns[0])) == target);
    }
    assert(data =~= zeros(8));
}

/// The answer that lists `luns`, none twice, is `8 + 8 * n` bytes long, says
/// `8 * n` in its header, and holds the entry of the `i`th logical unit
/// from byte `8 + 8 * i`.
pub proof fn lemma_report_luns_data(luns: Seq<u16>)
    requires
        luns.no_duplicates(),
    ensures
        report_luns_data(luns).len() == 8 + 8 * luns.len(),
        be32_at(report_luns_data(luns), 0) == 8 * luns.len(),
        forall|i: int|
            0 <= i < luns.len() ==> report_luns_data(luns).subrange(8 + 8 * i, 16 + 8 * i)
                == lun_entry(#[trigger] luns[i]),
{
    lemma_distinct_luns_bounded(luns);
    lemma_lun_entries(luns);
    lemma_be32_round_trip((8 * luns.len()) as u32);
    let data = report_luns_data(luns);
    assert(be32_at(data, 0) == be32_at(be32_bytes((8 * luns.len()) as u32), 0));
    assert forall|i: int| 0 <= i < luns.len() implies data.subrange(8 + 8 * i, 16 + 8 * i)
        == lun_entry(#[trigger] luns[i]) by {
        assert(lun_entries(luns).subrange(8 * i, 8 * i + 8) == lun_entry(luns[i]));
        assert(data.subrange(8 + 8 * i, 16 + 8 * i) =~= lun_entries(luns).subrange(
            8 * i,
            8 * i + 8,
        ));
    }
}

/// The answer to REPORT LUNS that lists `luns` in the order given.
pub fn scsi_report_luns_data(luns: &Vec<u16>) -> (outbuf: Vec<u8>)
    requires
        luns@.len() <= 0x1_0000,
    ensures
        outbuf@ == report_luns_data(luns@),
{
    let mut list: Vec<u8> = Vec::new();
    let mut i: usize = 0;
    while i < luns.len()
        invariant
            i <= luns@.len(),
            list@ == lun_entries(luns@.subrange(0, i as int)),
        decreases luns@.len() - i,
    {
        let lun: u16 = luns[i];
        let ghost before = list@;
        if lun < 256 {
            list.push(0);
            list.push(lun as u8);
        } else {
            assert((lun >> 8) & 0xff < 0x100 && lun & 0xff < 0x100) by (bit_vector);
            list.push(0x40u8 | ((lun >> 8) & 0xff) as u8);
            list.push((lun & 0xff) as u8);
        }
        append_zeros(&mut list, 6);
        i = i + 1;
        proof {
            let upto = luns@.subrange(0, i as int);
            assert(upto.drop_last() =~= luns@.subrange(0, i - 1));
            assert(upto.last() == lun);
            assert(list@ =~= before + lun_entry(lun));
        }
    }
    assert(luns@.subrange(0, i as int) =~= luns@);
    let mut outbuf: Vec<u8> = Vec::new();
    let len: u32 = (8 * luns.len()) as u32;
    append_bytes(&mut outbuf, write_be32(len).as_slice());
    append_zeros(&mut outbuf, 4);
    append_bytes(&mut outbuf, list.as_slice());
    outbuf
}

/// REPORT LUNS for the target of `dev` on `bus`.
pub fn scsi_command_emulate_report_luns(cmd: &ScsiCommand, dev: &ScsiDevice, bus: &ScsiBus) -> (r:
    Result<Vec<u8>, ScsiSense>)
    ensures
        report_luns_refused(*cmd) ==> r == Err::<Vec<u8>, ScsiSense>(scsi_sense_invalid_field()),
        !report_luns_refused(*cmd) ==> r is Ok && is_report_luns_data(
            *bus,
            dev.config.target,
            r->Ok_0@,
        ),
{
    if cmd.xfer < 16 {
        return Err(scsi_sense_invalid_field());
    }
    if cmd.buf[2] > 2 {
        return Err(scsi_sense_invalid_field());
    }
    let luns = bus.luns_of_target(dev.config.target);
    let outbuf = scsi_report_luns_data(&luns);
    assert(bus.lists_luns(dev.config.target, luns@) && outbuf@ == report_luns_data(luns@));
    Ok(outbuf)
}

} // verus!
