//! The SCSI bus: the devices of a controller by target and logical unit.

use crate::scsi::cdb::{
    ScsiCommand, cdb_group_valid, cdb_parsed, lemma_cdb_fields, scsi_cdb_lba, scsi_cdb_length,
    scsi_cdb_xfer, scsi_cdb_xfer_mode,
};
use crate::scsi::device::ScsiDevice;
use std::collections::HashMap;
use vstd::prelude::*;
use vstd::std_specs::iter::IteratorSpec;

verus! {

broadcast use vstd::std_specs::hash::group_hash_axioms;

/// The key under which the bus holds the device at `target` and `lun`.
pub open spec fn key_of(target: u8, lun: u16) -> u32 {
    (target * 0x1_0000 + lun) as u32
}

/// The target number in a key.
pub open spec fn key_target(key: u32) -> int {
    key as int / 0x1_0000
}

/// The logical unit number in a key.
pub open spec fn key_lun(key: u32) -> u16 {
    (key % 0x1_0000) as u16
}

/// Whether `key` is among the first `seen` keys of `entries`.
pub open spec fn visited(entries: Seq<(&u32, &ScsiDevice)>, seen: int, key: u32) -> bool {
    exists|i: int| 0 <= i < seen && *(#[trigger] entries[i]).0 == key
}

/// Whether every number of `s` is below those that follow it.
pub open spec fn increasing(s: Seq<u16>) -> bool {
    forall|i: int, j: int| 0 <= i < j < s.len() ==> s[i] < s[j]
}

/// In rising order no number stands twice.
pub proof fn lemma_increasing_is_distinct(s: Seq<u16>)
    requires
        increasing(s),
    ensures
        s.no_duplicates(),
{
    assert forall|i: int, j: int| 0 <= i < s.len() && 0 <= j < s.len() && i != j implies s[i]
        != s[j] by {
        if i < j {
            assert(s[i] < s[j]);
        } else {
            assert(s[j] < s[i]);
        }
    }
}

/// There is one way only to list a set of numbers in rising order.
pub proof fn lemma_increasing_is_unique(a: Seq<u16>, b: Seq<u16>)
    requires
        increasing(a),
        increasing(b),
        a.to_set() == b.to_set(),
    ensures
        a == b,
    decreases a.len(),
{
    lemma_increasing_is_distinct(a);
    lemma_increasing_is_distinct(b);
    a.unique_seq_to_set();
    b.unique_seq_to_set();
    if a.len() > 0 {
        let x = a.last();
        let y = b.last();
        assert(a.to_set().contains(x));
        assert(b.to_set().contains(y));
        assert(b.contains(x));
        assert(a.contains(y));
        let i = choose|i: int| 0 <= i < b.len() && b[i] == x;
        let j = choose|j: int| 0 <= j < a.len() && a[j] == y;
        assert(x == y) by {
            if i < b.len() - 1 {
                assert(b[i] < b[b.len() - 1]);
            }
            if j < a.len() - 1 {
                assert(a[j] < a[a.len() - 1]);
            }
        }
        let front_a = a.drop_last();
        let front_b = b.drop_last();
        assert forall|v: u16| front_a.to_set().contains(v) == front_b.to_set().contains(v) by {
            if front_a.contains(v) {
                let k = choose|k: int| 0 <= k < front_a.len() && front_a[k] == v;
                assert(a[k] == v && a[k] < a[a.len() - 1]);
                assert(a.to_set().contains(v));
                assert(b.contains(v));
                let m = choose|m: int| 0 <= m < b.len() && b[m] == v;
                assert(m < b.len() - 1);
                assert(front_b[m] == v);
            }
            if front_b.contains(v) {
                let k = choose|k: int| 0 <= k < front_b.len() && front_b[k] == v;
                assert(b[k] == v && b[k] < b[b.len() - 1]);
                assert(b.to_set().contains(v));
                assert(a.contains(v));
                let m = choose|m: int| 0 <= m < a.len() && a[m] == v;
                assert(m < a.len() - 1);
                assert(front_a[m] == v);
            }
        }
        assert(front_a.to_set() =~= front_b.to_set());
        lemma_increasing_is_unique(front_a, front_b);
        assert(a =~= front_a.push(x));
        assert(b =~= front_b.push(y));
    } else {
        assert(a =~= b);
    }
}

/// No more numbers without a duplicate than there are logical unit numbers.
pub proof fn lemma_distinct_luns_bounded(luns: Seq<u16>)
    requires
        luns.no_duplicates(),
    ensures
        luns.len() <= 0x1_0000,
{
    let all = vstd::set_lib::set_int_range(0, 0x1_0000);
    let narrow = |i: int| i as u16;
    vstd::set_lib::lemma_int_range(0, 0x1_0000);
    vstd::set_lib::lemma_map_size_bound(all, all.map(narrow), narrow);
    assert forall|lun: u16| luns.to_set().contains(lun) implies all.map(narrow).contains(lun) by {
        assert(all.contains(lun as int));
        assert(narrow(lun as int) == lun);
    }
    vstd::set_lib::lemma_len_subset(luns.to_set(), all.map(narrow));
    luns.unique_seq_to_set();
}

/// The key under which the bus holds the device at `target` and `lun`.
pub fn device_key(target: u8, lun: u16) -> (key: u32)
    ensures
        key == key_of(target, lun),
        key_target(key) == target,
{
    target as u32 * 0x1_0000 + lun as u32
}

/// Why the bus or a request refused what it was given.
#[derive(Clone, Copy, Debug, PartialEq, Eq, Structural)]
pub enum ScsiError {
    /// The command descriptor block does not parse.
    BadCdb,
    /// The bus already holds a device at this target and logical unit.
    DeviceExists,
    /// The logical unit number does not fit 14 bits.
    LunOutOfRange,
}

/// Number of logical unit numbers: a logical unit number has 14 bits.
pub const SCSI_MAX_LUNS: u16 = 0x4000;

/// A SCSI bus.
pub struct ScsiBus {
    /// Bus name.
    pub name: String,
    /// The devices on the bus, each under the key of its target and logical
    /// unit.
    pub devices: HashMap<u32, ScsiDevice>,
    /// Name of the controller that the bus belongs to.
    pub parent_cntlr: String,
}

/// A SCSI controller, as far as its bus is concerned.
pub struct ScsiCntlr {
    /// Controller name.
    pub id: String,
    /// The bus of the controller, once it has been created.
    pub bus: Option<ScsiBus>,
}

impl ScsiBus {
    /// Every device sits under the key of its own target and logical unit,
    /// and its logical unit number fits 14 bits.
    pub open spec fn wf(&self) -> bool {
        forall|k: u32| #[trigger]
            self.devices@.contains_key(k) ==> {
                &&& k == key_of(self.devices@[k].config.target, self.devices@[k].config.lun)
                &&& self.devices@[k].config.lun < SCSI_MAX_LUNS
            }
    }

    /// Whether the bus holds a device at exactly `target` and `lun`.
    pub open spec fn has_device(&self, target: u8, lun: u16) -> bool {
        self.devices@.contains_key(key_of(target, lun))
    }

    /// Whether the bus holds any device at `target`.
    pub open spec fn has_target(&self, target: u8) -> bool {
        exists|k: u32| #[trigger] self.devices@.contains_key(k) && key_target(k) == target
    }

    /// The logical unit numbers of the devices at `target`.
    pub open spec fn target_luns(&self, target: u8) -> Set<u16> {
        Set::new(|lun: u16| self.has_device(target, lun))
    }

    /// An empty bus named `bus_name` that belongs to the controller named
    /// `parent_cntlr`.
    pub fn new(bus_name: String, parent_cntlr: String) -> (bus: ScsiBus)
        ensures
            bus.name == bus_name,
            bus.parent_cntlr == parent_cntlr,
            bus.devices@ == Map::<u32, ScsiDevice>::empty(),
            bus.wf(),
    {
        ScsiBus { name: bus_name, devices: HashMap::new(), parent_cntlr }
    }

    /// Puts `device` on the bus at its target and logical unit. A logical
    /// unit number that does not fit 14 bits is refused. A bus holds one
    /// device at most at each place: a second one is refused. The bus stays
    /// as it was where the device is refused.
    pub fn attach(&mut self, device: ScsiDevice) -> (r: Result<(), ScsiError>)
        ensures
            final(self).name == old(self).name,
            final(self).parent_cntlr == old(self).parent_cntlr,
            device.config.lun >= SCSI_MAX_LUNS ==> {
                &&& r == Err::<(), ScsiError>(ScsiError::LunOutOfRange)
                &&& final(self).devices@ == old(self).devices@
            },
            device.config.lun < SCSI_MAX_LUNS && old(self).has_device(
                device.config.target,
                device.config.lun,
            ) ==> {
                &&& r == Err::<(), ScsiError>(ScsiError::DeviceExists)
                &&& final(self).devices@ == old(self).devices@
            },
            device.config.lun < SCSI_MAX_LUNS && !old(self).has_device(
                device.config.target,
                device.config.lun,
            ) ==> {
                &&& r is Ok
                &&& final(self).devices@ == old(self).devices@.insert(
                    key_of(device.config.target, device.config.lun),
                    device,
                )
            },
            old(self).wf() ==> final(self).wf(),
    {
        if device.config.lun >= SCSI_MAX_LUNS {
            return Err(ScsiError::LunOutOfRange);
        }
        let key: u32 = device_key(device.config.target, device.config.lun);
        if self.devices.contains_key(&key) {
            return Err(ScsiError::DeviceExists);
        }
        self.devices.insert(key, device);
        Ok(())
    }

    /// Whether `lun` is the lowest logical unit number at `target`.
    pub open spec fn is_lowest_lun(&self, target: u8, lun: u16) -> bool {
        &&& self.has_device(target, lun)
        &&& forall|other: u16| #[trigger] self.has_device(target, other) ==> lun <= other
    }

    /// The device that a command for `target` and `lun` goes to: the device
    /// at exactly that place if there is one, else the device of the same
    /// target with the lowest logical unit number, which then answers for
    /// the target as a whole. `None` where the target has no device at all.
    pub fn get_device(&self, target: u8, lun: u16) -> (r: Option<&ScsiDevice>)
        ensures
            self.has_device(target, lun) ==> r == Some(&self.devices@[key_of(target, lun)]),
            !self.has_device(target, lun) && self.has_target(target) ==> exists|lowest: u16|
                #[trigger] self.is_lowest_lun(target, lowest) && r == Some(
                    &self.devices@[key_of(target, lowest)],
                ),
            !self.has_target(target) ==> r is None,
            self.wf() && r is Some ==> r->0.config.target == target,
    {
        let key: u32 = device_key(target, lun);
        if let Some(dev) = self.devices.get(&key) {
            return Some(dev);
        }
        let luns = self.luns_of_target(target);
        if luns.len() == 0 {
            proof {
                if self.has_target(target) {
                    let k = choose|k: u32| #[trigger]
                        self.devices@.contains_key(k) && key_target(k) == target;
                    assert(key_of(target, key_lun(k)) == k);
                    assert(self.target_luns(target).contains(key_lun(k)));
                    assert(luns@.to_set().contains(key_lun(k)));
                }
            }
            return None;
        }
        let lowest: u16 = luns[0];
        proof {
            assert(luns@.to_set().contains(lowest));
            assert(self.target_luns(target).contains(lowest));
            assert(key_target(key_of(target, lowest)) == target);
            assert forall|other: u16| #[trigger] self.has_device(target, other) implies lowest
                <= other by {
                assert(self.target_luns(target).contains(other));
                assert(luns@.contains(other));
                let i = choose|i: int| 0 <= i < luns@.len() && luns@[i] == other;
                if i > 0 {
                    assert(luns@[0] < luns@[i]);
                }
            }
            assert(self.is_lowest_lun(target, lowest));
        }
        self.devices.get(&device_key(target, lowest))
    }

    /// Whether `luns` lists the logical units at `target`, each once, in
    /// rising order.
    pub open spec fn lists_luns(&self, target: u8, luns: Seq<u16>) -> bool {
        increasing(luns) && luns.to_set() == self.target_luns(target)
    }

    /// The logical unit numbers of the devices at `target`, each once, in
    /// rising order.
    pub fn luns_of_target(&self, target: u8) -> (luns: Vec<u16>)
        ensures
            self.lists_luns(target, luns@),
            luns@.len() <= 0x1_0000,
    {
        let mut luns: Vec<u16> = Vec::new();
        let ghost mut seen: int = 0;
        let entries = self.devices.iter();
        let ghost all = self.devices.iter().remaining();
        for (k, _dev) in it: entries
            invariant
                all == self.devices.iter().remaining(),
                all.no_duplicates(),
                it.seq() == all,
                seen == it.index(),
                increasing(luns@),
                forall|j: int|
                    0 <= j < luns@.len() ==> visited(all, seen, key_of(target, #[trigger] luns@[j])),
                forall|i: int|
                    0 <= i < seen && key_target(*(#[trigger] all[i]).0) == target
                        ==> luns@.contains(key_lun(*all[i].0)),
        {
            let ghost before = luns@;
            if *k / 0x1_0000 == target as u32 {
                let lun: u16 = (*k % 0x1_0000) as u16;
                assert(key_of(target, lun) == *k);
                assert(!before.contains(lun)) by {
                    if before.contains(lun) {
                        let j = choose|j: int| 0 <= j < before.len() && before[j] == lun;
                        assert(visited(all, seen, key_of(target, before[j])));
                        let i = choose|i: int| 0 <= i < seen && *(#[trigger] all[i]).0 == *k;
                        assert(self.devices@[*all[i].0] == *all[i].1);
                        assert(self.devices@[*all[seen].0] == *all[seen].1);
                        assert(all[i] == all[seen]);
                    }
                }
                let mut pos: usize = 0;
                while pos < luns.len() && luns[pos] < lun
                    invariant
                        pos <= luns@.len(),
                        luns@ == before,
                        forall|i: int| 0 <= i < pos ==> luns@[i] < lun,
                    decreases luns@.len() - pos,
                {
                    pos = pos + 1;
                }
                luns.insert(pos, lun);
                proof {
                    before.insert_ensures(pos as int, lun);
                    assert forall|i: int| pos <= i < before.len() implies before[i] > lun by {
                        assert(before.contains(before[pos as int]));
                        assert(before[pos as int] != lun);
                    }
                    assert(increasing(luns@)) by {
                        assert forall|a: int, b: int| 0 <= a < b < luns@.len() implies luns@[a]
                            < luns@[b] by {
                            let x = if a < pos {
                                before[a]
                            } else if a == pos {
                                lun
                            } else {
                                before[a - 1]
                            };
                            let y = if b < pos {
                                before[b]
                            } else if b == pos {
                                lun
                            } else {
                                before[b - 1]
                            };
                            assert(luns@[a] == x && luns@[b] == y);
                        }
                    }
                    assert forall|x: u16| luns@.contains(x) == (before.contains(x) || x
                        == lun) by {
                        if before.contains(x) {
                            let i = choose|i: int| 0 <= i < before.len() && before[i] == x;
                            if i < pos {
                                assert(luns@[i] == x);
                            } else {
                                assert(luns@[i + 1] == x);
                            }
                        }
                        if x == lun {
                            assert(luns@[pos as int] == x);
                        }
                        if luns@.contains(x) {
                            let i = choose|i: int| 0 <= i < luns@.len() && luns@[i] == x;
                            if i < pos {
                                assert(before[i] == x);
                            } else if i > pos {
                                assert(before[i - 1] == x);
                            }
                        }
                    }
                }
            }
            proof {
                assert forall|j: int| 0 <= j < luns@.len() implies visited(
                    all,
                    seen + 1,
                    key_of(target, #[trigger] luns@[j]),
                ) by {
                    if before.contains(luns@[j]) {
                        assert(visited(all, seen, key_of(target, luns@[j]))) by {
                            let b = choose|b: int| 0 <= b < before.len() && before[b] == luns@[j];
                            assert(visited(all, seen, key_of(target, before[b])));
                        }
                        let i = choose|i: int|
                            0 <= i < seen && *(#[trigger] all[i]).0 == key_of(target, luns@[j]);
                        assert(0 <= i < seen + 1 && *all[i].0 == key_of(target, luns@[j]));
                    } else {
                        assert(luns@.contains(luns@[j]));
                        assert(0 <= seen < seen + 1 && *all[seen].0 == key_of(target, luns@[j]));
                    }
                }
                assert forall|i: int|
                    0 <= i < seen + 1 && key_target(*(#[trigger] all[i]).0)
                        == target implies luns@.contains(key_lun(*all[i].0)) by {
                    if i < seen {
                        assert(before.contains(key_lun(*all[i].0)));
                    }
                }
                seen = seen + 1;
            }
        }
        proof {
            assert forall|lun: u16| luns@.to_set().contains(lun) == self.target_luns(
                target,
            ).contains(lun) by {
                if luns@.to_set().contains(lun) {
                    let j = choose|j: int| 0 <= j < luns@.len() && luns@[j] == lun;
                    assert(visited(all, seen, key_of(target, luns@[j])));
                    let i = choose|i: int|
                        0 <= i < seen && *(#[trigger] all[i]).0 == key_of(target, lun);
                    assert(self.devices@.contains_key(*all[i].0));
                }
                if self.target_luns(target).contains(lun) {
                    let key = key_of(target, lun);
                    assert(all.contains((&key, &self.devices@[key])));
                    let i = choose|i: int|
                        0 <= i < all.len() && all[i] == (&key, &self.devices@[key]);
                    assert(key_target(*all[i].0) == target);
                    assert(luns@.contains(key_lun(*all[i].0)));
                }
            }
            assert(luns@.to_set() =~= self.target_luns(target));
            lemma_increasing_is_distinct(luns@);
            lemma_distinct_luns_bounded(luns@);
        }
        luns
    }

    /// Parses the command field of a virtio-scsi request. `None` where the
    /// group code of the operation code is reserved or vendor specific, and
    /// then only.
    pub fn scsi_bus_parse_req_cdb(&self, cdb: [u8; 32]) -> (r: Option<ScsiCommand>)
        ensures
            r is Some <==> cdb_group_valid(cdb@),
            r matches Some(cmd) ==> cdb_parsed(cdb@, cmd),
    {
        proof {
            lemma_cdb_fields(cdb@);
        }
        let mut buf: [u8; 16] = [0u8; 16];
        for i in 0..16usize
            invariant
                forall|j: int| 0 <= j < i ==> buf@[j] == cdb@[j],
        {
            buf[i] = cdb[i];
        }
        assert(buf@ =~= cdb@.subrange(0, 16));
        let command: u8 = cdb[0];
        let len: i32 = scsi_cdb_length(&cdb);
        if len < 0 {
            return None;
        }
        let xfer: i64 = scsi_cdb_xfer(&cdb);
        if xfer < 0 {
            return None;
        }
        let lba: i128 = scsi_cdb_lba(&cdb);
        if lba < 0 {
            return None;
        }
        Some(
            ScsiCommand {
                buf,
                command,
                len: len as u32,
                xfer: xfer as u64,
                lba: lba as u64,
                mode: scsi_cdb_xfer_mode(&cdb),
            },
        )
    }
}

/// Gives the controller a new, empty bus named `bus_name`.
pub fn create_scsi_bus(bus_name: &str, scsi_cntlr: &mut ScsiCntlr) -> (r: Result<(), ScsiError>)
    ensures
        r is Ok,
        final(scsi_cntlr).id == old(scsi_cntlr).id,
        final(scsi_cntlr).bus is Some,
        final(scsi_cntlr).bus->0.name@ == bus_name@,
        final(scsi_cntlr).bus->0.parent_cntlr == old(scsi_cntlr).id,
        final(scsi_cntlr).bus->0.devices@ == Map::<u32, ScsiDevice>::empty(),
        final(scsi_cntlr).bus->0.wf(),
{
    let bus = ScsiBus::new(bus_name.to_owned(), scsi_cntlr.id.clone());
    scsi_cntlr.bus = Some(bus);
    Ok(())
}

} // verus!
