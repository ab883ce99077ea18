//! Devices that are added while the machine runs, and the place of a
//! device on the PCI bus.

use crate::config::drive::{DeviceEntry, VmConfig, text_of};
use crate::config::error::{ConfigError, ConfigErrorView};
use crate::config::parser::{CmdParser, ParamView, parsed, pushed, raw_value};
use crate::config::text::{
    decimal, decimal_text, find_char, find_from, joined, number_value, parse_number,
};
use vstd::prelude::*;
use vstd::string::StrSliceExecFns;
use vstd::string::StringExecFns;

verus! {

/// What a request to add a device says of it.
#[derive(Clone, Debug)]
pub struct DeviceAddArgument {
    pub id: String,
    pub driver: String,
    pub addr: Option<String>,
    pub bus: Option<String>,
    pub drive: Option<String>,
    pub serial_num: Option<String>,
    pub iothread: Option<String>,
    pub multifunction: Option<bool>,
    pub mq: Option<String>,
    pub queues: Option<u16>,
    pub boot_index: Option<u8>,
}

/// `,key=value` where there is a value, nothing where there is none.
pub open spec fn item_text(key: Seq<char>, value: Option<Seq<char>>) -> Seq<char> {
    match value {
        Some(v) => key + v,
        None => Seq::<char>::empty(),
    }
}

/// The option text that stands for a request to add a block device: the
/// driver, the identifier, and every parameter that the request gives.
pub open spec fn device_option_text(args: DeviceAddArgument) -> Seq<char> {
    args.driver@ + ",id="@ + args.id@ + item_text(",drive="@, text_of(args.drive)) + item_text(
        ",serial="@,
        text_of(args.serial_num),
    ) + item_text(",addr="@, text_of(args.addr)) + item_text(",bus="@, text_of(args.bus))
        + item_text(
        ",multifunction="@,
        match args.multifunction {
            Some(true) => Some("on"@),
            Some(false) => Some("off"@),
            None => None,
        },
    ) + item_text(",iothread="@, text_of(args.iothread)) + item_text(",mq="@, text_of(args.mq))
        + item_text(
        ",num-queues="@,
        match args.queues {
            Some(n) => Some(decimal(n as nat)),
            None => None,
        },
    ) + item_text(
        ",bootindex="@,
        match args.boot_index {
            Some(n) => Some(decimal(n as nat)),
            None => None,
        },
    )
}

fn append_item(text: &mut String, key: &str, value: &Option<String>)
    ensures
        final(text)@ == old(text)@ + item_text(key@, text_of(*value)),
{
    match value {
        Some(v) => {
            text.append(key);
            text.append(v.as_str());
            assert(text@ =~= old(text)@ + (key@ + v@));
        },
        None => {
            assert(text@ =~= old(text)@ + Seq::<char>::empty());
        },
    }
}

impl VmConfig {
    /// Adds the block device of a request to the devices of the
    /// configuration, in the form of an option of `-device`.
    pub fn add_blk_device_config(&mut self, args: &DeviceAddArgument)
        ensures
            final(self).drives == old(self).drives,
            final(self).pflashs == old(self).pflashs,
            final(self).chardev == old(self).chardev,
            final(self).devices@.len() == old(self).devices@.len() + 1,
            final(self).devices@.subrange(0, old(self).devices@.len() as int) == old(
                self,
            ).devices@,
            final(self).devices@.last().driver@ == args.driver@,
            final(self).devices@.last().options@ == device_option_text(*args),
    {
        let mut device_info: String = args.driver.clone();
        device_info.append(",id=");
        device_info.append(args.id.as_str());
        append_item(&mut device_info, ",drive=", &args.drive);
        append_item(&mut device_info, ",serial=", &args.serial_num);
        append_item(&mut device_info, ",addr=", &args.addr);
        append_item(&mut device_info, ",bus=", &args.bus);
        let multifunction: Option<String> = match args.multifunction {
            Some(true) => Some("on".to_owned()),
            Some(false) => Some("off".to_owned()),
            None => None,
        };
        append_item(&mut device_info, ",multifunction=", &multifunction);
        append_item(&mut device_info, ",iothread=", &args.iothread);
        append_item(&mut device_info, ",mq=", &args.mq);
        let queues: Option<String> = match args.queues {
            Some(n) => Some(decimal_text(n as u64)),
            None => None,
        };
        append_item(&mut device_info, ",num-queues=", &queues);
        let boot_index: Option<String> = match args.boot_index {
            Some(n) => Some(decimal_text(n as u64)),
            None => None,
        };
        append_item(&mut device_info, ",bootindex=", &boot_index);
        assert(device_info@ =~= device_option_text(*args));
        self.devices.push(DeviceEntry { driver: args.driver.clone(), options: device_info });
        assert(self.devices@.subrange(0, old(self).devices@.len() as int) =~= old(self).devices@);
    }
}

/// The place of a device on the PCI bus.
#[derive(Debug)]
pub struct PciBdf {
    /// Name of the bus.
    pub bus: String,
    /// Slot and function.
    pub addr: (u8, u8),
}

/// `s` without the `0x` that it begins with, however often.
pub open spec fn without_0x(s: Seq<char>) -> Seq<char>
    decreases s.len(),
{
    if s.len() >= 2 && s[0] == '0' && s[1] == 'x' {
        without_0x(s.subrange(2, s.len() as int))
    } else {
        s
    }
}

/// The number that stands in `s` in hexadecimal digits, with or without
/// `0x` before it, where it is `max` at most.
pub open spec fn hex_given(s: Seq<char>, max: nat) -> Option<nat> {
    number_value(without_0x(s), 16, max)
}

/// Slot and function of an address `slot` or `slot.function`: the slot is
/// below 32, the function below 8 and 0 where none is given.
pub open spec fn pci_df(addr: Seq<char>) -> Option<(u8, u8)> {
    let dot = find_from(addr, '.', 0);
    let slot = hex_given(addr.subrange(0, dot), 255);
    if dot >= addr.len() {
        match slot {
            Some(slot) => if slot <= 31 {
                Some((slot as u8, 0u8))
            } else {
                None
            },
            None => None,
        }
    } else {
        let rest = addr.subrange(dot + 1, addr.len() as int);
        let function = hex_given(rest, 255);
        if find_from(rest, '.', 0) < rest.len() {
            None
        } else {
            match (slot, function) {
                (Some(slot), Some(function)) => if slot <= 31 && function <= 7 {
                    Some((slot as u8, function as u8))
                } else {
                    None
                },
                _ => None,
            }
        }
    }
}

fn parse_hex(s: &str, max: u64) -> (r: Option<u64>)
    ensures
        match r {
            Some(n) => hex_given(s@, max as nat) == Some(n as nat),
            None => hex_given(s@, max as nat) is None,
        },
{
    let len: usize = s.unicode_len();
    let mut start: usize = 0;
    assert(s@.subrange(0, len as int) =~= s@);
    while len - start >= 2 && s.get_char(start) == '0' && s.get_char(start + 1) == 'x'
        invariant
            start <= len,
            len == s@.len(),
            without_0x(s@) == without_0x(s@.subrange(start as int, len as int)),
        decreases len - start,
    {
        assert(s@.subrange(start as int, len as int).subrange(2, len - start) =~= s@.subrange(
            start + 2,
            len as int,
        ));
        start = start + 2;
    }
    assert(s@.subrange(0, len as int) =~= s@);
    parse_number(s.substring_char(start, len), 16, max)
}

/// Slot and function of the address `addr`.
pub fn get_pci_df(addr: &str) -> (r: Result<(u8, u8), ConfigError>)
    ensures
        match pci_df(addr@) {
            Some(df) => r == Ok::<(u8, u8), ConfigError>(df),
            None => r is Err,
        },
{
    let len: usize = addr.unicode_len();
    let dot: usize = find_char(addr, '.', 0);
    let slot: u64 = match parse_hex(addr.substring_char(0, dot), 255) {
        Some(slot) => slot,
        None => {
            return Err(ConfigError::Other(joined("Failed to parse slot number: ", addr)));
        },
    };
    if slot > 31 {
        return Err(ConfigError::Other(joined("Invalid slot num: ", addr)));
    }
    if dot >= len {
        return Ok((slot as u8, 0));
    }
    let rest: &str = addr.substring_char(dot + 1, len);
    if find_char(rest, '.', 0) < rest.unicode_len() {
        return Err(
            ConfigError::Other(
                joined("The number of args for addr is supported to be no more than two: ", addr),
            ),
        );
    }
    let function: u64 = match parse_hex(rest, 255) {
        Some(function) => function,
        None => {
            return Err(ConfigError::Other(joined("Failed to parse function number: ", addr)));
        },
    };
    if function > 7 {
        return Err(ConfigError::Other(joined("Invalid function num: ", addr)));
    }
    Ok((slot as u8, function as u8))
}

/// The parameters of an option as far as the place on the bus goes.
pub open spec fn bdf_params(s: Seq<char>) -> Result<Seq<ParamView>, ConfigErrorView> {
    parsed(
        pushed(pushed(pushed(Seq::<ParamView>::empty(), ""@), "bus"@), "addr"@),
        "bdf"@,
        s,
        false,
    )
}

/// The place on the PCI bus that the option `pci_cfg` of a device names:
/// bus and address are both needed.
pub fn get_pci_bdf(pci_cfg: &str) -> (r: Result<PciBdf, ConfigError>)
    ensures
        match bdf_params(pci_cfg@) {
            Err(e) => r is Err && r->Err_0@ == e,
            Ok(ps) => match (raw_value(ps, "bus"@), raw_value(ps, "addr"@)) {
                (Some(bus), Some(addr)) => match pci_df(addr) {
                    Some(df) => r is Ok && r->Ok_0.bus@ == bus && r->Ok_0.addr == df,
                    None => r is Err,
                },
                _ => r is Err,
            },
        },
{
    let mut cmd_parser = CmdParser::new("bdf");
    cmd_parser.push("");
    cmd_parser.push("bus");
    cmd_parser.push("addr");
    match cmd_parser.get_parameters(pci_cfg) {
        Err(e) => {
            return Err(e);
        },
        Ok(()) => {},
    }
    let bus: String = match cmd_parser.get_value_string("bus") {
        Some(bus) => bus,
        None => {
            return Err(ConfigError::Other("Bus not specified for pci device".to_owned()));
        },
    };
    let addr: (u8, u8) = match cmd_parser.get_value_string("addr") {
        Some(addr) => match get_pci_df(addr.as_str()) {
            Ok(df) => df,
            Err(e) => {
                return Err(e);
            },
        },
        None => {
            return Err(ConfigError::Other("No addr found for pci device".to_owned()));
        },
    };
    Ok(PciBdf { bus, addr })
}

} // verus!
