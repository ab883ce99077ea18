//! Putting the machine together: the steps in their order, what each step
//! is given, and the error that each step ends the work with.

use crate::machine::layout::{LayoutEntryType, layout_entry, mem_layout};
use vstd::prelude::*;

verus! {

/// Flag of the interval timer: the speaker port is a dummy.
pub const KVM_PIT_SPEAKER_DUMMY: u32 = 1;

/// Where the task state segment of the guest lies.
pub const TSS_ADDRESS: usize = 0xfffb_d000;

/// I/O port that holds the configuration address register of the PCI host.
pub const PCI_CONFIG_ADDR_PORT: u64 = 0xcf8;

/// I/O port that holds the configuration data register of the PCI host.
pub const PCI_CONFIG_DATA_PORT: u64 = 0xcfc;

/// Vendor of the memory controller hub, the device of the root bus.
pub const VENDOR_ID_INTEL: u16 = 0x8086;

/// First I/O port of the serial device.
pub const SERIAL_ADDR: u64 = 0x3f8;

/// Number of I/O ports of the serial device.
pub const SERIAL_PORTS: u64 = 8;

/// Size of the I/O port space.
pub const SYS_IO_SIZE: u64 = 0x1_0000;

/// Size of the memory space.
pub const SYS_MEM_SIZE: u64 = 0xffff_ffff_ffff_ffff;

/// The kinds of device that a machine can be given.
#[derive(Clone, Copy, Debug, PartialEq, Eq, Structural)]
pub enum DeviceKind {
    Serial,
    Vsock,
    Block,
    Net,
    Console,
    Balloon,
}

/// Why the machine could not be put together.
#[derive(Clone, Copy, Debug, PartialEq, Eq, Structural)]
pub enum MachineError {
    CrtMemSpaceErr,
    CrtIoSpaceErr,
    CrtIrqchipErr,
    CrtPitErr,
    SetTssErr,
    LoadKernErr,
    AddDevErr(DeviceKind),
    InitPwrBtnErr,
    InitPCIeHostErr,
    RegNotifierErr,
}

/// What a machine is made of before it is put together.
#[derive(Clone, Copy, Debug, PartialEq, Eq, Structural)]
pub enum CreateStep {
    /// The space of I/O ports, `SYS_IO_SIZE` bytes.
    IoSpace,
    /// The space of memory, `SYS_MEM_SIZE` bytes.
    MemSpace,
    /// The power button.
    PowerButton,
}

/// The error that making a machine ends with where `step` fails.
pub open spec fn create_error_of(step: CreateStep) -> MachineError {
    match step {
        CreateStep::IoSpace => MachineError::CrtIoSpaceErr,
        CreateStep::MemSpace => MachineError::CrtMemSpaceErr,
        CreateStep::PowerButton => MachineError::InitPwrBtnErr,
    }
}

/// The error that making a machine ends with where `step` fails.
pub fn create_error(step: CreateStep) -> (e: MachineError)
    ensures
        e == create_error_of(step),
{
    match step {
        CreateStep::IoSpace => MachineError::CrtIoSpaceErr,
        CreateStep::MemSpace => MachineError::CrtMemSpaceErr,
        CreateStep::PowerButton => MachineError::InitPwrBtnErr,
    }
}

/// The steps of putting the machine together.
#[derive(Clone, Copy, Debug, PartialEq, Eq, Structural)]
pub enum RealizeStep {
    /// Map the RAM of the guest.
    InitMemory,
    /// Create the interrupt controllers in the kernel.
    CreateIrqChip,
    /// Create the interval timer in the kernel.
    CreatePit,
    /// Create a descriptor for every virtual CPU.
    CreateVcpus,
    /// Register the PCI host and its root device.
    InitPciHost,
    /// Add the devices of the configuration.
    AddDevices,
    /// Load the kernel and set the virtual CPUs up to boot it.
    LoadKernel,
    /// Set the address of the task state segment.
    SetTssAddress,
    /// Connect the power button.
    RegisterPowerButton,
}

/// The steps in their order.
pub open spec fn realize_order() -> Seq<RealizeStep> {
    seq![
        RealizeStep::InitMemory,
        RealizeStep::CreateIrqChip,
        RealizeStep::CreatePit,
        RealizeStep::CreateVcpus,
        RealizeStep::InitPciHost,
        RealizeStep::AddDevices,
        RealizeStep::LoadKernel,
        RealizeStep::SetTssAddress,
        RealizeStep::RegisterPowerButton,
    ]
}

/// The place of a step in the order.
pub open spec fn step_number(step: RealizeStep) -> int {
    match step {
        RealizeStep::InitMemory => 0,
        RealizeStep::CreateIrqChip => 1,
        RealizeStep::CreatePit => 2,
        RealizeStep::CreateVcpus => 3,
        RealizeStep::InitPciHost => 4,
        RealizeStep::AddDevices => 5,
        RealizeStep::LoadKernel => 6,
        RealizeStep::SetTssAddress => 7,
        RealizeStep::RegisterPowerButton => 8,
    }
}

/// The error that a failed step ends the work with. A step without one
/// passes on the error of what it called.
pub open spec fn step_error(step: RealizeStep) -> Option<MachineError> {
    match step {
        RealizeStep::CreateIrqChip => Some(MachineError::CrtIrqchipErr),
        RealizeStep::CreatePit => Some(MachineError::CrtPitErr),
        RealizeStep::InitPciHost => Some(MachineError::InitPCIeHostErr),
        RealizeStep::LoadKernel => Some(MachineError::LoadKernErr),
        RealizeStep::SetTssAddress => Some(MachineError::SetTssErr),
        RealizeStep::RegisterPowerButton => Some(MachineError::InitPwrBtnErr),
        _ => None,
    }
}

/// What follows a step.
#[derive(Clone, Copy, Debug, PartialEq, Eq, Structural)]
pub enum RealizeNext {
    /// Carry out this step.
    Run(RealizeStep),
    /// The machine is put together.
    Done,
    /// The work ends here. Nothing is undone and nothing is tried again.
    Abort(Option<MachineError>),
}

/// What follows `step`, which went well where `ok`.
pub open spec fn after_step(step: RealizeStep, ok: bool) -> RealizeNext {
    if !ok {
        RealizeNext::Abort(step_error(step))
    } else if step_number(step) + 1 < realize_order().len() {
        RealizeNext::Run(realize_order()[step_number(step) + 1])
    } else {
        RealizeNext::Done
    }
}

/// The first step.
pub fn realize_first() -> (step: RealizeStep)
    ensures
        step == realize_order()[0],
{
    RealizeStep::InitMemory
}

/// What follows `step`, which went well where `ok`: the next step in the
/// order, the end of the work after the last step, and the end of the work
/// with the error of the step where it failed.
pub fn realize_next(step: RealizeStep, ok: bool) -> (next: RealizeNext)
    ensures
        next == after_step(step, ok),
{
    if !ok {
        return RealizeNext::Abort(
            match step {
                RealizeStep::CreateIrqChip => Some(MachineError::CrtIrqchipErr),
                RealizeStep::CreatePit => Some(MachineError::CrtPitErr),
                RealizeStep::InitPciHost => Some(MachineError::InitPCIeHostErr),
                RealizeStep::LoadKernel => Some(MachineError::LoadKernErr),
                RealizeStep::SetTssAddress => Some(MachineError::SetTssErr),
                RealizeStep::RegisterPowerButton => Some(MachineError::InitPwrBtnErr),
                _ => None,
            },
        );
    }
    match step {
        RealizeStep::InitMemory => RealizeNext::Run(RealizeStep::CreateIrqChip),
        RealizeStep::CreateIrqChip => RealizeNext::Run(RealizeStep::CreatePit),
        RealizeStep::CreatePit => RealizeNext::Run(RealizeStep::CreateVcpus),
        RealizeStep::CreateVcpus => RealizeNext::Run(RealizeStep::InitPciHost),
        RealizeStep::InitPciHost => RealizeNext::Run(RealizeStep::AddDevices),
        RealizeStep::AddDevices => RealizeNext::Run(RealizeStep::LoadKernel),
        RealizeStep::LoadKernel => RealizeNext::Run(RealizeStep::SetTssAddress),
        RealizeStep::SetTssAddress => RealizeNext::Run(RealizeStep::RegisterPowerButton),
        RealizeStep::RegisterPowerButton => RealizeNext::Done,
    }
}

/// Every step stands once in the order, at its number; while the steps go
/// well they follow each other in the order, and the work is done after
/// the last. A step that fails ends the work.
pub proof fn lemma_realize_order(step: RealizeStep)
    ensures
        0 <= step_number(step) < realize_order().len(),
        realize_order()[step_number(step)] == step,
        after_step(step, false) is Abort,
        step_number(step) < 8 ==> after_step(step, true) == RealizeNext::Run(
            realize_order()[step_number(step) + 1],
        ),
        step_number(step) == 8 ==> after_step(step, true) == RealizeNext::Done,
{
}

/// The registers of the PCI host: the window of memory-mapped configuration
/// by base and size, and the two configuration ports, each four bytes wide.
#[derive(Clone, Copy, Debug, PartialEq, Eq, Structural)]
pub struct PciHostRegions {
    pub ecam_base: u64,
    pub ecam_size: u64,
    pub config_addr_port: u64,
    pub config_data_port: u64,
    pub port_size: u64,
}

/// The registers of the PCI host.
pub fn pci_host_regions() -> (r: PciHostRegions)
    ensures
        r.ecam_base == layout_entry(LayoutEntryType::PcieEcam).0,
        r.ecam_size == layout_entry(LayoutEntryType::PcieEcam).1,
        r.config_addr_port == PCI_CONFIG_ADDR_PORT,
        r.config_data_port == PCI_CONFIG_DATA_PORT,
        r.port_size == 4,
{
    let ecam = mem_layout(LayoutEntryType::PcieEcam);
    PciHostRegions {
        ecam_base: ecam.0,
        ecam_size: ecam.1,
        config_addr_port: PCI_CONFIG_ADDR_PORT,
        config_data_port: PCI_CONFIG_DATA_PORT,
        port_size: 4,
    }
}

/// The range of memory that the system bus hands out to memory-mapped
/// devices, by start and end: from the base of the window for them to the
/// base of the I/O interrupt controller.
pub fn sysbus_mmio_region() -> (r: (u64, u64))
    ensures
        r.0 == layout_entry(LayoutEntryType::Mmio).0,
        r.1 == layout_entry(LayoutEntryType::IoApic).0,
{
    (mem_layout(LayoutEntryType::Mmio).0, mem_layout(LayoutEntryType::IoApic).0)
}

/// The identifiers of the virtual CPUs of a machine with `nr_cpus` of them.
pub fn vcpu_ids(nr_cpus: u8) -> (ids: Vec<u8>)
    ensures
        ids@.len() == nr_cpus,
        forall|i: int| 0 <= i < nr_cpus ==> ids@[i] == i,
{
    let mut ids: Vec<u8> = Vec::new();
    let mut id: u8 = 0;
    while id < nr_cpus
        invariant
            id <= nr_cpus,
            ids@.len() == id,
            forall|i: int| 0 <= i < id ==> ids@[i] == i,
        decreases nr_cpus - id,
    {
        ids.push(id);
        id = id + 1;
    }
    ids
}

/// The devices of a configuration, as far as their number and kind go.
#[derive(Clone, Copy, Debug, PartialEq, Eq, Structural)]
pub struct DeviceConfig {
    /// Whether there is a serial device.
    pub serial: bool,
    /// Whether there is a vsock device.
    pub vsock: bool,
    /// Number of drives.
    pub drives: usize,
    /// Number of network interfaces.
    pub nets: usize,
    /// Number of consoles.
    pub consoles: usize,
    /// Whether there is a balloon device.
    pub balloon: bool,
}

/// `n` devices of one kind.
pub open spec fn devices_of(kind: DeviceKind, n: int) -> Seq<DeviceKind> {
    Seq::new(n as nat, |i: int| kind)
}

/// The devices of a configuration in the order in which they are added: the
/// serial device, the vsock device, the drives, the network interfaces, the
/// consoles, the balloon.
pub open spec fn device_order(cfg: DeviceConfig) -> Seq<DeviceKind> {
    devices_of(
        DeviceKind::Serial,
        if cfg.serial {
            1
        } else {
            0
        },
    ) + devices_of(
        DeviceKind::Vsock,
        if cfg.vsock {
            1
        } else {
            0
        },
    ) + devices_of(DeviceKind::Block, cfg.drives as int) + devices_of(
        DeviceKind::Net,
        cfg.nets as int,
    ) + devices_of(DeviceKind::Console, cfg.consoles as int) + devices_of(
        DeviceKind::Balloon,
        if cfg.balloon {
            1
        } else {
            0
        },
    )
}

fn push_devices(plan: &mut Vec<DeviceKind>, kind: DeviceKind, n: usize)
    ensures
        final(plan)@ == old(plan)@ + devices_of(kind, n as int),
{
    let mut i: usize = 0;
    while i < n
        invariant
            i <= n,
            plan@ == old(plan)@ + devices_of(kind, i as int),
        decreases n - i,
    {
        plan.push(kind);
        i = i + 1;
        assert(plan@ =~= old(plan)@ + devices_of(kind, i as int));
    }
}

/// The devices of a configuration in the order in which they are added. A
/// device that cannot be added ends the work with `AddDevErr` of its kind.
pub fn add_devices(cfg: &DeviceConfig) -> (plan: Vec<DeviceKind>)
    ensures
        plan@ == device_order(*cfg),
{
    let mut plan: Vec<DeviceKind> = Vec::new();
    push_devices(
        &mut plan,
        DeviceKind::Serial,
        if cfg.serial {
            1
        } else {
            0
        },
    );
    push_devices(
        &mut plan,
        DeviceKind::Vsock,
        if cfg.vsock {
            1
        } else {
            0
        },
    );
    push_devices(&mut plan, DeviceKind::Block, cfg.drives);
    push_devices(&mut plan, DeviceKind::Net, cfg.nets);
    push_devices(&mut plan, DeviceKind::Console, cfg.consoles);
    push_devices(
        &mut plan,
        DeviceKind::Balloon,
        if cfg.balloon {
            1
        } else {
            0
        },
    );
    plan
}

/// The error that adding the devices ends with where a device of kind
/// `kind` cannot be added. Where it is the watch on the input of the
/// serial device that cannot be set up, the cause is `RegNotifierErr`.
pub fn add_device_error(kind: DeviceKind, notifier_failed: bool) -> (r: (
    MachineError,
    Option<MachineError>,
))
    ensures
        r.0 == MachineError::AddDevErr(kind),
        r.1 == (if kind == DeviceKind::Serial && notifier_failed {
            Some(MachineError::RegNotifierErr)
        } else {
            None
        }),
{
    let cause: Option<MachineError> = if kind == DeviceKind::Serial && notifier_failed {
        Some(MachineError::RegNotifierErr)
    } else {
        None
    };
    (MachineError::AddDevErr(kind), cause)
}

/// What the serial device is given: its first port, the number of its
/// ports, and whether its input is to be watched by the event loop, which
/// it is where the device is bound to the standard streams.
pub fn add_serial_device(stdio: bool) -> (r: (u64, u64, bool))
    ensures
        r == (SERIAL_ADDR, SERIAL_PORTS, stdio),
{
    (SERIAL_ADDR, SERIAL_PORTS, stdio)
}

} // verus!
