use hv_core::machine::address::pio_in;
use hv_core::machine::boot::{
    boot_loader_config, load_boot_source, BootGdtSegment, BootLoader, BootSource, Segment,
};
use hv_core::machine::layout::{arch_ram_ranges, mem_layout, LayoutEntryType};
use hv_core::machine::cpu::CpuTopology;
use hv_core::machine::lifecycle::{
    KvmVmState, LifecycleAction, LifecycleError, RunState, StatusInfo, StdMachine,
};
use hv_core::machine::realize::{
    add_device_error, add_devices, add_serial_device, create_error, pci_host_regions,
    realize_first, realize_next, sysbus_mmio_region, vcpu_ids, CreateStep, DeviceConfig,
    DeviceKind, MachineError, RealizeNext, RealizeStep, KVM_PIT_SPEAKER_DUMMY, TSS_ADDRESS,
};

fn machine() -> StdMachine {
    let source = BootSource {
        kernel_file: "vmlinuz".to_string(),
        kernel_cmdline: "console=ttyS0".to_string(),
        initrd: None,
    };
    StdMachine::new(1, source)
}

const MIB: u64 = 1 << 20;
const GIB: u64 = 1 << 30;

#[test]
fn boot_minimal_vm_has_one_ram_range() {
    assert_eq!(arch_ram_ranges(256 * MIB), vec![(0, 256 * MIB)]);
    assert_eq!(vcpu_ids(1), vec![0]);
    let vm = machine();
    let loader = vm.boot_loader_config();
    assert_eq!(loader.kernel, "vmlinuz");
    assert_eq!(loader.kernel_cmdline, "console=ttyS0");
    assert_eq!(loader.cpu_count, 1);
    assert!(!loader.prot64_mode);
    // The interrupt controllers and the timer are made right after memory.
    assert_eq!(realize_first(), RealizeStep::InitMemory);
    assert_eq!(
        realize_next(RealizeStep::InitMemory, true),
        RealizeNext::Run(RealizeStep::CreateIrqChip)
    );
    assert_eq!(
        realize_next(RealizeStep::CreateIrqChip, true),
        RealizeNext::Run(RealizeStep::CreatePit)
    );
    assert_eq!(
        realize_next(RealizeStep::CreatePit, true),
        RealizeNext::Run(RealizeStep::CreateVcpus)
    );
    let layout = BootLoader {
        boot_ip: 0x0010_0000,
        boot_sp: 0x8000,
        boot_selector: 0x10,
        boot_pml4_addr: 0x9000,
        zero_page_addr: 0x7000,
        segments: BootGdtSegment {
            code_segment: segment(0x10),
            data_segment: segment(0x18),
            gdt_base: 0x500,
            gdt_limit: 31,
            idt_base: 0x520,
            idt_limit: 7,
        },
    };
    let boot = load_boot_source(&layout);
    assert_eq!(boot.boot_ip, layout.boot_ip);
    assert_eq!(boot.boot_sp, 0x8000);
    assert_eq!(boot.boot_selector, 0x10);
    assert_eq!(boot.zero_page, 0x7000);
    assert_eq!(boot.pml4_start, 0x9000);
    assert_eq!(boot.gdt_base, 0x500);
    assert_eq!(boot.gdt_size, 31);
    assert_eq!(boot.idt_base, 0x520);
    assert_eq!(boot.idt_size, 7);
    assert_eq!(boot.code_segment, segment(0x10));
    assert_eq!(boot.data_segment, segment(0x18));
    assert!(!boot.prot64_mode);
}

fn segment(selector: u16) -> Segment {
    Segment {
        base: 0,
        limit: 0xffff_ffff,
        selector,
        type_: 0xb,
        present: 1,
        dpl: 0,
        db: 1,
        s: 1,
        l: 0,
        g: 1,
        avl: 0,
        unusable: 0,
    }
}

#[test]
fn ram_fills_the_space_below_the_gap_first() {
    assert_eq!(arch_ram_ranges(0), vec![(0, 0)]);
    assert_eq!(arch_ram_ranges(3 * GIB), vec![(0, 0xC000_0000)]);
    assert_eq!(arch_ram_ranges(3 * GIB + 1), vec![(0, 0xC000_0000), (0x1_0000_0000, 1)]);
    assert_eq!(arch_ram_ranges(8 * GIB), vec![(0, 0xC000_0000), (0x1_0000_0000, 5 * GIB)]);
    assert_eq!(
        arch_ram_ranges(u64::MAX),
        vec![(0, 0xC000_0000), (0x1_0000_0000, u64::MAX - 0xC000_0000)]
    );
}

#[test]
fn ram_ranges_add_up_and_stay_out_of_the_device_windows() {
    for mem in [0, 1, 256 * MIB, 3 * GIB - 1, 3 * GIB, 3 * GIB + 1, 4 * GIB, 64 * GIB] {
        let ranges = arch_ram_ranges(mem);
        assert_eq!(ranges.iter().map(|r| r.1).sum::<u64>(), mem);
        for (start, size) in ranges {
            for entry in [
                LayoutEntryType::PcieMmio,
                LayoutEntryType::Mmio,
                LayoutEntryType::IoApic,
                LayoutEntryType::LocalApic,
            ] {
                let (base, len) = mem_layout(entry);
                assert!(start + size <= base || base + len <= start);
            }
        }
    }
}

#[test]
fn memory_layout_is_fixed() {
    assert_eq!(mem_layout(LayoutEntryType::MemBelow4g), (0, 0xC000_0000));
    assert_eq!(mem_layout(LayoutEntryType::PcieEcam), (0xB000_0000, 0x1000_0000));
    assert_eq!(mem_layout(LayoutEntryType::PcieMmio), (0xC000_0000, 0x3000_0000));
    assert_eq!(mem_layout(LayoutEntryType::Mmio), (0xF010_0000, 0x200));
    assert_eq!(mem_layout(LayoutEntryType::IoApic), (0xFEC0_0000, 0x10_0000));
    assert_eq!(mem_layout(LayoutEntryType::LocalApic), (0xFEE0_0000, 0x10_0000));
    assert_eq!(mem_layout(LayoutEntryType::MemAbove4g), (0x1_0000_0000, 0x80_0000_0000));
}

#[test]
fn port_0x61_reads_0x20_whatever_was_there() {
    for before in [0x00u8, 0x20, 0x55, 0xff] {
        let mut data = [before];
        assert_eq!(pio_in(0x61, &mut data), Some(true));
        assert_eq!(data[0], 0x20);
    }
    let mut wide = [0xaa, 0xbb, 0xcc, 0xdd];
    assert_eq!(pio_in(0x61, &mut wide), Some(true));
    assert_eq!(wide, [0x20, 0xbb, 0xcc, 0xdd]);
}

#[test]
fn other_ports_go_to_the_io_space() {
    for port in [0x60u64, 0x62, 0x3f8, 0xcf8, 0xcfc, 0] {
        let mut data = [0x5a, 0xa5];
        assert_eq!(pio_in(port, &mut data), None);
        assert_eq!(data, [0x5a, 0xa5]);
    }
    let mut none: [u8; 0] = [];
    assert_eq!(pio_in(0x3f8, &mut none), None);
}

#[test]
fn lifecycle_run_pause_resume_destroy() {
    let mut vm = machine();
    assert_eq!(vm.vm_state, KvmVmState::Created);
    assert!(vm.run(false).is_ok());
    assert_eq!(vm.vm_state, KvmVmState::Running);
    assert!(vm.pause());
    assert_eq!(vm.vm_state, KvmVmState::Paused);
    assert!(vm.resume());
    assert_eq!(vm.vm_state, KvmVmState::Running);
    assert!(!vm.loop_should_exit());
    assert!(vm.destroy());
    assert_eq!(vm.vm_state, KvmVmState::Shutdown);
    assert!(vm.loop_should_exit());
    let events: Vec<LifecycleAction> = vm
        .pending
        .iter()
        .copied()
        .filter(|a| matches!(a, LifecycleAction::EmitStop | LifecycleAction::EmitResume))
        .collect();
    assert_eq!(events, vec![LifecycleAction::EmitStop, LifecycleAction::EmitResume]);
    assert_eq!(
        vm.pending,
        vec![
            LifecycleAction::StartVcpus,
            LifecycleAction::PauseVcpus,
            LifecycleAction::EmitStop,
            LifecycleAction::ResumeVcpus,
            LifecycleAction::EmitResume,
            LifecycleAction::DestroyVcpus,
            LifecycleAction::SignalPowerButton,
        ]
    );
    let signals = vm
        .pending
        .iter()
        .filter(|a| matches!(a, LifecycleAction::SignalPowerButton))
        .count();
    assert_eq!(signals, 1);
}

#[test]
fn pause_of_a_machine_that_does_not_run_is_refused() {
    let mut vm = machine();
    assert!(!vm.pause());
    assert_eq!(vm.vm_state, KvmVmState::Created);
    assert!(vm.pending.is_empty());
    assert!(vm.run(true).is_ok());
    assert_eq!(vm.vm_state, KvmVmState::Paused);
    assert_eq!(vm.pending, vec![LifecycleAction::StartVcpusPaused]);
    assert!(!vm.pause());
    assert_eq!(vm.pending, vec![LifecycleAction::StartVcpusPaused]);
    assert!(vm.destroy());
    let before = vm.pending.clone();
    assert!(!vm.pause());
    assert!(!vm.resume());
    assert_eq!(vm.vm_state, KvmVmState::Shutdown);
    assert_eq!(vm.pending, before);
}

#[test]
fn resume_of_a_machine_that_is_not_paused_is_refused() {
    let mut vm = machine();
    assert!(!vm.resume());
    assert!(vm.run(false).is_ok());
    assert!(!vm.resume());
    assert_eq!(vm.vm_state, KvmVmState::Running);
    assert_eq!(vm.pending, vec![LifecycleAction::StartVcpus]);
}

#[test]
fn run_starts_a_created_machine_only() {
    let mut vm = machine();
    assert!(vm.run(false).is_ok());
    assert_eq!(vm.run(false), Err(LifecycleError::StateCheckFailed));
    assert_eq!(vm.run(true), Err(LifecycleError::StateCheckFailed));
    assert_eq!(vm.vm_state, KvmVmState::Running);
}

#[test]
fn state_transfer_checks_state_and_graph() {
    let mut vm = machine();
    assert_eq!(
        vm.vm_state_transfer(KvmVmState::Running, KvmVmState::Paused),
        Err(LifecycleError::StateCheckFailed)
    );
    assert_eq!(
        vm.vm_state_transfer(KvmVmState::Created, KvmVmState::Created),
        Err(LifecycleError::IllegalTransition)
    );
    assert!(vm.notify_lifecycle(KvmVmState::Created, KvmVmState::Running));
    assert!(!vm.notify_lifecycle(KvmVmState::Running, KvmVmState::Created));
    assert!(!vm.notify_lifecycle(KvmVmState::Running, KvmVmState::Running));
    assert!(vm.notify_lifecycle(KvmVmState::Running, KvmVmState::Shutdown));
    assert!(vm.notify_lifecycle(KvmVmState::Shutdown, KvmVmState::Shutdown));
    assert!(!vm.notify_lifecycle(KvmVmState::Shutdown, KvmVmState::Running));
}

#[test]
fn destroy_works_from_every_state() {
    let mut created = machine();
    assert!(created.destroy());
    assert_eq!(
        created.pending,
        vec![LifecycleAction::DestroyVcpus, LifecycleAction::SignalPowerButton]
    );
    let mut paused = machine();
    paused.run(true).unwrap();
    assert!(paused.destroy());
    assert_eq!(paused.vm_state, KvmVmState::Shutdown);
    assert!(paused.destroy());
    assert_eq!(paused.pending.len(), 5);
}

#[test]
fn realize_steps_come_in_order() {
    let mut steps = vec![realize_first()];
    loop {
        match realize_next(*steps.last().unwrap(), true) {
            RealizeNext::Run(step) => steps.push(step),
            RealizeNext::Done => break,
            RealizeNext::Abort(_) => panic!("a step that went well ended the work"),
        }
    }
    assert_eq!(
        steps,
        vec![
            RealizeStep::InitMemory,
            RealizeStep::CreateIrqChip,
            RealizeStep::CreatePit,
            RealizeStep::CreateVcpus,
            RealizeStep::InitPciHost,
            RealizeStep::AddDevices,
            RealizeStep::LoadKernel,
            RealizeStep::SetTssAddress,
            RealizeStep::RegisterPowerButton,
        ]
    );
}

#[test]
fn a_failed_step_ends_the_work_with_its_error() {
    let cases = [
        (RealizeStep::InitMemory, None),
        (RealizeStep::CreateIrqChip, Some(MachineError::CrtIrqchipErr)),
        (RealizeStep::CreatePit, Some(MachineError::CrtPitErr)),
        (RealizeStep::CreateVcpus, None),
        (RealizeStep::InitPciHost, Some(MachineError::InitPCIeHostErr)),
        (RealizeStep::AddDevices, None),
        (RealizeStep::LoadKernel, Some(MachineError::LoadKernErr)),
        (RealizeStep::SetTssAddress, Some(MachineError::SetTssErr)),
        (RealizeStep::RegisterPowerButton, Some(MachineError::InitPwrBtnErr)),
    ];
    for (step, error) in cases {
        assert_eq!(realize_next(step, false), RealizeNext::Abort(error));
    }
}

#[test]
fn what_the_steps_are_given() {
    assert_eq!(KVM_PIT_SPEAKER_DUMMY, 1);
    assert_eq!(TSS_ADDRESS, 0xfffb_d000);
    let pci = pci_host_regions();
    assert_eq!(pci.ecam_base, 0xB000_0000);
    assert_eq!(pci.ecam_size, 0x1000_0000);
    assert_eq!(pci.config_addr_port, 0xcf8);
    assert_eq!(pci.config_data_port, 0xcfc);
    assert_eq!(pci.port_size, 4);
    assert_eq!(sysbus_mmio_region(), (0xF010_0000, 0xFEC0_0000));
    assert_eq!(add_serial_device(true), (0x3f8, 8, true));
    assert_eq!(add_serial_device(false), (0x3f8, 8, false));
    assert_eq!(vcpu_ids(0), Vec::<u8>::new());
    assert_eq!(vcpu_ids(4), vec![0, 1, 2, 3]);
    assert_eq!(vcpu_ids(255).len(), 255);
}

#[test]
fn devices_are_added_in_a_fixed_order() {
    let cfg = DeviceConfig {
        serial: true,
        vsock: true,
        drives: 2,
        nets: 1,
        consoles: 0,
        balloon: true,
    };
    assert_eq!(
        add_devices(&cfg),
        vec![
            DeviceKind::Serial,
            DeviceKind::Vsock,
            DeviceKind::Block,
            DeviceKind::Block,
            DeviceKind::Net,
            DeviceKind::Balloon,
        ]
    );
    let none = DeviceConfig {
        serial: false,
        vsock: false,
        drives: 0,
        nets: 0,
        consoles: 0,
        balloon: false,
    };
    assert!(add_devices(&none).is_empty());
}

#[test]
fn boot_loader_is_given_the_gap_and_the_interrupt_controllers() {
    let source = BootSource {
        kernel_file: "vmlinuz".to_string(),
        kernel_cmdline: "console=ttyS0".to_string(),
        initrd: Some("initrd.img".to_string()),
    };
    let config = boot_loader_config(&source, 1);
    assert_eq!(config.kernel, "vmlinuz");
    assert_eq!(config.kernel_cmdline, "console=ttyS0");
    assert_eq!(config.initrd, Some("initrd.img".to_string()));
    assert_eq!(config.cpu_count, 1);
    assert_eq!(config.gap_range, (0xC000_0000, 0x4000_0000));
    assert_eq!(config.ioapic_addr, 0xFEC0_0000);
    assert_eq!(config.lapic_addr, 0xFEE0_0000);
    assert!(!config.prot64_mode);
    let bare = BootSource {
        kernel_file: "bzImage".to_string(),
        kernel_cmdline: String::new(),
        initrd: None,
    };
    assert_eq!(boot_loader_config(&bare, 8).initrd, None);
    assert_eq!(boot_loader_config(&bare, 8).cpu_count, 8);
}

#[test]
fn status_of_the_machine() {
    let mut vm = machine();
    assert_eq!(vm.query_status(), None);
    vm.run(false).unwrap();
    assert_eq!(
        vm.query_status(),
        Some(StatusInfo { singlestep: false, running: true, status: RunState::Running })
    );
    vm.pause();
    assert_eq!(
        vm.query_status(),
        Some(StatusInfo { singlestep: false, running: true, status: RunState::Paused })
    );
    vm.destroy();
    assert_eq!(vm.query_status(), None);
}

#[test]
fn cpu_topology() {
    let topo = CpuTopology::new(4);
    assert_eq!((topo.sockets, topo.cores, topo.threads), (4, 1, 1));
    assert_eq!((topo.nrcpus, topo.max_cpus), (4, 4));
    assert_eq!(topo.online_mask, vec![1, 1, 1, 1]);
    assert_eq!(topo.get_mask(3), 1);
    assert_eq!(topo.get_topo(0), (0, 0, 0));
    assert_eq!(topo.get_topo(3), (3, 0, 0));
    let wide = CpuTopology {
        sockets: 2,
        cores: 4,
        threads: 2,
        nrcpus: 16,
        max_cpus: 16,
        online_mask: vec![1; 16],
    };
    assert_eq!(wide.get_topo(0), (0, 0, 0));
    assert_eq!(wide.get_topo(1), (0, 0, 1));
    assert_eq!(wide.get_topo(7), (0, 3, 1));
    assert_eq!(wide.get_topo(8), (1, 0, 0));
    assert_eq!(wide.get_topo(13), (1, 2, 1));
    assert!(CpuTopology::new(0).query_cpus().is_empty());
    assert_eq!(CpuTopology::new(255).query_cpus().len(), 255);
}

#[test]
fn query_cpus_lists_the_cpus_that_are_online() {
    let mut topo = CpuTopology::new(4);
    topo.online_mask[1] = 0;
    topo.online_mask[3] = 2;
    let cpus = topo.query_cpus();
    assert_eq!(cpus.len(), 2);
    assert_eq!(cpus[0].index, 0);
    assert_eq!(cpus[0].qom_path, "/machine/unattached/device[0]");
    assert_eq!((cpus[0].socket_id, cpus[0].core_id, cpus[0].thread_id), (0, 0, 0));
    assert_eq!(cpus[1].index, 2);
    assert_eq!(cpus[1].qom_path, "/machine/unattached/device[2]");
    assert_eq!((cpus[1].socket_id, cpus[1].core_id, cpus[1].thread_id), (2, 0, 0));
    let all = CpuTopology::new(12).query_cpus();
    assert_eq!(all[11].qom_path, "/machine/unattached/device[11]");
}

#[test]
fn a_new_machine() {
    let source = BootSource {
        kernel_file: "vmlinuz".to_string(),
        kernel_cmdline: "console=ttyS0".to_string(),
        initrd: Some("initrd".to_string()),
    };
    let vm = StdMachine::new(2, source);
    assert_eq!(vm.vm_state, KvmVmState::Created);
    assert!(vm.pending.is_empty());
    assert_eq!(vm.cpu_topo.nrcpus, 2);
    assert_eq!(vm.cpu_topo.online_mask, vec![1, 1]);
    assert_eq!(vm.boot_source.kernel_file, "vmlinuz");
    let config = vm.boot_loader_config();
    assert_eq!(config.kernel, "vmlinuz");
    assert_eq!(config.initrd, Some("initrd".to_string()));
    assert_eq!(config.kernel_cmdline, "console=ttyS0");
    assert_eq!(config.cpu_count, 2);
    assert_eq!(config.gap_range, (0xC000_0000, 0x4000_0000));
    let cpus = vm.query_cpus();
    assert_eq!(cpus.len(), 2);
    assert_eq!(cpus[1].qom_path, "/machine/unattached/device[1]");
}

#[test]
fn errors_of_making_a_machine_and_of_adding_devices() {
    assert_eq!(create_error(CreateStep::IoSpace), MachineError::CrtIoSpaceErr);
    assert_eq!(create_error(CreateStep::MemSpace), MachineError::CrtMemSpaceErr);
    assert_eq!(create_error(CreateStep::PowerButton), MachineError::InitPwrBtnErr);
    assert_eq!(
        add_device_error(DeviceKind::Block, false),
        (MachineError::AddDevErr(DeviceKind::Block), None)
    );
    assert_eq!(
        add_device_error(DeviceKind::Serial, true),
        (MachineError::AddDevErr(DeviceKind::Serial), Some(MachineError::RegNotifierErr))
    );
    assert_eq!(
        add_device_error(DeviceKind::Net, true),
        (MachineError::AddDevErr(DeviceKind::Net), None)
    );
    assert_eq!(
        add_device_error(DeviceKind::Serial, false),
        (MachineError::AddDevErr(DeviceKind::Serial), None)
    );
}
