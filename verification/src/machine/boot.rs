//! What the boot loader is given and what the first virtual CPU is given in
//! turn.

use crate::machine::layout::{GAP_END, GAP_START, LayoutEntryType, layout_entry, mem_layout};
use vstd::prelude::*;

verus! {

/// The kernel to boot.
#[derive(Clone, Debug)]
pub struct BootSource {
    /// Path of the kernel image.
    pub kernel_file: String,
    /// Kernel command line.
    pub kernel_cmdline: String,
    /// Path of the initial RAM disk, if there is one.
    pub initrd: Option<String>,
}

/// What the boot loader is given.
#[derive(Debug)]
pub struct BootLoaderConfig {
    pub kernel: String,
    pub initrd: Option<String>,
    pub kernel_cmdline: String,
    pub cpu_count: u8,
    /// The gap in RAM below 4 GiB by start and size.
    pub gap_range: (u64, u64),
    pub ioapic_addr: u32,
    pub lapic_addr: u32,
    pub prot64_mode: bool,
}

/// A segment register.
#[derive(Clone, Copy, Debug, PartialEq, Eq, Structural)]
pub struct Segment {
    pub base: u64,
    pub limit: u32,
    pub selector: u16,
    pub type_: u8,
    pub present: u8,
    pub dpl: u8,
    pub db: u8,
    pub s: u8,
    pub l: u8,
    pub g: u8,
    pub avl: u8,
    pub unusable: u8,
}

/// The segments and descriptor tables that the boot loader set up.
#[derive(Clone, Copy, Debug, PartialEq, Eq, Structural)]
pub struct BootGdtSegment {
    pub code_segment: Segment,
    pub data_segment: Segment,
    pub gdt_base: u64,
    pub gdt_limit: u16,
    pub idt_base: u64,
    pub idt_limit: u16,
}

/// What the boot loader hands back.
#[derive(Clone, Copy, Debug, PartialEq, Eq, Structural)]
pub struct BootLoader {
    pub boot_ip: u64,
    pub boot_sp: u64,
    pub boot_selector: u16,
    pub boot_pml4_addr: u64,
    pub zero_page_addr: u64,
    pub segments: BootGdtSegment,
}

/// What the first virtual CPU is given to boot.
#[derive(Clone, Copy, Debug, PartialEq, Eq, Structural)]
pub struct CPUBootConfig {
    pub prot64_mode: bool,
    pub boot_ip: u64,
    pub boot_sp: u64,
    pub boot_selector: u16,
    pub zero_page: u64,
    pub code_segment: Segment,
    pub data_segment: Segment,
    pub gdt_base: u64,
    pub gdt_size: u16,
    pub idt_base: u64,
    pub idt_size: u16,
    pub pml4_start: u64,
}

/// What the boot loader is given for `boot_source` and `cpu_count` virtual
/// CPUs: the gap from the end of RAM below 4 GiB to 4 GiB, the addresses of
/// the two interrupt controllers, and a start in 32-bit protected mode.
pub open spec fn is_boot_loader_config(
    boot_source: BootSource,
    cpu_count: u8,
    config: BootLoaderConfig,
) -> bool {
    &&& config.kernel == boot_source.kernel_file
    &&& config.initrd == boot_source.initrd
    &&& config.kernel_cmdline == boot_source.kernel_cmdline
    &&& config.cpu_count == cpu_count
    &&& config.gap_range == (GAP_START, (GAP_END - GAP_START) as u64)
    &&& config.ioapic_addr == layout_entry(LayoutEntryType::IoApic).0
    &&& config.lapic_addr == layout_entry(LayoutEntryType::LocalApic).0
    &&& !config.prot64_mode
}

/// What the first virtual CPU is given for what the boot loader handed
/// back.
pub open spec fn boot_config_of(layout: BootLoader) -> CPUBootConfig {
    CPUBootConfig {
        prot64_mode: false,
        boot_ip: layout.boot_ip,
        boot_sp: layout.boot_sp,
        boot_selector: layout.boot_selector,
        zero_page: layout.zero_page_addr,
        code_segment: layout.segments.code_segment,
        data_segment: layout.segments.data_segment,
        gdt_base: layout.segments.gdt_base,
        gdt_size: layout.segments.gdt_limit,
        idt_base: layout.segments.idt_base,
        idt_size: layout.segments.idt_limit,
        pml4_start: layout.boot_pml4_addr,
    }
}

/// What the boot loader is given.
pub fn boot_loader_config(boot_source: &BootSource, cpu_count: u8) -> (config: BootLoaderConfig)
    ensures
        is_boot_loader_config(*boot_source, cpu_count, config),
{
    let initrd: Option<String> = match &boot_source.initrd {
        Some(path) => Some(path.clone()),
        None => None,
    };
    let below = mem_layout(LayoutEntryType::MemBelow4g);
    let gap_start: u64 = below.0 + below.1;
    let gap_end: u64 = mem_layout(LayoutEntryType::MemAbove4g).0;
    BootLoaderConfig {
        kernel: boot_source.kernel_file.clone(),
        initrd,
        kernel_cmdline: boot_source.kernel_cmdline.clone(),
        cpu_count,
        gap_range: (gap_start, gap_end - gap_start),
        ioapic_addr: mem_layout(LayoutEntryType::IoApic).0 as u32,
        lapic_addr: mem_layout(LayoutEntryType::LocalApic).0 as u32,
        prot64_mode: false,
    }
}

/// What the first virtual CPU is given for what the boot loader handed
/// back: it starts at the entry point of the loader, in 32-bit protected
/// mode.
pub fn load_boot_source(layout: &BootLoader) -> (config: CPUBootConfig)
    ensures
        config == boot_config_of(*layout),
        config.boot_ip == layout.boot_ip,
{
    CPUBootConfig {
        prot64_mode: false,
        boot_ip: layout.boot_ip,
        boot_sp: layout.boot_sp,
        boot_selector: layout.boot_selector,
        zero_page: layout.zero_page_addr,
        code_segment: layout.segments.code_segment,
        data_segment: layout.segments.data_segment,
        gdt_base: layout.segments.gdt_base,
        gdt_size: layout.segments.gdt_limit,
        idt_base: layout.segments.idt_base,
        idt_size: layout.segments.idt_limit,
        pml4_start: layout.boot_pml4_addr,
    }
}

} // verus!
