//! The topology of the virtual CPUs.

use crate::config::text::{decimal, decimal_text};
use vstd::prelude::*;
use vstd::string::StringExecFns;

verus! {

/// The virtual CPUs of a machine by socket, core and thread.
#[derive(Clone, Debug)]
pub struct CpuTopology {
    /// Number of sockets.
    pub sockets: u8,
    /// Number of cores of a socket.
    pub cores: u8,
    /// Number of threads of a core.
    pub threads: u8,
    /// Number of virtual CPUs.
    pub nrcpus: u8,
    /// Largest number of virtual CPUs.
    pub max_cpus: u8,
    /// For every virtual CPU 1 where it is online and 0 where it is not.
    pub online_mask: Vec<u8>,
}

/// Where a virtual CPU sits and how it is addressed.
#[derive(Clone, Debug)]
pub struct CpuInstance {
    /// Index of the virtual CPU.
    pub index: u8,
    /// Its socket.
    pub socket_id: u8,
    /// Its core in the socket.
    pub core_id: u8,
    /// Its thread in the core.
    pub thread_id: u8,
    /// Its path in the object tree.
    pub qom_path: String,
}

/// Socket, core and thread of virtual CPU `vcpu_id` where a socket holds
/// `cores` cores of `threads` threads each.
pub open spec fn topo_of(cores: u8, threads: u8, vcpu_id: u8) -> (u8, u8, u8) {
    let per_socket = cores * threads;
    (
        (vcpu_id as int / per_socket) as u8,
        (vcpu_id as int % per_socket / (threads as int)) as u8,
        (vcpu_id as int % per_socket % (threads as int)) as u8,
    )
}

/// The path of virtual CPU `index` in the object tree.
pub open spec fn qom_path_of(index: u8) -> Seq<char> {
    "/machine/unattached/device["@ + decimal(index as nat) + "]"@
}

impl CpuTopology {
    /// The mask has an entry for every virtual CPU, and a socket holds a
    /// CPU at least, in no more CPUs than a byte counts.
    pub open spec fn wf(&self) -> bool {
        &&& self.online_mask@.len() == self.max_cpus
        &&& self.cores >= 1
        &&& self.threads >= 1
        &&& self.cores * self.threads <= u8::MAX
    }

    /// Whether virtual CPU `i` is online.
    pub open spec fn is_online(&self, i: int) -> bool {
        self.online_mask@[i] == 1
    }

    /// The topology of `nr_cpus` virtual CPUs: a socket of one core of one
    /// thread for each, all of them online.
    pub fn new(nr_cpus: u8) -> (topo: CpuTopology)
        ensures
            topo.wf(),
            topo.sockets == nr_cpus,
            topo.cores == 1,
            topo.threads == 1,
            topo.nrcpus == nr_cpus,
            topo.max_cpus == nr_cpus,
            forall|i: int| 0 <= i < nr_cpus ==> topo.is_online(i),
    {
        let mut mask: Vec<u8> = Vec::new();
        let mut i: u8 = 0;
        while i < nr_cpus
            invariant
                i <= nr_cpus,
                mask@.len() == i,
                forall|j: int| 0 <= j < i ==> mask@[j] == 1,
            decreases nr_cpus - i,
        {
            mask.push(1);
            i = i + 1;
        }
        CpuTopology {
            sockets: nr_cpus,
            cores: 1,
            threads: 1,
            nrcpus: nr_cpus,
            max_cpus: nr_cpus,
            online_mask: mask,
        }
    }

    /// The entry of virtual CPU `vcpu_id` in the mask.
    pub fn get_mask(&self, vcpu_id: usize) -> (m: u8)
        requires
            vcpu_id < self.online_mask@.len(),
        ensures
            m == self.online_mask@[vcpu_id as int],
    {
        self.online_mask[vcpu_id]
    }

    /// Socket, core and thread of virtual CPU `vcpu_id`.
    pub fn get_topo(&self, vcpu_id: u8) -> (r: (u8, u8, u8))
        requires
            self.wf(),
        ensures
            r == topo_of(self.cores, self.threads, vcpu_id),
    {
        assert(1 <= self.cores * self.threads) by (nonlinear_arith)
            requires
                self.cores >= 1,
                self.threads >= 1,
        ;
        let cpu_per_socket: u8 = self.cores * self.threads;
        let cpu_per_core: u8 = self.threads;
        let socketid: u8 = vcpu_id / cpu_per_socket;
        let coreid: u8 = (vcpu_id % cpu_per_socket) / cpu_per_core;
        let threadid: u8 = (vcpu_id % cpu_per_socket) % cpu_per_core;
        (socketid, coreid, threadid)
    }

    /// Whether `cpus` lists the virtual CPUs that are online, each once
    /// and in the order of their indices, with place and path.
    pub open spec fn lists_online(&self, cpus: Seq<CpuInstance>) -> bool {
        &&& forall|k: int|
            0 <= k < cpus.len() ==> {
                let cpu = #[trigger] cpus[k];
                &&& cpu.index < self.max_cpus
                &&& self.is_online(cpu.index as int)
                &&& (cpu.socket_id, cpu.core_id, cpu.thread_id) == topo_of(
                    self.cores,
                    self.threads,
                    cpu.index,
                )
                &&& cpu.qom_path@ == qom_path_of(cpu.index)
            }
        &&& forall|k: int, l: int|
            0 <= k < l < cpus.len() ==> (#[trigger] cpus[k]).index < (#[trigger] cpus[l]).index
        &&& forall|i: int|
            0 <= i < self.max_cpus && self.is_online(i) ==> exists|k: int|
                0 <= k < cpus.len() && (#[trigger] cpus[k]).index == i
    }

    /// The virtual CPUs that are online, in the order of their indices,
    /// each with its place and its path.
    pub fn query_cpus(&self) -> (cpus: Vec<CpuInstance>)
        requires
            self.wf(),
        ensures
            self.lists_online(cpus@),
    {
        let mut cpus: Vec<CpuInstance> = Vec::new();
        let mut cpu_index: u8 = 0;
        while cpu_index < self.max_cpus
            invariant
                self.wf(),
                cpu_index <= self.max_cpus,
                forall|k: int|
                    0 <= k < cpus@.len() ==> {
                        let cpu = #[trigger] cpus@[k];
                        &&& cpu.index < cpu_index
                        &&& self.is_online(cpu.index as int)
                        &&& (cpu.socket_id, cpu.core_id, cpu.thread_id) == topo_of(
                            self.cores,
                            self.threads,
                            cpu.index,
                        )
                        &&& cpu.qom_path@ == qom_path_of(cpu.index)
                    },
                forall|k: int, l: int|
                    0 <= k < l < cpus@.len() ==> (#[trigger] cpus@[k]).index < (
                    #[trigger] cpus@[l]).index,
                forall|i: int|
                    0 <= i < cpu_index && self.is_online(i) ==> exists|k: int|
                        0 <= k < cpus@.len() && (#[trigger] cpus@[k]).index == i,
            decreases self.max_cpus - cpu_index,
        {
            if self.get_mask(cpu_index as usize) == 1 {
                let (socket_id, core_id, thread_id) = self.get_topo(cpu_index);
                let mut qom_path: String = "/machine/unattached/device[".to_owned();
                qom_path.append(decimal_text(cpu_index as u64).as_str());
                qom_path.append("]");
                let ghost before = cpus@;
                cpus.push(
                    CpuInstance { index: cpu_index, socket_id, core_id, thread_id, qom_path },
                );
                assert forall|i: int| 0 <= i < cpu_index + 1 && self.is_online(i) implies exists|
                    k: int,
                |
                    0 <= k < cpus@.len() && (#[trigger] cpus@[k]).index == i by {
                    if i < cpu_index {
                        let k = choose|k: int|
                            0 <= k < before.len() && (#[trigger] before[k]).index == i;
                        assert(cpus@[k].index == i);
                    } else {
                        assert(cpus@[cpus@.len() - 1].index == i);
                    }
                }
            }
            cpu_index = cpu_index + 1;
        }
        cpus
    }
}

} // verus!
