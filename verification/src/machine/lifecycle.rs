//! The machine and its lifecycle: its states, the transitions between them,
//! and what each transition asks of the outside.

use crate::machine::boot::{
    BootLoader, BootLoaderConfig, BootSource, CPUBootConfig, boot_config_of, boot_loader_config,
    is_boot_loader_config, load_boot_source,
};
use crate::machine::cpu::{CpuInstance, CpuTopology};
use vstd::prelude::*;

verus! {

/// State of the machine.
#[derive(Clone, Copy, Debug, PartialEq, Eq, Structural)]
pub enum KvmVmState {
    Created,
    Running,
    Paused,
    Shutdown,
}

/// What a transition asks of the outside, which holds the virtual CPUs, the
/// event channel and the power button.
#[derive(Clone, Copy, Debug, PartialEq, Eq, Structural)]
pub enum LifecycleAction {
    /// Start the virtual CPUs.
    StartVcpus,
    /// Start the virtual CPUs and hold them before their first instruction.
    StartVcpusPaused,
    /// Hold the virtual CPUs.
    PauseVcpus,
    /// Let the virtual CPUs go on.
    ResumeVcpus,
    /// End the virtual CPUs.
    DestroyVcpus,
    /// Emit the STOP event.
    EmitStop,
    /// Emit the RESUME event.
    EmitResume,
    /// Write 1 to the descriptor of the power button.
    SignalPowerButton,
}

/// Why the machine refused a lifecycle request.
#[derive(Clone, Copy, Debug, PartialEq, Eq, Structural)]
pub enum LifecycleError {
    /// The machine is not in the state that the request starts from.
    StateCheckFailed,
    /// There is no transition between the two states.
    IllegalTransition,
}

/// The state of a machine as the monitor protocol names it.
#[derive(Clone, Copy, Debug, PartialEq, Eq, Structural)]
pub enum RunState {
    Running,
    Paused,
}

/// What the monitor protocol reports of the state of a machine.
#[derive(Clone, Copy, Debug, PartialEq, Eq, Structural)]
pub struct StatusInfo {
    pub singlestep: bool,
    pub running: bool,
    pub status: RunState,
}

/// What the transition from `old` to `new` asks of the outside; `None`
/// where there is no such transition. Any state can go to `Shutdown`.
pub open spec fn transition_actions(old: KvmVmState, new: KvmVmState) -> Option<
    Seq<LifecycleAction>,
> {
    match (old, new) {
        (_, KvmVmState::Shutdown) => Some(
            seq![LifecycleAction::DestroyVcpus, LifecycleAction::SignalPowerButton],
        ),
        (KvmVmState::Created, KvmVmState::Running) => Some(seq![LifecycleAction::StartVcpus]),
        (KvmVmState::Created, KvmVmState::Paused) => Some(
            seq![LifecycleAction::StartVcpusPaused],
        ),
        (KvmVmState::Running, KvmVmState::Paused) => Some(
            seq![LifecycleAction::PauseVcpus, LifecycleAction::EmitStop],
        ),
        (KvmVmState::Paused, KvmVmState::Running) => Some(
            seq![LifecycleAction::ResumeVcpus, LifecycleAction::EmitResume],
        ),
        _ => None,
    }
}

/// The standard machine, as far as it can be told without the host: what
/// stands for the virtual CPUs, the address spaces and the power button is
/// held by the caller.
pub struct StdMachine {
    /// Topology of the virtual CPUs.
    pub cpu_topo: CpuTopology,
    /// State of the machine.
    pub vm_state: KvmVmState,
    /// The kernel to boot.
    pub boot_source: BootSource,
    /// What the transitions so far ask of the outside, oldest first. The
    /// caller carries the actions out and removes them.
    pub pending: Vec<LifecycleAction>,
}

/// Whether `after` is `before` without a change.
pub open spec fn unchanged(before: StdMachine, after: StdMachine) -> bool {
    &&& after.vm_state == before.vm_state
    &&& after.pending@ == before.pending@
    &&& after.cpu_topo == before.cpu_topo
    &&& after.boot_source == before.boot_source
}

/// Whether `after` is `before` moved to `new`, with the actions of the
/// transition added to those that are pending.
pub open spec fn moved(before: StdMachine, new: KvmVmState, after: StdMachine) -> bool {
    &&& transition_actions(before.vm_state, new) is Some
    &&& after.vm_state == new
    &&& after.pending@ == before.pending@ + transition_actions(before.vm_state, new)->0
    &&& after.cpu_topo == before.cpu_topo
    &&& after.boot_source == before.boot_source
}

impl StdMachine {
    /// A machine of `nr_cpus` virtual CPUs that boots from `boot_source`,
    /// in the state `Created`.
    pub fn new(nr_cpus: u8, boot_source: BootSource) -> (vm: StdMachine)
        ensures
            vm.vm_state == KvmVmState::Created,
            vm.pending@.len() == 0,
            vm.boot_source == boot_source,
            vm.cpu_topo.wf(),
            vm.cpu_topo.nrcpus == nr_cpus,
            vm.cpu_topo.max_cpus == nr_cpus,
            vm.cpu_topo.sockets == nr_cpus,
            vm.cpu_topo.cores == 1,
            vm.cpu_topo.threads == 1,
            forall|i: int| 0 <= i < nr_cpus ==> vm.cpu_topo.is_online(i),
    {
        StdMachine {
            cpu_topo: CpuTopology::new(nr_cpus),
            vm_state: KvmVmState::Created,
            boot_source,
            pending: Vec::new(),
        }
    }

    /// What the boot loader is given to load the kernel of the machine.
    pub fn boot_loader_config(&self) -> (config: BootLoaderConfig)
        ensures
            is_boot_loader_config(self.boot_source, self.cpu_topo.nrcpus, config),
    {
        boot_loader_config(&self.boot_source, self.cpu_topo.nrcpus)
    }

    /// What the first virtual CPU is given for what the boot loader handed
    /// back.
    pub fn load_boot_source(&self, layout: &BootLoader) -> (config: CPUBootConfig)
        ensures
            config == boot_config_of(*layout),
    {
        load_boot_source(layout)
    }

    /// The virtual CPUs that are online, in the order of their indices.
    pub fn query_cpus(&self) -> (cpus: Vec<CpuInstance>)
        requires
            self.cpu_topo.wf(),
        ensures
            self.cpu_topo.lists_online(cpus@),
    {
        self.cpu_topo.query_cpus()
    }

    /// Moves the machine from `from` to `to`. Refused, with the machine left
    /// as it is, where the machine is not in the state `from` or there is no
    /// transition from `from` to `to`.
    pub fn vm_state_transfer(&mut self, from: KvmVmState, to: KvmVmState) -> (r: Result<
        (),
        LifecycleError,
    >)
        ensures
            old(self).vm_state != from ==> r == Err::<(), LifecycleError>(
                LifecycleError::StateCheckFailed,
            ) && unchanged(*old(self), *final(self)),
            old(self).vm_state == from && transition_actions(from, to) is None ==> r == Err::<
                (),
                LifecycleError,
            >(LifecycleError::IllegalTransition) && unchanged(*old(self), *final(self)),
            old(self).vm_state == from && transition_actions(from, to) is Some ==> r is Ok && moved(
                *old(self),
                to,
                *final(self),
            ),
    {
        if self.vm_state != from {
            return Err(LifecycleError::StateCheckFailed);
        }
        let ghost before = self.pending@;
        match (from, to) {
            (_, KvmVmState::Shutdown) => {
                self.pending.push(LifecycleAction::DestroyVcpus);
                self.pending.push(LifecycleAction::SignalPowerButton);
            },
            (KvmVmState::Created, KvmVmState::Running) => {
                self.pending.push(LifecycleAction::StartVcpus);
            },
            (KvmVmState::Created, KvmVmState::Paused) => {
                self.pending.push(LifecycleAction::StartVcpusPaused);
            },
            (KvmVmState::Running, KvmVmState::Paused) => {
                self.pending.push(LifecycleAction::PauseVcpus);
                self.pending.push(LifecycleAction::EmitStop);
            },
            (KvmVmState::Paused, KvmVmState::Running) => {
                self.pending.push(LifecycleAction::ResumeVcpus);
                self.pending.push(LifecycleAction::EmitResume);
            },
            _ => {
                return Err(LifecycleError::IllegalTransition);
            },
        }
        self.vm_state = to;
        assert(self.pending@ =~= before + transition_actions(from, to)->0);
        Ok(())
    }

    /// Starts a machine that was created: it runs, or is paused where
    /// `paused`. Refused in any other state.
    pub fn run(&mut self, paused: bool) -> (r: Result<(), LifecycleError>)
        ensures
            old(self).vm_state != KvmVmState::Created ==> {
                &&& r == Err::<(), LifecycleError>(LifecycleError::StateCheckFailed)
                &&& unchanged(*old(self), *final(self))
            },
            old(self).vm_state == KvmVmState::Created ==> r is Ok && moved(
                *old(self),
                if paused {
                    KvmVmState::Paused
                } else {
                    KvmVmState::Running
                },
                *final(self),
            ),
    {
        if paused {
            self.vm_state_transfer(KvmVmState::Created, KvmVmState::Paused)
        } else {
            self.vm_state_transfer(KvmVmState::Created, KvmVmState::Running)
        }
    }

    /// Moves the machine from `from` to `to` and says whether it did.
    pub fn notify_lifecycle(&mut self, from: KvmVmState, to: KvmVmState) -> (done: bool)
        ensures
            done == (old(self).vm_state == from && transition_actions(from, to) is Some),
            done ==> moved(*old(self), to, *final(self)),
            !done ==> unchanged(*old(self), *final(self)),
    {
        self.vm_state_transfer(from, to).is_ok()
    }

    /// Pauses a running machine and asks for the STOP event. A machine that
    /// is not running is left as it is.
    pub fn pause(&mut self) -> (done: bool)
        ensures
            done == (old(self).vm_state == KvmVmState::Running),
            done ==> moved(*old(self), KvmVmState::Paused, *final(self)),
            !done ==> unchanged(*old(self), *final(self)),
    {
        self.notify_lifecycle(KvmVmState::Running, KvmVmState::Paused)
    }

    /// Lets a paused machine go on and asks for the RESUME event. A machine
    /// that is not paused is left as it is.
    pub fn resume(&mut self) -> (done: bool)
        ensures
            done == (old(self).vm_state == KvmVmState::Paused),
            done ==> moved(*old(self), KvmVmState::Running, *final(self)),
            !done ==> unchanged(*old(self), *final(self)),
    {
        self.notify_lifecycle(KvmVmState::Paused, KvmVmState::Running)
    }

    /// Shuts the machine down from whatever state it is in and asks for the
    /// power button to be signalled.
    pub fn destroy(&mut self) -> (done: bool)
        ensures
            done,
            moved(*old(self), KvmVmState::Shutdown, *final(self)),
    {
        let vmstate = self.vm_state;
        self.notify_lifecycle(vmstate, KvmVmState::Shutdown)
    }

    /// What the monitor protocol reports of the state of the machine: a
    /// machine that runs or is paused counts as running and is reported in
    /// its state. Of a machine in any other state there is nothing to
    /// report, and the reply holds the defaults of the protocol.
    pub fn query_status(&self) -> (r: Option<StatusInfo>)
        ensures
            self.vm_state == KvmVmState::Running ==> r == Some(
                StatusInfo { singlestep: false, running: true, status: RunState::Running },
            ),
            self.vm_state == KvmVmState::Paused ==> r == Some(
                StatusInfo { singlestep: false, running: true, status: RunState::Paused },
            ),
            self.vm_state != KvmVmState::Running && self.vm_state != KvmVmState::Paused ==> r
                is None,
    {
        match self.vm_state {
            KvmVmState::Running => Some(
                StatusInfo { singlestep: false, running: true, status: RunState::Running },
            ),
            KvmVmState::Paused => Some(
                StatusInfo { singlestep: false, running: true, status: RunState::Paused },
            ),
            _ => None,
        }
    }

    /// Whether the event loop is to end: it is once the machine is shut
    /// down.
    pub fn loop_should_exit(&self) -> (exit: bool)
        ensures
            exit == (self.vm_state == KvmVmState::Shutdown),
    {
        self.vm_state == KvmVmState::Shutdown
    }
}

/// The transitions are those of the lifecycle graph and no others: a
/// machine that was created starts running or paused, a running machine
/// pauses, a paused machine runs again, and every machine can be shut down.
pub proof fn lemma_lifecycle_graph(old: KvmVmState, new: KvmVmState)
    ensures
        transition_actions(old, new) is Some <==> {
            ||| new == KvmVmState::Shutdown
            ||| (old == KvmVmState::Created && new == KvmVmState::Running)
            ||| (old == KvmVmState::Created && new == KvmVmState::Paused)
            ||| (old == KvmVmState::Running && new == KvmVmState::Paused)
            ||| (old == KvmVmState::Paused && new == KvmVmState::Running)
        },
        transition_actions(old, new) matches Some(actions) ==> {
            &&& actions.contains(LifecycleAction::EmitStop) <==> (old == KvmVmState::Running && new
                == KvmVmState::Paused)
            &&& actions.contains(LifecycleAction::EmitResume) <==> (old == KvmVmState::Paused
                && new == KvmVmState::Running)
            &&& actions.contains(LifecycleAction::SignalPowerButton) <==> new
                == KvmVmState::Shutdown
        },
{
    match transition_actions(old, new) {
        Some(actions) => {
            if actions.len() == 2 {
                assert(actions[0] == actions[0] && actions[1] == actions[1]);
            } else {
                assert(actions[0] == actions[0]);
            }
        },
        None => {},
    }
}

} // verus!
