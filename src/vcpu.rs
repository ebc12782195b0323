//! The virtual CPU: the VMCS it owns, its pending interrupts, and the
//! handling of every VM exit.
use vstd::prelude::*;
use crate::error::Error;
use crate::field::VmcsField;
use crate::interrupts::{can_inject, deliver_pending_interrupt, interruptibility_valid, window_exiting, InjectedInterruptType, PendingInterrupts};
use crate::portio::emulate_portio;
use crate::setup::{
    control_field, controls_allowed, guest_field, host_field, initialize_ctrl_vmcs, initialize_guest_vmcs,
    initialize_host_vmcs, programmed, HostState,
};
use crate::virtdev::{DeviceEvent, DeviceEventResponse, Port, PortIoValue};
use crate::vmcs::{ActiveVmcs, VmxOp};
use crate::vmexit::{CrInformation, EptInformation, ExitInformation, ExitReason, GuestCpuState};

verus! {

/// The MSR that holds the local APIC base address.
pub const IA32_APIC_BASE: u32 = 0x1b;
/// The x2APIC-enable bit of `IA32_APIC_BASE`.
pub const X2APIC_ENABLE: u64 = 0x400;
/// The host vector on which the serial port signals a received byte.
pub const UART_VECTOR: u8 = 0x24;
/// The host vector on which another VCPU signals an inter-VM message.
pub const IPC_VECTOR: u8 = 0x3e;
/// The IOAPIC input that the serial port is wired to.
pub const UART_GSI: u8 = 4;

/// A message from one virtual machine to another.
pub enum VirtualMachineMsg<S> {
    /// The receiver now owns the host serial port `S`.
    GrantConsole(S),
    /// Cancel the timer with this identifier.
    CancelTimer(u64),
}

/// What a VCPU needs from the virtual machine it serves and from the
/// services of its core: the device bus, the guest address space, the
/// emulators of CPUID, control-register and MMIO accesses, the host serial
/// port, the inter-VM channel, the IOAPIC, the local APIC, the timer wheel
/// and MSR reads.
pub trait VmContext {
    /// The host serial device, which one virtual machine at a time owns.
    type Serial;

    /// The identifier of this virtual machine.
    fn vm_id(&self) -> u32;

    /// The number of virtual machines.
    fn max_vm_id(&self) -> u32;

    /// Reads `port` from the device that owns it into `val`; fails with
    /// `Error::MissingDevice` when no device owns the port.
    fn port_read(&mut self, port: Port, val: &mut PortIoValue) -> Result<(), Error>;

    /// Writes `val` to the device that owns `port`; fails with
    /// `Error::MissingDevice` when no device owns the port.
    fn port_write(&mut self, port: Port, val: PortIoValue) -> Result<(), Error>;

    /// Reads `len` bytes of guest memory at the guest-linear address `addr`,
    /// translated through the guest state held in `vmcs`.
    fn read_guest_bytes(&mut self, vmcs: &ActiveVmcs, addr: u64, len: usize) -> Result<Vec<u8>, Error>;

    /// Writes `bytes` to guest memory at the guest-linear address `addr`.
    fn write_guest_bytes(&mut self, vmcs: &ActiveVmcs, addr: u64, bytes: &Vec<u8>) -> Result<(), Error>;

    /// Hands `event` to the device that owns `port`, which may queue
    /// responses.
    fn dispatch_event(&mut self, port: Port, event: DeviceEvent, responses: &mut Vec<DeviceEventResponse>)
        -> Result<(), Error>;

    /// Emulates CPUID from the guest's registers.
    fn emulate_cpuid(&mut self, guest_cpu: &mut GuestCpuState) -> Result<(), Error>;

    /// Emulates a control-register access.
    fn emulate_cr_access(&mut self, vmcs: &mut ActiveVmcs, guest_cpu: &mut GuestCpuState, info: CrInformation)
        -> Result<(), Error>;

    /// Emulates the MMIO access behind an EPT violation.
    fn handle_ept_violation(
        &mut self,
        vmcs: &mut ActiveVmcs,
        guest_cpu: &mut GuestCpuState,
        info: EptInformation,
        responses: &mut Vec<DeviceEventResponse>,
    ) -> Result<(), Error>;

    /// Reads a model-specific register of this core.
    fn read_msr(&mut self, msr: u32) -> u64;

    /// Reads the byte that the host serial port received, with the port the
    /// guest's serial device sits at, if this virtual machine owns it.
    fn read_serial(&mut self) -> Option<(u8, Port)>;

    /// Whether this virtual machine owns the host serial port.
    fn owns_serial(&self) -> bool;

    /// Gives up the host serial port, if this virtual machine owns it.
    fn take_serial(&mut self) -> Option<Self::Serial>;

    /// Takes ownership of the host serial port.
    fn grant_serial(&mut self, serial: Self::Serial);

    /// Writes a byte to the host console.
    fn write_console(&mut self, byte: u8);

    /// Receives one pending inter-VM message, if any.
    fn recv_vm_msg(&mut self) -> Option<VirtualMachineMsg<Self::Serial>>;

    /// Sends a message to the virtual machine `vm_id`.
    fn send_vm_msg(&mut self, msg: VirtualMachineMsg<Self::Serial>, vm_id: u32) -> Result<(), Error>;

    /// The APIC identifier of the bootstrap processor of virtual machine
    /// `vm_id`, if that machine exists.
    fn bsp_apic_id(&self, vm_id: u32) -> Option<u8>;

    /// Routes IOAPIC input `gsi` to `vector` on the APIC `dest`.
    fn map_gsi_vector(&mut self, gsi: u8, vector: u8, dest: u8) -> Result<(), Error>;

    /// Cancels the timer `id`.
    fn cancel_timer(&mut self, id: u64) -> Result<(), Error>;

    /// Expires the elapsed timers of this core and returns the interrupts
    /// they raise.
    fn expire_elapsed_timers(&mut self) -> Result<Vec<(u8, InjectedInterruptType)>, Error>;

    /// Signals end of interrupt to the local APIC.
    fn eoi(&mut self);
}

/// The APIC base as the guest sees it, split into `(rdx, rax)`: the real
/// value with x2APIC reported as disabled.
pub open spec fn spec_apic_base_for_guest(msr_value: u64) -> (u64, u64) {
    let masked = msr_value & !X2APIC_ENABLE;
    (masked >> 32u64, masked & 0xffff_ffffu64)
}

/// Computes the `(rdx, rax)` pair that an `IA32_APIC_BASE` read returns.
pub fn apic_base_for_guest(msr_value: u64) -> (r: (u64, u64))
    ensures
        r == spec_apic_base_for_guest(msr_value),
        r.0 <= 0xffff_ffff,
        r.1 <= 0xffff_ffff,
        r.1 & X2APIC_ENABLE == 0,
{
    let masked = msr_value & !X2APIC_ENABLE;
    assert((msr_value & !0x400u64) >> 32u64 <= 0xffff_ffff) by (bit_vector);
    assert((msr_value & !0x400u64) & 0xffff_ffffu64 <= 0xffff_ffff) by (bit_vector);
    assert(((msr_value & !0x400u64) & 0xffff_ffffu64) & 0x400u64 == 0) by (bit_vector);
    (masked >> 32u64, masked & 0xffff_ffffu64)
}

/// The virtual machine that receives the console after `vm_id`, of
/// `max_vm_id` machines.
pub open spec fn spec_next_console_vm(vm_id: u32, max_vm_id: u32) -> u32 {
    ((vm_id as int + 1) % (max_vm_id as int)) as u32
}

/// Picks the virtual machine that receives the console after `vm_id`.
pub fn next_console_vm(vm_id: u32, max_vm_id: u32) -> (r: u32)
    requires
        max_vm_id > 0,
    ensures
        r == spec_next_console_vm(vm_id, max_vm_id),
        r < max_vm_id,
{
    ((vm_id as u64 + 1) % (max_vm_id as u64)) as u32
}

/// Where the console goes when this machine hands it over.
#[derive(Clone, Copy, Debug, PartialEq, Eq, Structural)]
pub struct ConsoleHandover {
    /// The virtual machine that receives the serial port.
    pub next_vm: u32,
    /// The IOAPIC input to reroute.
    pub gsi: u8,
    /// The vector that the input raises.
    pub vector: u8,
}

/// Decides a console switch of machine `vm_id` among `max_vm_id` machines,
/// given whether this machine gave up the serial port. Fails with
/// `Error::InvalidValue` when there are no machines and with
/// `Error::NotFound` when this machine did not own the port.
pub fn console_handover(vm_id: u32, max_vm_id: u32, serial_taken: bool) -> (r: Result<ConsoleHandover, Error>)
    ensures
        max_vm_id == 0 ==> (r matches Err(Error::InvalidValue(_))),
        max_vm_id > 0 && !serial_taken ==> r == Err::<ConsoleHandover, Error>(Error::NotFound),
        max_vm_id > 0 && serial_taken ==> r == Ok::<ConsoleHandover, Error>(
            ConsoleHandover { next_vm: spec_next_console_vm(vm_id, max_vm_id), gsi: UART_GSI, vector: UART_VECTOR },
        ),
{
    if max_vm_id == 0 {
        return Err(Error::InvalidValue("no virtual machine to hand the console to"));
    }
    if !serial_taken {
        return Err(Error::NotFound);
    }
    Ok(ConsoleHandover { next_vm: next_console_vm(vm_id, max_vm_id), gsi: UART_GSI, vector: UART_VECTOR })
}

/// The outcome of rerouting the serial interrupt, given what the IOAPIC
/// answered: any failure is a `Error::DeviceError`.
pub fn gsi_route_result(routed: Result<(), Error>) -> (r: Result<(), Error>)
    ensures
        r is Ok <==> routed is Ok,
        r is Err ==> r->Err_0 is DeviceError,
{
    match routed {
        Ok(()) => Ok(()),
        Err(_) => Err(Error::DeviceError("failed to update the console GSI mapping")),
    }
}

/// The byte that reaches the host console when the guest sends `byte`:
/// only a machine that owns the serial port is heard.
pub fn console_output(owns_serial: bool, byte: u8) -> (r: Option<u8>)
    ensures
        r == if owns_serial { Some(byte) } else { None::<u8> },
{
    if owns_serial {
        Some(byte)
    } else {
        None
    }
}

/// The pending set after the interrupts in `expired` are merged into `m`,
/// in order.
pub open spec fn merge_expired(m: Map<u8, InjectedInterruptType>, expired: Seq<(u8, InjectedInterruptType)>) -> Map<
    u8,
    InjectedInterruptType,
>
    decreases expired.len(),
{
    if expired.len() == 0 {
        m
    } else {
        merge_expired(m, expired.drop_last()).insert(expired.last().0, expired.last().1)
    }
}

/// The pending set after the `Interrupt` responses of `responses` are merged
/// into `m`, in order.
pub open spec fn merge_responses(m: Map<u8, InjectedInterruptType>, responses: Seq<DeviceEventResponse>) -> Map<
    u8,
    InjectedInterruptType,
>
    decreases responses.len(),
{
    if responses.len() == 0 {
        m
    } else {
        let rest = responses.drop_last();
        let merged = merge_responses(m, rest);
        match responses.last() {
            DeviceEventResponse::Interrupt(v, k) => merged.insert(v, k),
            _ => merged,
        }
    }
}

/// What an `IA32_APIC_BASE` read leaves in the guest's registers: RDX:RAX
/// holds a value with x2APIC disabled, and nothing else changes.
pub open spec fn rdmsr_effect(before: GuestCpuState, after: GuestCpuState) -> bool {
    &&& before.rcx & 0xffff_ffff == IA32_APIC_BASE as u64
    &&& after == (GuestCpuState { rdx: after.rdx, rax: after.rax, ..before })
    &&& after.rdx <= 0xffff_ffff
    &&& after.rax <= 0xffff_ffff
    &&& after.rax & X2APIC_ENABLE == 0
}

/// Whether the exit is one that completes an instruction the engine
/// emulates without touching the VMCS, so that RIP moves past it.
pub open spec fn skips_instruction(exit: ExitReason) -> bool {
    exit.info is RdMsr || exit.info is ApicAccess || exit.info is CpuId || exit.info is IoInstruction
        || exit.info is CrAccess || exit.info is EptViolation
}

/// Whether the handling of `exit` writes no VMCS field but RIP: every exit
/// except those whose emulators are handed the VMCS.
pub open spec fn keeps_other_fields(exit: ExitReason) -> bool {
    exit.info is RdMsr || exit.info is ApicAccess || exit.info is CpuId || exit.info is IoInstruction
        || exit.info is InterruptWindow || exit.info is ExternalInterrupt
}

/// Whether the dispatch of `exit` involves no outside call that can fail:
/// an APIC access, an interrupt window, a read of `IA32_APIC_BASE`, or an
/// external interrupt on a vector that is neither the serial port's nor
/// the inter-VM channel's.
pub open spec fn dispatch_cannot_fail(exit: ExitReason, cpu: GuestCpuState) -> bool {
    ||| exit.info is ApicAccess
    ||| exit.info is InterruptWindow
    ||| exit.info is RdMsr && cpu.rcx & 0xffff_ffff == IA32_APIC_BASE as u64
    ||| exit.info matches ExitInformation::ExternalInterrupt(i) && i.vector != UART_VECTOR && i.vector != IPC_VECTOR
}

/// What handling `exit` does to the guest's RIP: instructions that the
/// engine emulates are skipped, and exits that are not bound to an
/// instruction leave RIP where it is.
pub open spec fn guest_rip_effect(before: ActiveVmcs, after: ActiveVmcs, exit: ExitReason) -> bool {
    &&& skips_instruction(exit) ==> after.field(VmcsField::GuestRip) == before.field(VmcsField::GuestRip).wrapping_add(
        before.field(VmcsField::VmExitInstructionLen))
    &&& (exit.info is InterruptWindow || exit.info is ExternalInterrupt)
        ==> after.field(VmcsField::GuestRip) == before.field(VmcsField::GuestRip)
}

/// What the dispatch of `exit` does, given its result `r`.
pub open spec fn exit_effect(
    before: ActiveVmcs,
    after: ActiveVmcs,
    cpu_before: GuestCpuState,
    cpu_after: GuestCpuState,
    exit: ExitReason,
    r: Result<(), Error>,
) -> bool {
    &&& exit.info is Other ==> r == Err::<(), Error>(Error::UnhandledExit(exit.info->Other_0))
    &&& exit.info is RdMsr ==> ((r matches Err(Error::InvalidValue(_)))
        <==> cpu_before.rcx & 0xffff_ffff != IA32_APIC_BASE as u64)
    &&& dispatch_cannot_fail(exit, cpu_before) ==> r is Ok
    &&& r is Ok ==> {
        &&& guest_rip_effect(before, after, exit)
        &&& keeps_other_fields(exit)
            ==> forall|g: VmcsField| g != VmcsField::GuestRip ==> #[trigger] after.field(g) == before.field(g)
        &&& exit.info is RdMsr ==> rdmsr_effect(cpu_before, cpu_after)
        &&& exit.info is IoInstruction
            ==> crate::portio::port_io_effect(cpu_before, cpu_after, exit.info->IoInstruction_0)
        &&& exit.info is InterruptWindow ==> cpu_after == cpu_before
    }
}

/// Where a VCPU's resources live: the core it runs on, the top of its host
/// stack (whose last word holds the VCPU's own address), its MSR bitmap
/// page, and the EPT pointer and APIC-access page of its virtual machine.
#[derive(Clone, Copy, Debug, PartialEq, Eq, Structural)]
pub struct VcpuSetup {
    pub core_id: u32,
    pub stack_top: u64,
    pub msr_bitmap: u64,
    pub ept_pointer: u64,
    pub apic_access_addr: u64,
}

/// The size of the word at the top of the host stack that holds the VCPU's
/// address.
pub const POINTER_SIZE: u64 = 8;

/// The value of a field that `VCpu::new` takes from the virtual machine.
pub open spec fn vm_field(f: VmcsField, setup: VcpuSetup) -> Option<u64> {
    match f {
        VmcsField::EptPointer => Some(setup.ept_pointer),
        VmcsField::ApicAccessAddr => Some(setup.apic_access_addr),
        _ => None,
    }
}

/// The value of field `f` of a VMCS holding `before` there, once `VCpu::new`
/// has programmed it.
pub open spec fn initial_field(f: VmcsField, before: u64, vmx: crate::vmcs::Vmx, setup: VcpuSetup, host: HostState) -> u64 {
    programmed(
        programmed(
            programmed(
                programmed(before, vm_field(f, setup)),
                host_field(f, host, (setup.stack_top - POINTER_SIZE) as u64),
            ),
            guest_field(f, vmx),
        ),
        control_field(f, vmx, setup.core_id, setup.msr_bitmap),
    )
}

/// A virtual CPU bound to one physical core.
pub struct VCpu<V: VmContext> {
    /// The virtual machine that this VCPU serves.
    pub vm: V,
    /// The VMCS that this core holds active.
    pub vmcs: ActiveVmcs,
    /// The interrupts waiting to be injected.
    pub pending_interrupts: PendingInterrupts,
}

impl<V: VmContext> VCpu<V> {
    /// The interrupts waiting to be injected.
    pub open spec fn pending(&self) -> Map<u8, InjectedInterruptType> {
        self.pending_interrupts@
    }

    /// Creates the VCPU of a core and programs its VMCS for the first entry:
    /// the virtual machine's EPT pointer and APIC-access page, the host
    /// state with the stack below the word that holds the VCPU's address,
    /// the guest's power-on state and the execution controls.
    ///
    /// Fails with `Error::InvalidValue` when the stack top leaves no room for
    /// that word, and with `Error::Vmcs` when the processor does not allow a
    /// requested control.
    pub fn new(vm: V, vmcs: ActiveVmcs, setup: VcpuSetup, host: HostState) -> (r: Result<VCpu<V>, Error>)
        ensures
            r is Ok <==> setup.stack_top >= POINTER_SIZE && controls_allowed(vmcs.spec_vmx()),
            setup.stack_top < POINTER_SIZE ==> (r matches Err(Error::InvalidValue(_))),
            setup.stack_top >= POINTER_SIZE && !controls_allowed(vmcs.spec_vmx()) ==> (r matches Err(Error::Vmcs(_))),
            r matches Ok(v) ==> {
                &&& v.vm == vm
                &&& v.pending() == Map::<u8, InjectedInterruptType>::empty()
                &&& v.vmcs.spec_frame() == vmcs.spec_frame()
                &&& v.vmcs.spec_vmx() == vmcs.spec_vmx()
                &&& forall|f: VmcsField| #[trigger] v.vmcs.field(f)
                    == initial_field(f, vmcs.field(f), vmcs.spec_vmx(), setup, host)
            },
    {
        if setup.stack_top < POINTER_SIZE {
            return Err(Error::InvalidValue("host stack top leaves no room for the VCPU address"));
        }
        let mut vmcs = vmcs;
        let ghost start = vmcs;
        vmcs.write_field(VmcsField::EptPointer, setup.ept_pointer)?;
        vmcs.write_field(VmcsField::ApicAccessAddr, setup.apic_access_addr)?;
        let ghost after_vm = vmcs;
        let stack = setup.stack_top - POINTER_SIZE;
        initialize_host_vmcs(&mut vmcs, stack, host)?;
        let ghost after_host = vmcs;
        initialize_guest_vmcs(&mut vmcs)?;
        let ghost after_guest = vmcs;
        initialize_ctrl_vmcs(&mut vmcs, setup.core_id, setup.msr_bitmap)?;
        assert forall|f: VmcsField| #[trigger] vmcs.field(f)
            == initial_field(f, start.field(f), start.spec_vmx(), setup, host) by {
            assert(after_vm.field(f) == programmed(start.field(f), vm_field(f, setup)));
            assert(after_host.field(f) == programmed(after_vm.field(f), host_field(f, host, stack)));
            assert(after_guest.field(f) == programmed(after_host.field(f), guest_field(f, start.spec_vmx())));
        }
        Ok(VCpu { vm, vmcs, pending_interrupts: PendingInterrupts::new() })
    }

    /// Queues an interrupt for injection; a pending request for the same
    /// vector gets the new kind.
    pub fn inject_interrupt(&mut self, vector: u8, kind: InjectedInterruptType)
        ensures
            final(self).pending() == old(self).pending().insert(vector, kind),
            final(self).vmcs == old(self).vmcs,
            final(self).vm == old(self).vm,
    {
        self.pending_interrupts.insert(vector, kind);
    }

    /// Advances the guest's RIP past the instruction that caused the exit.
    pub fn skip_emulated_instruction(&mut self) -> (r: Result<(), Error>)
        ensures
            r is Ok,
            ({
                let rip = old(self).vmcs.field(VmcsField::GuestRip).wrapping_add(
                    old(self).vmcs.field(VmcsField::VmExitInstructionLen));
                &&& final(self).vmcs.field(VmcsField::GuestRip) == rip
                &&& forall|g: VmcsField| g != VmcsField::GuestRip
                    ==> #[trigger] final(self).vmcs.field(g) == old(self).vmcs.field(g)
                &&& final(self).vmcs.ops() == old(self).vmcs.ops().push(VmxOp::Write { field: VmcsField::GuestRip, value: rip })
            }),
            final(self).vmcs.spec_frame() == old(self).vmcs.spec_frame(),
            final(self).vmcs.spec_vmx() == old(self).vmcs.spec_vmx(),
            final(self).pending() == old(self).pending(),
            final(self).vm == old(self).vm,
    {
        let rip = self.vmcs.read_field(VmcsField::GuestRip)?;
        let len = self.vmcs.read_field(VmcsField::VmExitInstructionLen)?;
        self.vmcs.write_field(VmcsField::GuestRip, rip.wrapping_add(len))?;
        Ok(())
    }

    /// Passes a byte that the host serial port received to the guest's
    /// serial device, when this virtual machine owns the port.
    fn handle_uart_keypress(&mut self, responses: &mut Vec<DeviceEventResponse>) -> (r: Result<(), Error>)
        ensures
            final(self).vmcs == old(self).vmcs,
            final(self).pending() == old(self).pending(),
    {
        match self.vm.read_serial() {
            Some((key, port)) => self.vm.dispatch_event(port, DeviceEvent::HostUartReceived(key), responses),
            None => Ok(()),
        }
    }

    /// Hands the host serial port to the next virtual machine and routes the
    /// serial interrupt to it. Fails with `Error::NotFound` when this machine
    /// does not own the port, and with `Error::DeviceError` when the IOAPIC
    /// cannot be reprogrammed.
    fn hand_over_console(&mut self) -> (r: Result<(), Error>)
        ensures
            final(self).vmcs == old(self).vmcs,
            final(self).pending() == old(self).pending(),
    {
        let max_vm_id = self.vm.max_vm_id();
        let vm_id = self.vm.vm_id();
        if max_vm_id == 0 {
            // Refused before the port is given up, so that it is not lost.
            return Err(Error::InvalidValue("no virtual machine to hand the console to"));
        }
        let serial = self.vm.take_serial();
        let plan = console_handover(vm_id, max_vm_id, serial.is_some())?;
        match serial {
            Some(serial) => {
                self.vm.send_vm_msg(VirtualMachineMsg::GrantConsole(serial), plan.next_vm)?;
            },
            None => {
                return Err(Error::NotFound);
            },
        }
        let dest = match self.vm.bsp_apic_id(plan.next_vm) {
            Some(dest) => dest,
            None => {
                return Err(Error::DeviceError("the next virtual machine has no bootstrap processor"));
            },
        };
        gsi_route_result(self.vm.map_gsi_vector(plan.gsi, plan.vector, dest))
    }

    /// Acts on an inter-VM message, if one was pending: takes the serial
    /// port it grants, or cancels the timer it names.
    fn handle_vm_msg(&mut self, msg: Option<VirtualMachineMsg<V::Serial>>) -> (r: Result<(), Error>)
        ensures
            final(self).vmcs == old(self).vmcs,
            final(self).pending() == old(self).pending(),
            !(msg matches Some(VirtualMachineMsg::CancelTimer(_))) ==> r is Ok,
    {
        match msg {
            Some(VirtualMachineMsg::GrantConsole(serial)) => {
                self.vm.grant_serial(serial);
                Ok(())
            },
            Some(VirtualMachineMsg::CancelTimer(id)) => self.vm.cancel_timer(id),
            None => Ok(()),
        }
    }

    /// Merges the interrupts of the timers that expired into the pending
    /// set; a failure of the timer wheel is local and merges nothing.
    fn merge_timer_interrupts(&mut self, expired: Result<Vec<(u8, InjectedInterruptType)>, Error>)
        ensures
            final(self).vmcs == old(self).vmcs,
            final(self).pending() == match expired {
                Ok(v) => merge_expired(old(self).pending(), v@),
                Err(_) => old(self).pending(),
            },
    {
        match expired {
            Ok(expired) => {
                let mut i: usize = 0;
                while i < expired.len()
                    invariant
                        i <= expired@.len(),
                        self.vmcs == old(self).vmcs,
                        self.pending() == merge_expired(old(self).pending(), expired@.subrange(0, i as int)),
                    decreases expired.len() - i,
                {
                    assert(expired@.subrange(0, i as int + 1).drop_last() =~= expired@.subrange(0, i as int));
                    let (vector, kind) = expired[i];
                    self.inject_interrupt(vector, kind);
                    i += 1;
                }
                assert(expired@.subrange(0, expired@.len() as int) =~= expired@);
            },
            Err(_) => {},
        }
    }

    /// Acts on the responses that devices queued while an exit was handled,
    /// in order: interrupts join the pending set, bytes the guest sent reach
    /// the host console while this machine owns the serial port, and a
    /// console switch hands the port over.
    fn handle_responses(&mut self, responses: Vec<DeviceEventResponse>) -> (r: Result<(), Error>)
        ensures
            final(self).vmcs == old(self).vmcs,
            (forall|i: int| 0 <= i < responses@.len() ==> !(#[trigger] responses@[i] is NextConsole)) ==> r is Ok,
            r is Ok ==> final(self).pending() == merge_responses(old(self).pending(), responses@),
    {
        let mut i: usize = 0;
        while i < responses.len()
            invariant
                i <= responses@.len(),
                self.vmcs == old(self).vmcs,
                self.pending() == merge_responses(old(self).pending(), responses@.subrange(0, i as int)),
                (forall|j: int| 0 <= j < responses@.len() ==> !(#[trigger] responses@[j] is NextConsole))
                    ==> !(responses@[i as int] is NextConsole) || i == responses@.len(),
            decreases responses.len() - i,
        {
            let ghost done = responses@.subrange(0, i as int);
            assert(responses@.subrange(0, i as int + 1).drop_last() =~= done);
            match responses[i] {
                DeviceEventResponse::Interrupt(vector, kind) => {
                    self.inject_interrupt(vector, kind);
                },
                DeviceEventResponse::NextConsole => {
                    self.hand_over_console()?;
                },
                DeviceEventResponse::GuestUartTransmitted(byte) => {
                    match console_output(self.vm.owns_serial(), byte) {
                        Some(byte) => self.vm.write_console(byte),
                        None => {},
                    }
                },
            }
            i += 1;
        }
        assert(responses@.subrange(0, responses@.len() as int) =~= responses@);
        Ok(())
    }

    /// Dispatches one exit to its handler, then acts on the responses that
    /// devices queued.
    fn handle_vmexit_impl(&mut self, guest_cpu: &mut GuestCpuState, exit: ExitReason) -> (r: Result<(), Error>)
        ensures
            exit_effect(old(self).vmcs, final(self).vmcs, *old(guest_cpu), *final(guest_cpu), exit, r),
    {
        let mut responses: Vec<DeviceEventResponse> = Vec::new();
        match exit.info {
            ExitInformation::RdMsr => {
                if guest_cpu.rcx & 0xffff_ffff != IA32_APIC_BASE as u64 {
                    return Err(Error::InvalidValue("RDMSR exit for an MSR that the bitmap passes through"));
                }
                let real_apic_base = self.vm.read_msr(IA32_APIC_BASE);
                let (rdx, rax) = apic_base_for_guest(real_apic_base);
                guest_cpu.rdx = rdx;
                guest_cpu.rax = rax;
                self.skip_emulated_instruction()?;
            },
            ExitInformation::ApicAccess(_info) => {
                self.skip_emulated_instruction()?;
            },
            ExitInformation::CrAccess(info) => {
                let rip = self.vmcs.read_field(VmcsField::GuestRip)?;
                let len = self.vmcs.read_field(VmcsField::VmExitInstructionLen)?;
                self.vm.emulate_cr_access(&mut self.vmcs, guest_cpu, info)?;
                self.vmcs.write_field(VmcsField::GuestRip, rip.wrapping_add(len))?;
            },
            ExitInformation::CpuId => {
                self.vm.emulate_cpuid(guest_cpu)?;
                self.skip_emulated_instruction()?;
            },
            ExitInformation::IoInstruction(info) => {
                emulate_portio(self, guest_cpu, info)?;
                self.skip_emulated_instruction()?;
            },
            ExitInformation::EptViolation(info) => {
                let rip = self.vmcs.read_field(VmcsField::GuestRip)?;
                let len = self.vmcs.read_field(VmcsField::VmExitInstructionLen)?;
                self.vm.handle_ept_violation(&mut self.vmcs, guest_cpu, info, &mut responses)?;
                self.vmcs.write_field(VmcsField::GuestRip, rip.wrapping_add(len))?;
            },
            ExitInformation::InterruptWindow => {},
            ExitInformation::ExternalInterrupt(info) => {
                if info.vector == UART_VECTOR {
                    self.handle_uart_keypress(&mut responses)?;
                } else if info.vector == IPC_VECTOR {
                    let msg = self.vm.recv_vm_msg();
                    self.handle_vm_msg(msg)?;
                }
                self.vm.eoi();
            },
            ExitInformation::Other(reason) => {
                return Err(Error::UnhandledExit(reason));
            },
        }
        self.handle_responses(responses)
    }

    /// Handles a VM exit: dispatches it, merges the interrupts of elapsed
    /// timers into the pending set, and delivers at most one pending
    /// interrupt on the coming entry.
    ///
    /// When it succeeds, interrupt-window exiting is set exactly when
    /// interrupts remain pending, so that the processor exits again as soon
    /// as the guest can take the next one. Errors of the handlers pass on and
    /// are fatal to the guest; a failure of the timer wheel is not.
    pub fn handle_vmexit(&mut self, guest_cpu: &mut GuestCpuState, exit: ExitReason) -> (r: Result<(), Error>)
        ensures
            r is Ok ==> (window_exiting(final(self).vmcs.field(VmcsField::CpuBasedVmExecControl))
                <==> final(self).pending() != Map::<u8, InjectedInterruptType>::empty()),
            exit.info is Other ==> r == Err::<(), Error>(Error::UnhandledExit(exit.info->Other_0)),
            r is Ok ==> guest_rip_effect(old(self).vmcs, final(self).vmcs, exit),
            r is Ok && exit.info is RdMsr ==> rdmsr_effect(*old(guest_cpu), *final(guest_cpu)),
            r is Ok && exit.info is IoInstruction
                ==> crate::portio::port_io_effect(*old(guest_cpu), *final(guest_cpu), exit.info->IoInstruction_0),
            exit.info is RdMsr && old(guest_cpu).rcx & 0xffff_ffff != IA32_APIC_BASE as u64
                ==> (r matches Err(Error::InvalidValue(_))),
            dispatch_cannot_fail(exit, *old(guest_cpu))
                && interruptibility_valid(old(self).vmcs.field(VmcsField::GuestInterruptibilityInfo)) ==> r is Ok,
            r is Ok && keeps_other_fields(exit) && !can_inject(
                old(self).vmcs.field(VmcsField::GuestInterruptibilityInfo),
                old(self).vmcs.field(VmcsField::GuestRflags),
            ) ==> final(self).vmcs.field(VmcsField::VmEntryIntrInfoField) == old(self).vmcs.field(
                VmcsField::VmEntryIntrInfoField,
            ),
    {
        self.handle_vmexit_impl(guest_cpu, exit)?;
        let expired = self.vm.expire_elapsed_timers();
        self.merge_timer_interrupts(expired);
        deliver_pending_interrupt(&mut self.vmcs, &mut self.pending_interrupts)?;
        Ok(())
    }
}

} // verus!
