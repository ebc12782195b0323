use mythril_vcpu::controls::CPU_INTERRUPT_WINDOW_EXITING;
use mythril_vcpu::error::Error;
use mythril_vcpu::field::VmcsField;
use mythril_vcpu::interrupts::InjectedInterruptType;
use mythril_vcpu::portio::{emulate_portio, join_port_values, split_port_values, splice_port_read, transfer_len};
use mythril_vcpu::setup::{msr_bitmap, HostState};
use mythril_vcpu::vcpu::{
    apic_base_for_guest, console_handover, console_output, gsi_route_result, next_console_vm, ConsoleHandover, VCpu, VcpuSetup, VirtualMachineMsg, VmContext, IPC_VECTOR, UART_VECTOR,
};
use mythril_vcpu::virtdev::{DeviceEvent, DeviceEventResponse, Port, PortIoValue};
use mythril_vcpu::vmcs::{ActiveVmcs, Vmcs, Vmx};
use mythril_vcpu::vmexit::{
    decode_exit, io_information,
    ApicAccessInformation, CrInformation, EptInformation, ExitInformation, ExitReason, ExternalInterruptInformation,
    GuestCpuState, IoInstructionInformation,
};

#[derive(Debug, Clone, PartialEq)]
enum Sent {
    Grant(u32, u8),
    Cancel(u32, u64),
}

#[derive(Default)]
struct MockVm {
    id: u32,
    max: u32,
    device_ports: Vec<Port>,
    port_writes: Vec<(Port, PortIoValue)>,
    read_value: u32,
    guest_memory: Vec<u8>,
    guest_writes: Vec<(u64, Vec<u8>)>,
    cpuid_calls: u32,
    apic_base: u64,
    serial: Option<u8>,
    serial_key: Option<u8>,
    console: Vec<u8>,
    inbox: Vec<VirtualMachineMsg<u8>>,
    sent: Vec<Sent>,
    gsi: Vec<(u8, u8, u8)>,
    timers: Vec<(u8, InjectedInterruptType)>,
    timers_fail: bool,
    gsi_fails: bool,
    short_reads: bool,
    wide_reads: bool,
    cancelled: Vec<u64>,
    eois: u32,
    dispatched: Vec<(Port, DeviceEvent)>,
    queued: Vec<DeviceEventResponse>,
}

impl VmContext for MockVm {
    type Serial = u8;

    fn vm_id(&self) -> u32 {
        self.id
    }

    fn max_vm_id(&self) -> u32 {
        self.max
    }

    fn port_read(&mut self, port: Port, val: &mut PortIoValue) -> Result<(), Error> {
        if !self.device_ports.contains(&port) {
            return Err(Error::MissingDevice("no device"));
        }
        if self.wide_reads {
            *val = PortIoValue::FourBytes(0, 0, 0, 1);
        } else {
            val.copy_from_u32(self.read_value);
        }
        Ok(())
    }

    fn port_write(&mut self, port: Port, val: PortIoValue) -> Result<(), Error> {
        if !self.device_ports.contains(&port) {
            return Err(Error::MissingDevice("no device"));
        }
        self.port_writes.push((port, val));
        Ok(())
    }

    fn read_guest_bytes(&mut self, _vmcs: &ActiveVmcs, addr: u64, len: usize) -> Result<Vec<u8>, Error> {
        let start = addr as usize;
        let end = if self.short_reads { start + len - 1 } else { start + len };
        Ok(self.guest_memory[start..end].to_vec())
    }

    fn write_guest_bytes(&mut self, _vmcs: &ActiveVmcs, addr: u64, bytes: &Vec<u8>) -> Result<(), Error> {
        self.guest_writes.push((addr, bytes.clone()));
        Ok(())
    }

    fn dispatch_event(
        &mut self,
        port: Port,
        event: DeviceEvent,
        responses: &mut Vec<DeviceEventResponse>,
    ) -> Result<(), Error> {
        self.dispatched.push((port, event));
        responses.extend(self.queued.drain(..));
        Ok(())
    }

    fn emulate_cpuid(&mut self, guest_cpu: &mut GuestCpuState) -> Result<(), Error> {
        self.cpuid_calls += 1;
        guest_cpu.rbx = 0x0800;
        Ok(())
    }

    fn emulate_cr_access(
        &mut self,
        vmcs: &mut ActiveVmcs,
        _guest_cpu: &mut GuestCpuState,
        _info: CrInformation,
    ) -> Result<(), Error> {
        vmcs.write_field(VmcsField::GuestCr3, 0x5000)
    }

    fn handle_ept_violation(
        &mut self,
        _vmcs: &mut ActiveVmcs,
        _guest_cpu: &mut GuestCpuState,
        _info: EptInformation,
        responses: &mut Vec<DeviceEventResponse>,
    ) -> Result<(), Error> {
        responses.extend(self.queued.drain(..));
        Ok(())
    }

    fn read_msr(&mut self, _msr: u32) -> u64 {
        self.apic_base
    }

    fn read_serial(&mut self) -> Option<(u8, Port)> {
        match (self.serial, self.serial_key) {
            (Some(_), Some(key)) => Some((key, 0x3f8)),
            _ => None,
        }
    }

    fn owns_serial(&self) -> bool {
        self.serial.is_some()
    }

    fn take_serial(&mut self) -> Option<u8> {
        self.serial.take()
    }

    fn grant_serial(&mut self, serial: u8) {
        self.serial = Some(serial);
    }

    fn write_console(&mut self, byte: u8) {
        self.console.push(byte);
    }

    fn recv_vm_msg(&mut self) -> Option<VirtualMachineMsg<u8>> {
        if self.inbox.is_empty() {
            None
        } else {
            Some(self.inbox.remove(0))
        }
    }

    fn send_vm_msg(&mut self, msg: VirtualMachineMsg<u8>, vm_id: u32) -> Result<(), Error> {
        match msg {
            VirtualMachineMsg::GrantConsole(s) => self.sent.push(Sent::Grant(vm_id, s)),
            VirtualMachineMsg::CancelTimer(id) => self.sent.push(Sent::Cancel(vm_id, id)),
        }
        Ok(())
    }

    fn bsp_apic_id(&self, vm_id: u32) -> Option<u8> {
        if vm_id < self.max {
            Some((vm_id * 4) as u8)
        } else {
            None
        }
    }

    fn map_gsi_vector(&mut self, gsi: u8, vector: u8, dest: u8) -> Result<(), Error> {
        if self.gsi_fails {
            return Err(Error::NotFound);
        }
        self.gsi.push((gsi, vector, dest));
        Ok(())
    }

    fn cancel_timer(&mut self, id: u64) -> Result<(), Error> {
        self.cancelled.push(id);
        Ok(())
    }

    fn expire_elapsed_timers(&mut self) -> Result<Vec<(u8, InjectedInterruptType)>, Error> {
        if self.timers_fail {
            return Err(Error::DeviceError("timer wheel"));
        }
        Ok(self.timers.drain(..).collect())
    }

    fn eoi(&mut self) {
        self.eois += 1;
    }
}

fn vmx() -> Vmx {
    Vmx {
        revision: 4,
        pinbased_ctls: 0xffff_ffff_0000_0016,
        procbased_ctls: 0xffff_ffff_0401_e172,
        procbased_ctls2: 0xffff_ffff_0000_0000,
        exit_ctls: 0xffff_ffff_0003_6dff,
        entry_ctls: 0xffff_ffff_0000_11ff,
        cr0_fixed0: 0x8000_0021,
        cr4_fixed0: 0x2000,
    }
}

fn host() -> HostState {
    HostState {
        cr0: 0x8000_0033,
        cr3: 0x10_0000,
        cr4: 0x2020,
        code_selector: 0x08,
        data_selector: 0x10,
        idtr_base: 0x1_1000,
        gdtr_base: 0x1_2000,
        fs_base: 0,
        gs_base: 0x1_3000,
        efer: 0xd01,
        exit_handler: 0x10_2000,
    }
}

fn setup() -> VcpuSetup {
    VcpuSetup { core_id: 2, stack_top: 0x20_0000, msr_bitmap: 0x30_0000, ept_pointer: 0x40_001e, apic_access_addr: 0x50_0000 }
}

/// A VCPU after an exit at RIP 0x1000 from a two-byte instruction, in a
/// guest that can take interrupts.
fn vcpu(vm: MockVm) -> VCpu<MockVm> {
    let active = Vmcs::new(Some(0x6000)).unwrap().activate(vmx()).unwrap();
    let mut v = VCpu::new(vm, active, setup(), host()).unwrap();
    v.vmcs.take_ops();
    v.vmcs.load_field(VmcsField::GuestRip, 0x1000);
    v.vmcs.load_field(VmcsField::VmExitInstructionLen, 2);
    v.vmcs.load_field(VmcsField::GuestRflags, 0x202);
    v.vmcs.load_field(VmcsField::GuestInterruptibilityInfo, 0);
    v
}

fn field(v: &mut VCpu<MockVm>, f: VmcsField) -> u64 {
    v.vmcs.read_field(f).unwrap()
}

fn window(v: &mut VCpu<MockVm>) -> bool {
    field(v, VmcsField::CpuBasedVmExecControl) & CPU_INTERRUPT_WINDOW_EXITING != 0
}

fn exit(info: ExitInformation) -> ExitReason {
    ExitReason { info }
}

fn io(size: u8, input: bool, string: bool, port: Port) -> ExitReason {
    exit(ExitInformation::IoInstruction(IoInstructionInformation { size, input, string, rep: string, port }))
}

#[test]
fn new_vcpu_programs_power_on_state() {
    let mut v = vcpu(MockVm::default());
    let active = Vmcs::new(Some(0x6000)).unwrap().activate(vmx()).unwrap();
    let mut fresh = VCpu::new(MockVm::default(), active, setup(), host()).unwrap();
    assert_eq!(field(&mut fresh, VmcsField::GuestRip), 0xfff0);
    assert_eq!(field(&mut fresh, VmcsField::GuestCsBase), 0xffff_0000);
    assert_eq!(field(&mut fresh, VmcsField::GuestCsSelector), 0xf000);
    assert_eq!(field(&mut fresh, VmcsField::GuestDsLimit), 0xffff);
    assert_eq!(field(&mut fresh, VmcsField::GuestCsArBytes), 0x9b);
    assert_eq!(field(&mut fresh, VmcsField::GuestTrArBytes), 0x8b);
    assert_eq!(field(&mut fresh, VmcsField::GuestLdtrArBytes), 0x82);
    assert_eq!(field(&mut fresh, VmcsField::GuestSsArBytes), 0x93);
    assert_eq!(field(&mut fresh, VmcsField::GuestRflags), 0x2);
    assert_eq!(field(&mut fresh, VmcsField::VmcsLinkPointer), 0xffff_ffff);
    assert_eq!(field(&mut fresh, VmcsField::VmcsLinkPointerHigh), 0xffff_ffff);
    assert_eq!(field(&mut fresh, VmcsField::GuestCr0), 0x20);
    assert_eq!(field(&mut fresh, VmcsField::Cr0GuestHostMask), 0x20);
    assert_eq!(field(&mut fresh, VmcsField::GuestCr4), 0x2000);
    assert_eq!(field(&mut fresh, VmcsField::GuestCr3), 0);
    assert_eq!(field(&mut fresh, VmcsField::VirtualProcessorId), 3);
    assert_eq!(field(&mut fresh, VmcsField::HostRsp), 0x20_0000 - 8);
    assert_eq!(field(&mut fresh, VmcsField::HostRip), 0x10_2000);
    assert_eq!(field(&mut fresh, VmcsField::HostCsSelector), 0x08);
    assert_eq!(field(&mut fresh, VmcsField::HostTrSelector), 0x10);
    assert_eq!(field(&mut fresh, VmcsField::EptPointer), 0x40_001e);
    assert_eq!(field(&mut fresh, VmcsField::ApicAccessAddr), 0x50_0000);
    assert_eq!(field(&mut fresh, VmcsField::MsrBitmap), 0x30_0000);
    assert_eq!(field(&mut fresh, VmcsField::CpuBasedVmExecControl), 0x9120_0000 | 0x0401_e172);
    assert_eq!(field(&mut fresh, VmcsField::SecondaryVmExecControl), 0x10ab);
    assert_eq!(field(&mut fresh, VmcsField::PinBasedVmExecControl), 0x17);
    assert_eq!(field(&mut fresh, VmcsField::VmExitControls), 0x0010_8200 | 0x0003_6dff);
    assert_eq!(field(&mut fresh, VmcsField::VmEntryControls), 0x11ff);
    assert_eq!(field(&mut fresh, VmcsField::ExceptionBitmap), 0);
    assert_eq!(field(&mut v, VmcsField::GuestRip), 0x1000);
}

#[test]
fn new_vcpu_refuses_a_stack_without_room() {
    let active = Vmcs::new(Some(0x6000)).unwrap().activate(vmx()).unwrap();
    let mut s = setup();
    s.stack_top = 4;
    assert!(matches!(VCpu::new(MockVm::default(), active, s, host()), Err(Error::InvalidValue(_))));
}

#[test]
fn new_vcpu_refuses_unsupported_controls() {
    let mut x = vmx();
    x.procbased_ctls2 = 0x0000_0003_0000_0000;
    let active = Vmcs::new(Some(0x6000)).unwrap().activate(x).unwrap();
    assert!(matches!(VCpu::new(MockVm::default(), active, setup(), host()), Err(Error::Vmcs(_))));
}

#[test]
fn msr_bitmap_exits_only_on_apic_base_reads() {
    let page = msr_bitmap();
    assert_eq!(page.len(), 4096);
    assert_eq!(page[3], 0x08);
    assert_eq!(page.iter().filter(|b| **b != 0).count(), 1);
}

#[test]
fn cpuid_exit_advances_rip_without_injection() {
    let mut v = vcpu(MockVm::default());
    let mut cpu = GuestCpuState { rax: 1, ..Default::default() };
    v.handle_vmexit(&mut cpu, exit(ExitInformation::CpuId)).unwrap();
    assert_eq!(v.vm.cpuid_calls, 1);
    assert_eq!(cpu.rbx, 0x0800);
    assert_eq!(field(&mut v, VmcsField::GuestRip), 0x1002);
    assert_eq!(field(&mut v, VmcsField::VmEntryIntrInfoField), 0);
    assert!(!window(&mut v));
}

#[test]
fn com1_byte_write_reaches_the_device() {
    let mut v = vcpu(MockVm { device_ports: vec![0x3f8], ..Default::default() });
    let mut cpu = GuestCpuState { rax: 0x41, ..Default::default() };
    v.handle_vmexit(&mut cpu, io(1, false, false, 0x3f8)).unwrap();
    assert_eq!(v.vm.port_writes, vec![(0x3f8, PortIoValue::OneByte(0x41))]);
    assert_eq!(field(&mut v, VmcsField::GuestRip), 0x1002);
    assert_eq!(cpu.rax, 0x41);
}

#[test]
fn apic_base_read_hides_x2apic() {
    let mut v = vcpu(MockVm { apic_base: 0xfee0_0d00, ..Default::default() });
    let mut cpu = GuestCpuState { rcx: 0x1b, rdx: 0x77, rax: 0x77, ..Default::default() };
    v.handle_vmexit(&mut cpu, exit(ExitInformation::RdMsr)).unwrap();
    assert_eq!(cpu.rdx, 0);
    assert_eq!(cpu.rax, 0xfee0_0900);
    assert_eq!(field(&mut v, VmcsField::GuestRip), 0x1002);
}

#[test]
fn other_msr_read_is_refused() {
    let mut v = vcpu(MockVm::default());
    let mut cpu = GuestCpuState { rcx: 0x10, ..Default::default() };
    let r = v.handle_vmexit(&mut cpu, exit(ExitInformation::RdMsr));
    assert!(matches!(r, Err(Error::InvalidValue(_))));
}

#[test]
fn two_timer_vectors_inject_the_lower() {
    let timers = vec![(0x30, InjectedInterruptType::ExternalInterrupt), (0x21, InjectedInterruptType::ExternalInterrupt)];
    let mut v = vcpu(MockVm { timers, ..Default::default() });
    let mut cpu = GuestCpuState::default();
    v.handle_vmexit(&mut cpu, exit(ExitInformation::InterruptWindow)).unwrap();
    assert_eq!(field(&mut v, VmcsField::VmEntryIntrInfoField), 0x8000_0021);
    assert!(window(&mut v));
    assert_eq!(field(&mut v, VmcsField::GuestRip), 0x1000);
    // the next window exit delivers the other one and closes the window
    v.handle_vmexit(&mut cpu, exit(ExitInformation::InterruptWindow)).unwrap();
    assert_eq!(field(&mut v, VmcsField::VmEntryIntrInfoField), 0x8000_0030);
    assert!(!window(&mut v));
}

#[test]
fn masked_guest_gets_no_injection() {
    let mut v = vcpu(MockVm::default());
    v.vmcs.load_field(VmcsField::GuestRflags, 0x2);
    v.inject_interrupt(0x30, InjectedInterruptType::ExternalInterrupt);
    let mut cpu = GuestCpuState::default();
    v.handle_vmexit(&mut cpu, exit(ExitInformation::InterruptWindow)).unwrap();
    assert_eq!(field(&mut v, VmcsField::VmEntryIntrInfoField), 0);
    assert!(window(&mut v));
    assert_eq!(v.pending_interrupts.pop_first(), Some((0x30, InjectedInterruptType::ExternalInterrupt)));
    assert!(v.pending_interrupts.is_empty());
}

#[test]
fn console_moves_to_the_next_vm() {
    let vm = MockVm {
        id: 0,
        max: 3,
        serial: Some(9),
        serial_key: Some(0x01),
        queued: vec![DeviceEventResponse::NextConsole],
        ..Default::default()
    };
    let mut v = vcpu(vm);
    let mut cpu = GuestCpuState::default();
    let e = exit(ExitInformation::ExternalInterrupt(ExternalInterruptInformation { vector: UART_VECTOR }));
    v.handle_vmexit(&mut cpu, e).unwrap();
    assert_eq!(v.vm.dispatched, vec![(0x3f8, DeviceEvent::HostUartReceived(0x01))]);
    assert_eq!(v.vm.serial, None);
    assert_eq!(v.vm.sent, vec![Sent::Grant(1, 9)]);
    // vector 0x24 on GSI 4 goes to the bootstrap processor of VM 1
    assert_eq!(v.vm.gsi, vec![(4, 0x24, 4)]);
    assert_eq!(v.vm.eois, 1);
    assert_eq!(field(&mut v, VmcsField::GuestRip), 0x1000);
}

#[test]
fn console_handover_without_serial_fails() {
    let vm = MockVm { id: 2, max: 3, queued: vec![DeviceEventResponse::NextConsole], ..Default::default() };
    let mut v = vcpu(vm);
    let mut cpu = GuestCpuState::default();
    let info = EptInformation { qualification: 0, guest_physical_address: 0xfec0_0000, guest_linear_address: 0 };
    let r = v.handle_vmexit(&mut cpu, exit(ExitInformation::EptViolation(info)));
    assert_eq!(r, Err(Error::NotFound));
}

#[test]
fn device_responses_are_applied_in_order() {
    let vm = MockVm {
        serial: Some(1),
        queued: vec![
            DeviceEventResponse::GuestUartTransmitted(b'h'),
            DeviceEventResponse::Interrupt(0x24, InjectedInterruptType::ExternalInterrupt),
            DeviceEventResponse::GuestUartTransmitted(b'i'),
        ],
        ..Default::default()
    };
    let mut v = vcpu(vm);
    let mut cpu = GuestCpuState::default();
    let info = EptInformation { qualification: 0, guest_physical_address: 0, guest_linear_address: 0 };
    v.handle_vmexit(&mut cpu, exit(ExitInformation::EptViolation(info))).unwrap();
    assert_eq!(v.vm.console, b"hi".to_vec());
    assert_eq!(field(&mut v, VmcsField::VmEntryIntrInfoField), 0x8000_0024);
    assert_eq!(field(&mut v, VmcsField::GuestRip), 0x1002);
}

#[test]
fn guest_output_is_dropped_without_the_serial_port() {
    let vm = MockVm { queued: vec![DeviceEventResponse::GuestUartTransmitted(b'x')], ..Default::default() };
    let mut v = vcpu(vm);
    let mut cpu = GuestCpuState::default();
    let info = EptInformation { qualification: 0, guest_physical_address: 0, guest_linear_address: 0 };
    v.handle_vmexit(&mut cpu, exit(ExitInformation::EptViolation(info))).unwrap();
    assert!(v.vm.console.is_empty());
}

#[test]
fn ipc_messages_grant_console_and_cancel_timers() {
    let vm = MockVm {
        inbox: vec![VirtualMachineMsg::GrantConsole(5), VirtualMachineMsg::CancelTimer(77)],
        ..Default::default()
    };
    let mut v = vcpu(vm);
    let mut cpu = GuestCpuState::default();
    let e = exit(ExitInformation::ExternalInterrupt(ExternalInterruptInformation { vector: IPC_VECTOR }));
    v.handle_vmexit(&mut cpu, e).unwrap();
    assert_eq!(v.vm.serial, Some(5));
    v.handle_vmexit(&mut cpu, e).unwrap();
    assert_eq!(v.vm.cancelled, vec![77]);
    // an empty channel is not an error
    v.handle_vmexit(&mut cpu, e).unwrap();
    assert_eq!(v.vm.eois, 3);
    assert_eq!(field(&mut v, VmcsField::GuestRip), 0x1000);
}

#[test]
fn other_vectors_are_acknowledged_only() {
    let mut v = vcpu(MockVm::default());
    let mut cpu = GuestCpuState::default();
    let e = exit(ExitInformation::ExternalInterrupt(ExternalInterruptInformation { vector: 0x99 }));
    v.handle_vmexit(&mut cpu, e).unwrap();
    assert_eq!(v.vm.eois, 1);
    assert!(v.vm.dispatched.is_empty());
}

#[test]
fn unknown_exit_is_reported() {
    let mut v = vcpu(MockVm::default());
    let mut cpu = GuestCpuState::default();
    assert_eq!(v.handle_vmexit(&mut cpu, exit(ExitInformation::Other(12))), Err(Error::UnhandledExit(12)));
}

#[test]
fn apic_access_and_cr_access_skip_the_instruction() {
    let mut v = vcpu(MockVm::default());
    let mut cpu = GuestCpuState::default();
    v.handle_vmexit(&mut cpu, exit(ExitInformation::ApicAccess(ApicAccessInformation { qualification: 0 })))
        .unwrap();
    assert_eq!(field(&mut v, VmcsField::GuestRip), 0x1002);
    v.handle_vmexit(&mut cpu, exit(ExitInformation::CrAccess(CrInformation { qualification: 3 }))).unwrap();
    assert_eq!(field(&mut v, VmcsField::GuestRip), 0x1004);
    assert_eq!(field(&mut v, VmcsField::GuestCr3), 0x5000);
}

#[test]
fn rip_wraps_like_the_processor() {
    let mut v = vcpu(MockVm::default());
    v.vmcs.load_field(VmcsField::GuestRip, u64::MAX);
    let mut cpu = GuestCpuState::default();
    v.handle_vmexit(&mut cpu, exit(ExitInformation::CpuId)).unwrap();
    assert_eq!(field(&mut v, VmcsField::GuestRip), 1);
}

#[test]
fn timer_failure_is_not_fatal() {
    let mut v = vcpu(MockVm { timers_fail: true, ..Default::default() });
    let mut cpu = GuestCpuState::default();
    assert_eq!(v.handle_vmexit(&mut cpu, exit(ExitInformation::InterruptWindow)), Ok(()));
}

#[test]
fn port_read_keeps_upper_bytes() {
    let mut v = vcpu(MockVm { device_ports: vec![0x60], read_value: 0xabcd, ..Default::default() });
    let mut cpu = GuestCpuState { rax: 0xdead_beef_1234_5678, ..Default::default() };
    emulate_portio(&mut v, &mut cpu, IoInstructionInformation { size: 2, input: true, string: false, rep: false, port: 0x60 })
        .unwrap();
    assert_eq!(cpu.rax, 0xdead_beef_1234_abcd);
    emulate_portio(&mut v, &mut cpu, IoInstructionInformation { size: 1, input: true, string: false, rep: false, port: 0x60 })
        .unwrap();
    assert_eq!(cpu.rax, 0xdead_beef_1234_abcd);
    emulate_portio(&mut v, &mut cpu, IoInstructionInformation { size: 4, input: true, string: false, rep: false, port: 0x60 })
        .unwrap();
    assert_eq!(cpu.rax, 0xdead_beef_0000_abcd);
}

#[test]
fn port_write_sends_low_bytes() {
    let mut v = vcpu(MockVm { device_ports: vec![0x70], ..Default::default() });
    let mut cpu = GuestCpuState { rax: 0x1122_3344_5566_7788, ..Default::default() };
    emulate_portio(&mut v, &mut cpu, IoInstructionInformation { size: 2, input: false, string: false, rep: false, port: 0x70 })
        .unwrap();
    emulate_portio(&mut v, &mut cpu, IoInstructionInformation { size: 4, input: false, string: false, rep: false, port: 0x70 })
        .unwrap();
    assert_eq!(
        v.vm.port_writes,
        vec![(0x70, PortIoValue::TwoBytes(0x77, 0x88)), (0x70, PortIoValue::FourBytes(0x55, 0x66, 0x77, 0x88))]
    );
    assert_eq!(cpu.rax, 0x1122_3344_5566_7788);
}

#[test]
fn port_io_without_device_fails() {
    let mut v = vcpu(MockVm::default());
    let mut cpu = GuestCpuState { rax: 1, ..Default::default() };
    let r = v.handle_vmexit(&mut cpu, io(1, false, false, 0x80));
    assert!(matches!(r, Err(Error::MissingDevice(_))));
    let r = emulate_portio(&mut v, &mut cpu, IoInstructionInformation { size: 1, input: true, string: false, rep: false, port: 0x80 });
    assert!(matches!(r, Err(Error::MissingDevice(_))));
    assert_eq!(cpu.rax, 1);
}

#[test]
fn port_io_width_must_be_supported() {
    let mut v = vcpu(MockVm { device_ports: vec![0x70], ..Default::default() });
    let mut cpu = GuestCpuState::default();
    let r = emulate_portio(&mut v, &mut cpu, IoInstructionInformation { size: 3, input: true, string: false, rep: false, port: 0x70 });
    assert!(matches!(r, Err(Error::InvalidValue(_))));
}

#[test]
fn outs_streams_guest_memory_to_the_device() {
    let vm = MockVm { device_ports: vec![0x3f8], guest_memory: vec![0, 0, 1, 2, 3, 4, 9], ..Default::default() };
    let mut v = vcpu(vm);
    v.vmcs.load_field(VmcsField::GuestLinearAddress, 2);
    let mut cpu = GuestCpuState { rcx: 2, rsi: 0x100, rdi: 0x200, ..Default::default() };
    v.handle_vmexit(&mut cpu, io(2, false, true, 0x3f8)).unwrap();
    assert_eq!(v.vm.port_writes, vec![(0x3f8, PortIoValue::TwoBytes(1, 2)), (0x3f8, PortIoValue::TwoBytes(3, 4))]);
    assert_eq!(cpu.rsi, 0x104);
    assert_eq!(cpu.rdi, 0x200);
    assert_eq!(cpu.rcx, 0);
    assert_eq!(field(&mut v, VmcsField::GuestRip), 0x1002);
}

#[test]
fn ins_fills_guest_memory_from_the_device() {
    let vm = MockVm { device_ports: vec![0x1f0], read_value: 0x0a0b, ..Default::default() };
    let mut v = vcpu(vm);
    v.vmcs.load_field(VmcsField::GuestLinearAddress, 0x8000);
    let mut cpu = GuestCpuState { rcx: 3, rsi: 0x100, rdi: 0x200, ..Default::default() };
    v.handle_vmexit(&mut cpu, io(2, true, true, 0x1f0)).unwrap();
    assert_eq!(v.vm.guest_writes, vec![(0x8000, vec![0x0a, 0x0b, 0x0a, 0x0b, 0x0a, 0x0b])]);
    assert_eq!(cpu.rdi, 0x206);
    assert_eq!(cpu.rsi, 0x100);
    assert_eq!(cpu.rcx, 0);
}

#[test]
fn string_io_helpers() {
    assert_eq!(transfer_len(3, 4), Ok(12));
    assert_eq!(transfer_len(0, 2), Ok(0));
    assert!(matches!(transfer_len(u64::MAX, 2), Err(Error::InvalidValue(_))));
    assert_eq!(
        split_port_values(&vec![1, 2, 3, 4, 5, 6, 7, 8], 4, 2),
        Ok(vec![PortIoValue::FourBytes(1, 2, 3, 4), PortIoValue::FourBytes(5, 6, 7, 8)])
    );
    assert_eq!(split_port_values(&vec![7, 8], 1, 2), Ok(vec![PortIoValue::OneByte(7), PortIoValue::OneByte(8)]));
    assert!(matches!(split_port_values(&vec![7, 8, 9], 2, 2), Err(Error::InvalidValue(_))));
    assert_eq!(
        join_port_values(&vec![PortIoValue::TwoBytes(1, 2), PortIoValue::TwoBytes(3, 4)], 2),
        Ok(vec![1, 2, 3, 4])
    );
    assert_eq!(join_port_values(&vec![], 4), Ok(vec![]));
    assert!(matches!(
        join_port_values(&vec![PortIoValue::TwoBytes(1, 2), PortIoValue::OneByte(3)], 2),
        Err(Error::DeviceError(_))
    ));
    assert_eq!(splice_port_read(0xffff_ffff_ffff_ffff, 0x12, 1), 0xffff_ffff_ffff_ff12);
    assert_eq!(splice_port_read(0, 0x1234_5678, 2), 0x5678);
}

#[test]
fn apic_base_and_console_helpers() {
    assert_eq!(apic_base_for_guest(0xfee0_0d00), (0, 0xfee0_0900));
    assert_eq!(apic_base_for_guest(0x1_fee0_0500), (1, 0xfee0_0100));
    assert_eq!(next_console_vm(0, 3), 1);
    assert_eq!(next_console_vm(2, 3), 0);
    assert_eq!(next_console_vm(u32::MAX, 7), 4);
}

#[test]
fn exit_decoding() {
    let info = io_information(0x03f8_0018);
    assert_eq!(info, IoInstructionInformation { size: 1, input: true, string: true, rep: false, port: 0x3f8 });
    let info = io_information(0x0060_0003);
    assert_eq!(info, IoInstructionInformation { size: 4, input: false, string: false, rep: false, port: 0x60 });
    assert_eq!(decode_exit(10, 0, 0, 0, 0), exit(ExitInformation::CpuId));
    assert_eq!(decode_exit(31, 0, 0, 0, 0), exit(ExitInformation::RdMsr));
    assert_eq!(decode_exit(7, 0, 0, 0, 0), exit(ExitInformation::InterruptWindow));
    assert_eq!(
        decode_exit(1, 0, 0x8000_0024, 0, 0),
        exit(ExitInformation::ExternalInterrupt(ExternalInterruptInformation { vector: 0x24 }))
    );
    assert_eq!(decode_exit(30, 0x03f8_0000, 0, 0, 0), io(1, false, false, 0x3f8));
    assert_eq!(decode_exit(0x8000_0021, 0, 0, 0, 0), exit(ExitInformation::Other(0x21)));
    assert_eq!(
        decode_exit(48, 0x181, 0, 0xfee0_0000, 0x10),
        exit(ExitInformation::EptViolation(EptInformation {
            qualification: 0x181,
            guest_physical_address: 0xfee0_0000,
            guest_linear_address: 0x10
        }))
    );
}

#[test]
fn console_handover_decision() {
    assert_eq!(console_handover(0, 3, true), Ok(ConsoleHandover { next_vm: 1, gsi: 4, vector: 0x24 }));
    assert_eq!(console_handover(2, 3, true), Ok(ConsoleHandover { next_vm: 0, gsi: 4, vector: 0x24 }));
    assert_eq!(console_handover(0, 3, false), Err(Error::NotFound));
    assert!(matches!(console_handover(0, 0, true), Err(Error::InvalidValue(_))));
    assert_eq!(gsi_route_result(Ok(())), Ok(()));
    assert!(matches!(gsi_route_result(Err(Error::NotFound)), Err(Error::DeviceError(_))));
    assert_eq!(console_output(true, b'a'), Some(b'a'));
    assert_eq!(console_output(false, b'a'), None);
}

#[test]
fn console_handover_reports_a_failed_reroute() {
    let vm = MockVm {
        id: 1,
        max: 2,
        serial: Some(3),
        gsi_fails: true,
        queued: vec![DeviceEventResponse::NextConsole],
        ..Default::default()
    };
    let mut v = vcpu(vm);
    let mut cpu = GuestCpuState::default();
    let info = EptInformation { qualification: 0, guest_physical_address: 0, guest_linear_address: 0 };
    let r = v.handle_vmexit(&mut cpu, exit(ExitInformation::EptViolation(info)));
    assert!(matches!(r, Err(Error::DeviceError(_))));
    assert_eq!(v.vm.sent, vec![Sent::Grant(0, 3)]);
}

#[test]
fn ins_refuses_a_value_of_another_width() {
    let vm = MockVm { device_ports: vec![0x1f0], wide_reads: true, ..Default::default() };
    let mut v = vcpu(vm);
    let mut cpu = GuestCpuState { rcx: 2, rdi: 0x200, ..Default::default() };
    let r = v.handle_vmexit(&mut cpu, io(2, true, true, 0x1f0));
    assert!(matches!(r, Err(Error::DeviceError(_))));
    assert!(v.vm.guest_writes.is_empty());
    assert_eq!(cpu.rdi, 0x200);
    assert_eq!(cpu.rcx, 2);
}

#[test]
fn outs_refuses_a_short_guest_buffer() {
    let vm = MockVm { device_ports: vec![0x3f8], guest_memory: vec![1, 2, 3, 4], short_reads: true, ..Default::default() };
    let mut v = vcpu(vm);
    v.vmcs.load_field(VmcsField::GuestLinearAddress, 0);
    let mut cpu = GuestCpuState { rcx: 1, ..Default::default() };
    let r = v.handle_vmexit(&mut cpu, io(4, false, true, 0x3f8));
    assert!(matches!(r, Err(Error::InvalidValue(_))));
    assert!(v.vm.port_writes.is_empty());
    assert_eq!(cpu.rcx, 1);
}

#[test]
fn string_io_overflow_is_refused() {
    let mut v = vcpu(MockVm { device_ports: vec![0x3f8], ..Default::default() });
    let mut cpu = GuestCpuState { rcx: u64::MAX, ..Default::default() };
    let r = v.handle_vmexit(&mut cpu, io(2, false, true, 0x3f8));
    assert!(matches!(r, Err(Error::InvalidValue(_))));
    let r = v.handle_vmexit(&mut cpu, io(4, true, true, 0x3f8));
    assert!(matches!(r, Err(Error::InvalidValue(_))));
    assert_eq!(cpu.rcx, u64::MAX);
}

#[test]
fn cr_access_rip_uses_the_exit_values() {
    let mut v = vcpu(MockVm::default());
    v.vmcs.load_field(VmcsField::VmExitInstructionLen, 3);
    let mut cpu = GuestCpuState::default();
    v.handle_vmexit(&mut cpu, exit(ExitInformation::CrAccess(CrInformation { qualification: 0 }))).unwrap();
    assert_eq!(field(&mut v, VmcsField::GuestRip), 0x1003);
}
