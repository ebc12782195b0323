use mythril_vcpu::controls::CPU_INTERRUPT_WINDOW_EXITING;
use mythril_vcpu::error::Error;
use mythril_vcpu::field::VmcsField;
use mythril_vcpu::interrupts::{deliver_pending_interrupt, interruption_info, InjectedInterruptType, PendingInterrupts};
use mythril_vcpu::vmcs::{ActiveVmcs, Vmcs, Vmx};

fn vmcs_with(interruptibility: u64, rflags: u64, ctrl: u64) -> ActiveVmcs {
    let vmx = Vmx {
        revision: 1,
        pinbased_ctls: 0xffff_ffff_0000_0000,
        procbased_ctls: 0xffff_ffff_0000_0000,
        procbased_ctls2: 0xffff_ffff_0000_0000,
        exit_ctls: 0xffff_ffff_0000_0000,
        entry_ctls: 0xffff_ffff_0000_0000,
        cr0_fixed0: 0,
        cr4_fixed0: 0,
    };
    let mut a = Vmcs::new(Some(0x1000)).unwrap().activate(vmx).unwrap();
    a.load_field(VmcsField::GuestInterruptibilityInfo, interruptibility);
    a.load_field(VmcsField::GuestRflags, rflags);
    a.load_field(VmcsField::CpuBasedVmExecControl, ctrl);
    a.take_ops();
    a
}

fn window(a: &mut ActiveVmcs) -> bool {
    a.read_field(VmcsField::CpuBasedVmExecControl).unwrap() & CPU_INTERRUPT_WINDOW_EXITING != 0
}

#[test]
fn interruption_info_layout() {
    assert_eq!(interruption_info(0x21, InjectedInterruptType::ExternalInterrupt), 0x8000_0021);
    assert_eq!(interruption_info(2, InjectedInterruptType::NonMaskableInterrupt), 0x8000_0202);
    assert_eq!(interruption_info(0x0e, InjectedInterruptType::HardwareException), 0x8000_030e);
    assert_eq!(interruption_info(0x80, InjectedInterruptType::SoftwareInterrupt), 0x8000_0480);
    assert_eq!(interruption_info(1, InjectedInterruptType::PrivilegedSoftwareException), 0x8000_0501);
    assert_eq!(interruption_info(3, InjectedInterruptType::SoftwareException), 0x8000_0603);
    assert_eq!(interruption_info(0, InjectedInterruptType::OtherEvent), 0x8000_0700);
}

#[test]
fn pending_set_orders_by_vector() {
    let mut p = PendingInterrupts::new();
    assert!(p.is_empty());
    p.insert(0x30, InjectedInterruptType::ExternalInterrupt);
    p.insert(0x21, InjectedInterruptType::ExternalInterrupt);
    p.insert(0x40, InjectedInterruptType::HardwareException);
    assert!(!p.is_empty());
    assert_eq!(p.pop_first(), Some((0x21, InjectedInterruptType::ExternalInterrupt)));
    assert_eq!(p.pop_first(), Some((0x30, InjectedInterruptType::ExternalInterrupt)));
    assert_eq!(p.pop_first(), Some((0x40, InjectedInterruptType::HardwareException)));
    assert_eq!(p.pop_first(), None);
    assert!(p.is_empty());
}

#[test]
fn pending_set_keeps_the_last_kind_of_a_vector() {
    let mut p = PendingInterrupts::new();
    p.insert(0x33, InjectedInterruptType::ExternalInterrupt);
    p.insert(0x33, InjectedInterruptType::NonMaskableInterrupt);
    assert_eq!(p.pop_first(), Some((0x33, InjectedInterruptType::NonMaskableInterrupt)));
    assert_eq!(p.pop_first(), None);
}

#[test]
fn pending_set_edge_vectors() {
    let mut p = PendingInterrupts::new();
    p.insert(255, InjectedInterruptType::OtherEvent);
    p.insert(0, InjectedInterruptType::HardwareException);
    assert_eq!(p.pop_first(), Some((0, InjectedInterruptType::HardwareException)));
    assert_eq!(p.pop_first(), Some((255, InjectedInterruptType::OtherEvent)));
}

#[test]
fn lowest_vector_is_injected_first() {
    let mut a = vmcs_with(0, 0x202, 0);
    let mut p = PendingInterrupts::new();
    p.insert(0x30, InjectedInterruptType::ExternalInterrupt);
    p.insert(0x21, InjectedInterruptType::ExternalInterrupt);
    p.insert(0x40, InjectedInterruptType::ExternalInterrupt);
    let r = deliver_pending_interrupt(&mut a, &mut p).unwrap();
    assert_eq!(r, Some((0x21, InjectedInterruptType::ExternalInterrupt)));
    assert_eq!(a.read_field(VmcsField::VmEntryIntrInfoField), Ok(0x8000_0021));
    assert!(window(&mut a));
}

#[test]
fn injection_only_when_unblocked_and_if_set() {
    let cases = [
        (0u64, 0x202u64, true),
        (0, 0x002, false),
        (1, 0x202, false),
        (2, 0x202, false),
        (4, 0x202, false),
        (8, 0x202, false),
        (0x10, 0x202, false),
        (0, u64::MAX, true),
    ];
    for &(intr, rflags, injects) in cases.iter() {
        let mut a = vmcs_with(intr, rflags, 0);
        let mut p = PendingInterrupts::new();
        p.insert(0x30, InjectedInterruptType::ExternalInterrupt);
        let r = deliver_pending_interrupt(&mut a, &mut p).unwrap();
        assert_eq!(r.is_some(), injects);
        assert_eq!(p.is_empty(), injects);
        // set when the guest was blocked, clear once nothing remains
        assert_eq!(window(&mut a), !injects);
    }
}

#[test]
fn undefined_interruptibility_bits_are_refused() {
    let mut a = vmcs_with(0x20, 0x202, 0);
    let mut p = PendingInterrupts::new();
    p.insert(0x30, InjectedInterruptType::ExternalInterrupt);
    let r = deliver_pending_interrupt(&mut a, &mut p);
    assert!(matches!(r, Err(Error::InvalidValue(_))));
    assert!(!p.is_empty());
    assert!(a.take_ops().is_empty());
}

#[test]
fn nothing_pending_clears_the_window() {
    let mut a = vmcs_with(0x20, 0, 0x8000_0004);
    let mut p = PendingInterrupts::new();
    assert_eq!(deliver_pending_interrupt(&mut a, &mut p), Ok(None));
    assert_eq!(a.read_field(VmcsField::CpuBasedVmExecControl), Ok(0x8000_0000));
}

#[test]
fn blocked_guest_keeps_pending_and_sets_the_window() {
    let mut a = vmcs_with(0, 0x002, 0x8000_0000);
    let mut p = PendingInterrupts::new();
    p.insert(0x30, InjectedInterruptType::ExternalInterrupt);
    assert_eq!(deliver_pending_interrupt(&mut a, &mut p), Ok(None));
    assert_eq!(a.read_field(VmcsField::CpuBasedVmExecControl), Ok(0x8000_0004));
    assert_eq!(a.read_field(VmcsField::VmEntryIntrInfoField), Ok(0));
    assert_eq!(p.pop_first(), Some((0x30, InjectedInterruptType::ExternalInterrupt)));
}

#[test]
fn last_injection_clears_the_window() {
    let mut a = vmcs_with(0, 0x202, 0x8000_0004);
    let mut p = PendingInterrupts::new();
    p.insert(0x0e, InjectedInterruptType::HardwareException);
    let r = deliver_pending_interrupt(&mut a, &mut p).unwrap();
    assert_eq!(r, Some((0x0e, InjectedInterruptType::HardwareException)));
    assert_eq!(a.read_field(VmcsField::VmEntryIntrInfoField), Ok(0x8000_030e));
    assert_eq!(a.read_field(VmcsField::CpuBasedVmExecControl), Ok(0x8000_0000));
}
