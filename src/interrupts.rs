//! Pending guest interrupts and the rule that delivers them.
use vstd::prelude::*;
use crate::controls::{CPU_INTERRUPT_WINDOW_EXITING, INTERRUPTIBILITY_DEFINED, RFLAGS_IF};
use crate::error::Error;
use crate::field::VmcsField;
use crate::vmcs::{ActiveVmcs, VmxOp};

verus! {

/// The kind of event that an injection delivers to the guest.
#[derive(Clone, Copy, Debug, PartialEq, Eq, Structural)]
pub enum InjectedInterruptType {
    ExternalInterrupt,
    NonMaskableInterrupt,
    HardwareException,
    SoftwareInterrupt,
    PrivilegedSoftwareException,
    SoftwareException,
    OtherEvent,
}

impl InjectedInterruptType {
    /// The interruption-type code of the VM-entry interruption-information
    /// field.
    pub open spec fn spec_code(self) -> u8 {
        match self {
            InjectedInterruptType::ExternalInterrupt => 0,
            InjectedInterruptType::NonMaskableInterrupt => 2,
            InjectedInterruptType::HardwareException => 3,
            InjectedInterruptType::SoftwareInterrupt => 4,
            InjectedInterruptType::PrivilegedSoftwareException => 5,
            InjectedInterruptType::SoftwareException => 6,
            InjectedInterruptType::OtherEvent => 7,
        }
    }

    /// The interruption-type code of this kind.
    #[verifier::when_used_as_spec(spec_code)]
    pub fn code(self) -> (r: u8)
        ensures
            r == self.spec_code(),
            r < 8,
    {
        match self {
            InjectedInterruptType::ExternalInterrupt => 0,
            InjectedInterruptType::NonMaskableInterrupt => 2,
            InjectedInterruptType::HardwareException => 3,
            InjectedInterruptType::SoftwareInterrupt => 4,
            InjectedInterruptType::PrivilegedSoftwareException => 5,
            InjectedInterruptType::SoftwareException => 6,
            InjectedInterruptType::OtherEvent => 7,
        }
    }
}

/// The VM-entry interruption-information value that injects `vector` as an
/// event of kind `kind`: the valid bit, the type code and the vector.
pub open spec fn spec_interruption_info(vector: u8, kind: InjectedInterruptType) -> u64 {
    0x8000_0000u64 | (vector as u64) | ((kind.spec_code() as u64) << 8u64)
}

/// Builds the VM-entry interruption-information value for an injection.
#[verifier::when_used_as_spec(spec_interruption_info)]
pub fn interruption_info(vector: u8, kind: InjectedInterruptType) -> (r: u64)
    ensures
        r == spec_interruption_info(vector, kind),
{
    0x8000_0000u64 | (vector as u64) | ((kind.code() as u64) << 8u64)
}

/// Whether `vector` is the lowest vector pending in `m`.
pub open spec fn is_lowest(m: Map<u8, InjectedInterruptType>, vector: u8) -> bool {
    &&& m.contains_key(vector)
    &&& forall|w: u8| #[trigger] m.contains_key(w) ==> vector <= w
}

/// The interrupts waiting to be injected, at most one per vector.
///
/// Delivery takes the lowest vector first; a second request for a pending
/// vector replaces its kind.
pub struct PendingInterrupts {
    slots: Vec<Option<InjectedInterruptType>>,
}

impl View for PendingInterrupts {
    type V = Map<u8, InjectedInterruptType>;

    closed spec fn view(&self) -> Map<u8, InjectedInterruptType> {
        Map::new(
            |v: u8| (v as int) < self.slots@.len() && self.slots@[v as int] is Some,
            |v: u8| self.slots@[v as int]->Some_0,
        )
    }
}

impl PendingInterrupts {
    /// An empty set.
    pub fn new() -> (r: PendingInterrupts)
        ensures
            r@ == Map::<u8, InjectedInterruptType>::empty(),
    {
        let mut slots: Vec<Option<InjectedInterruptType>> = Vec::new();
        let mut i: usize = 0;
        while i < 256
            invariant
                i <= 256,
                slots@.len() == i,
                forall|k: int| 0 <= k < i ==> slots@[k] is None,
            decreases 256 - i,
        {
            slots.push(None);
            i += 1;
        }
        let r = PendingInterrupts { slots };
        assert(r@ =~= Map::<u8, InjectedInterruptType>::empty());
        r
    }

    /// Records that `vector` is to be injected as `kind`, replacing the kind
    /// of a pending request for the same vector.
    pub fn insert(&mut self, vector: u8, kind: InjectedInterruptType)
        ensures
            final(self)@ == old(self)@.insert(vector, kind),
    {
        while self.slots.len() <= vector as usize
            invariant
                self@ == old(self)@,
            decreases vector as usize + 1 - self.slots.len(),
        {
            let ghost before = *self;
            self.slots.push(None);
            assert(self@ =~= before@);
        }
        self.slots.set(vector as usize, Some(kind));
        assert(self@ =~= old(self)@.insert(vector, kind));
    }

    /// Whether nothing is pending.
    pub fn is_empty(&self) -> (r: bool)
        ensures
            r <==> self@ == Map::<u8, InjectedInterruptType>::empty(),
    {
        let mut i: usize = 0;
        while i < self.slots.len() && i < 256
            invariant
                i <= self.slots@.len(),
                i <= 256,
                forall|k: int| 0 <= k < i ==> self.slots@[k] is None,
            decreases self.slots.len() - i,
        {
            if self.slots[i].is_some() {
                assert(i < 256);
                assert(self@.contains_key(i as u8));
                return false;
            }
            i += 1;
        }
        assert(self@ =~= Map::<u8, InjectedInterruptType>::empty());
        true
    }

    /// Removes and returns the pending interrupt with the lowest vector.
    pub fn pop_first(&mut self) -> (r: Option<(u8, InjectedInterruptType)>)
        ensures
            old(self)@ == Map::<u8, InjectedInterruptType>::empty() <==> r is None,
            r is None ==> final(self)@ == old(self)@,
            r matches Some((v, k)) ==> {
                &&& is_lowest(old(self)@, v)
                &&& old(self)@[v] == k
                &&& final(self)@ == old(self)@.remove(v)
            },
    {
        let mut i: usize = 0;
        while i < self.slots.len() && i < 256
            invariant
                i <= self.slots@.len(),
                i <= 256,
                *self == *old(self),
                forall|k: int| 0 <= k < i ==> self.slots@[k] is None,
            decreases self.slots.len() - i,
        {
            match self.slots[i] {
                Some(kind) => {
                    assert(i < 256);
                    let v = i as u8;
                    assert(old(self)@.contains_key(v));
                    assert(!Map::<u8, InjectedInterruptType>::empty().contains_key(v));
                    assert forall|w: u8| #[trigger] old(self)@.contains_key(w) implies v <= w by {
                        if w < v {
                            assert(self.slots@[w as int] is None);
                        }
                    }
                    self.slots.set(i, None);
                    assert(self@ =~= old(self)@.remove(v));
                    return Some((v, kind));
                },
                None => {},
            }
            i += 1;
        }
        assert(old(self)@ =~= Map::<u8, InjectedInterruptType>::empty());
        None
    }
}

/// Requesting vector `v` as `k1` and then as `k2` before a delivery leaves
/// exactly one pending entry for `v`, of kind `k2`, and the other entries as
/// they were.
pub proof fn lemma_request_twice_keeps_last(
    pending: PendingInterrupts,
    v: u8,
    k1: InjectedInterruptType,
    k2: InjectedInterruptType,
)
    ensures
        pending@.insert(v, k1).insert(v, k2) == pending@.insert(v, k2),
        pending@.insert(v, k1).insert(v, k2)[v] == k2,
        pending@.insert(v, k1).insert(v, k2).dom() == pending@.dom().insert(v),
{
    let m = pending@;
    assert(m.insert(v, k1).insert(v, k2) =~= m.insert(v, k2));
    assert(m.insert(v, k1).insert(v, k2).dom() =~= m.dom().insert(v));
}

/// Whether the interrupt-window exiting control is set in `ctrl`.
pub open spec fn window_exiting(ctrl: u64) -> bool {
    ctrl & CPU_INTERRUPT_WINDOW_EXITING != 0
}

/// Whether a guest in interruptibility state `interruptibility` with flags
/// `rflags` can take an interrupt now: nothing blocks it and RFLAGS.IF is set.
pub open spec fn can_inject(interruptibility: u64, rflags: u64) -> bool {
    interruptibility == 0 && rflags & RFLAGS_IF != 0
}

/// Whether `interruptibility` holds only bits that the field defines.
pub open spec fn interruptibility_valid(interruptibility: u64) -> bool {
    interruptibility & !INTERRUPTIBILITY_DEFINED == 0
}

proof fn lemma_window_bit(ctrl: u64)
    ensures
        window_exiting(ctrl | CPU_INTERRUPT_WINDOW_EXITING),
        !window_exiting(ctrl & !CPU_INTERRUPT_WINDOW_EXITING),
        (ctrl | CPU_INTERRUPT_WINDOW_EXITING) & !CPU_INTERRUPT_WINDOW_EXITING
            == ctrl & !CPU_INTERRUPT_WINDOW_EXITING,
{
    assert((ctrl | 4u64) & 4u64 != 0) by (bit_vector);
    assert((ctrl & !4u64) & 4u64 == 0) by (bit_vector);
    assert((ctrl | 4u64) & !4u64 == ctrl & !4u64) by (bit_vector);
}

/// The lowest vector pending in `m` (meaningful when `m` is not empty).
pub open spec fn lowest_vector(m: Map<u8, InjectedInterruptType>) -> u8 {
    choose|v: u8| is_lowest(m, v)
}

proof fn lemma_lowest_unique(m: Map<u8, InjectedInterruptType>, v: u8)
    requires
        is_lowest(m, v),
    ensures
        lowest_vector(m) == v,
{
    let w = lowest_vector(m);
    assert(is_lowest(m, w));
    assert(w <= v && v <= w);
}

/// The primary processor-based controls after delivery, given the controls
/// `ctrl` before it and whether interrupts remain to be delivered.
pub open spec fn controls_after(ctrl: u64, more_pending: bool) -> u64 {
    if more_pending {
        ctrl | CPU_INTERRUPT_WINDOW_EXITING
    } else {
        ctrl & !CPU_INTERRUPT_WINDOW_EXITING
    }
}

/// Delivers at most one pending interrupt on the coming VM entry.
///
/// With nothing pending, interrupt-window exiting is cleared. Otherwise the
/// guest's interruptibility state and RFLAGS decide: when the guest cannot
/// take an interrupt, interrupt-window exiting is set so that the processor
/// exits as soon as it can; when it can, the lowest pending vector is
/// injected and interrupt-window exiting stays set exactly when more remain.
/// Returns the injected interrupt, if any. Fails with
/// `Error::InvalidValue` when the interruptibility field holds undefined
/// bits, changing nothing.
pub fn deliver_pending_interrupt(vmcs: &mut ActiveVmcs, pending: &mut PendingInterrupts)
    -> (r: Result<Option<(u8, InjectedInterruptType)>, Error>)
    ensures
        ({
            let ctrl = old(vmcs).field(VmcsField::CpuBasedVmExecControl);
            let intr = old(vmcs).field(VmcsField::GuestInterruptibilityInfo);
            let rflags = old(vmcs).field(VmcsField::GuestRflags);
            let was_empty = old(pending)@ == Map::<u8, InjectedInterruptType>::empty();
            let v = lowest_vector(old(pending)@);
            &&& r is Err <==> (!was_empty && !interruptibility_valid(intr))
            &&& r is Err ==> r->Err_0 is InvalidValue && *final(vmcs) == *old(vmcs) && final(pending)@ == old(pending)@
            &&& r is Ok ==> {
                &&& final(vmcs).spec_frame() == old(vmcs).spec_frame()
                &&& final(vmcs).spec_vmx() == old(vmcs).spec_vmx()
                &&& (r->Ok_0 is Some <==> (!was_empty && can_inject(intr, rflags)))
                &&& (window_exiting(final(vmcs).field(VmcsField::CpuBasedVmExecControl))
                    <==> final(pending)@ != Map::<u8, InjectedInterruptType>::empty())
                &&& (window_exiting(final(vmcs).field(VmcsField::CpuBasedVmExecControl)) <==> (!was_empty
                    && (!can_inject(intr, rflags) || final(pending)@ != Map::<u8, InjectedInterruptType>::empty())))
                &&& forall|g: VmcsField| g != VmcsField::CpuBasedVmExecControl && g != VmcsField::VmEntryIntrInfoField
                    ==> #[trigger] final(vmcs).field(g) == old(vmcs).field(g)
                &&& if was_empty || !can_inject(intr, rflags) {
                    &&& final(pending)@ == old(pending)@
                    &&& final(vmcs).field(VmcsField::VmEntryIntrInfoField) == old(vmcs).field(VmcsField::VmEntryIntrInfoField)
                    &&& final(vmcs).field(VmcsField::CpuBasedVmExecControl) == controls_after(ctrl, !was_empty)
                    &&& final(vmcs).ops() == old(vmcs).ops().push(VmxOp::Write {
                        field: VmcsField::CpuBasedVmExecControl,
                        value: controls_after(ctrl, !was_empty),
                    })
                } else {
                    let info = spec_interruption_info(v, old(pending)@[v]);
                    let more = final(pending)@ != Map::<u8, InjectedInterruptType>::empty();
                    &&& is_lowest(old(pending)@, v)
                    &&& r->Ok_0 == Some((v, old(pending)@[v]))
                    &&& final(pending)@ == old(pending)@.remove(v)
                    &&& final(vmcs).field(VmcsField::VmEntryIntrInfoField) == info
                    &&& final(vmcs).field(VmcsField::CpuBasedVmExecControl) == controls_after(ctrl, more)
                    &&& final(vmcs).ops() == old(vmcs).ops()
                        .push(VmxOp::Write { field: VmcsField::VmEntryIntrInfoField, value: info })
                        .push(VmxOp::Write { field: VmcsField::CpuBasedVmExecControl, value: controls_after(ctrl, more) })
                }
            }
        }),
{
    let ctrl = vmcs.read_field(VmcsField::CpuBasedVmExecControl)?;
    proof {
        lemma_window_bit(ctrl);
    }
    if pending.is_empty() {
        vmcs.write_field(VmcsField::CpuBasedVmExecControl, ctrl & !CPU_INTERRUPT_WINDOW_EXITING)?;
        return Ok(None);
    }
    let intr = vmcs.read_field(VmcsField::GuestInterruptibilityInfo)?;
    if intr & !INTERRUPTIBILITY_DEFINED != 0 {
        return Err(Error::InvalidValue("undefined bits in the guest interruptibility state"));
    }
    let rflags = vmcs.read_field(VmcsField::GuestRflags)?;
    if intr != 0 || rflags & RFLAGS_IF == 0 {
        vmcs.write_field(VmcsField::CpuBasedVmExecControl, ctrl | CPU_INTERRUPT_WINDOW_EXITING)?;
        return Ok(None);
    }
    match pending.pop_first() {
        None => Ok(None),
        Some((vector, kind)) => {
            proof {
                lemma_lowest_unique(old(pending)@, vector);
            }
            vmcs.write_field(VmcsField::VmEntryIntrInfoField, interruption_info(vector, kind))?;
            if !pending.is_empty() {
                vmcs.write_field(VmcsField::CpuBasedVmExecControl, ctrl | CPU_INTERRUPT_WINDOW_EXITING)?;
            } else {
                vmcs.write_field(VmcsField::CpuBasedVmExecControl, ctrl & !CPU_INTERRUPT_WINDOW_EXITING)?;
            }
            Ok(Some((vector, kind)))
        },
    }
}

} // verus!
