//! The Virtual Machine Control Structure and its handle states.
//!
//! The processor keeps the VMCS in its own memory and reaches it only through
//! the VMX instructions. This module keeps, for each VMCS, the contents of its
//! fields as the VCPU engine knows them and the ordered list of VMX operations
//! (activate, clear, write) that the engine has asked for. The host layer
//! carries those operations out with VMPTRLD, VMCLEAR and VMWRITE, and loads
//! the fields that the processor fills on a VM exit back into the handle.
//!
//! A field can be read or written only through an [`ActiveVmcs`] or a
//! [`TemporaryActiveVmcs`]; an inactive [`Vmcs`] offers neither.
use vstd::prelude::*;
use crate::error::Error;
use crate::field::VmcsField;

verus! {

/// Capability MSR: the VMCS revision identifier and basic VMX facts.
pub const IA32_VMX_BASIC: u32 = 0x480;

/// The VMCS revision identifier held in bits 30:0 of `IA32_VMX_BASIC`.
pub fn vmx_revision(basic: u64) -> (r: u32)
    ensures
        r as u64 == basic & 0x7fff_ffff,
{
    assert(basic & 0x7fff_ffff <= 0x7fff_ffff) by (bit_vector);
    (basic & 0x7fff_ffff) as u32
}

/// Capability MSR: allowed settings of the pin-based controls.
pub const IA32_VMX_PINBASED_CTLS: u32 = 0x481;
/// Capability MSR: allowed settings of the primary processor-based controls.
pub const IA32_VMX_PROCBASED_CTLS: u32 = 0x482;
/// Capability MSR: allowed settings of the VM-exit controls.
pub const IA32_VMX_EXIT_CTLS: u32 = 0x483;
/// Capability MSR: allowed settings of the VM-entry controls.
pub const IA32_VMX_ENTRY_CTLS: u32 = 0x484;
/// Capability MSR: CR0 bits fixed to 1 in VMX operation.
pub const IA32_VMX_CR0_FIXED0: u32 = 0x486;
/// Capability MSR: CR4 bits fixed to 1 in VMX operation.
pub const IA32_VMX_CR4_FIXED0: u32 = 0x488;
/// Capability MSR: allowed settings of the secondary processor-based controls.
pub const IA32_VMX_PROCBASED_CTLS2: u32 = 0x48b;

/// The value that a control field must hold when `value` is asked for under
/// the capability MSR `fixed`: the low half lists the bits that must be 1,
/// the high half the bits that may be 1.
pub open spec fn fixed_value(value: u64, fixed: u64) -> u64 {
    (value & (fixed >> 32u64)) | (fixed & 0xffff_ffffu64)
}

/// Whether every bit of `value` survives the capability MSR `fixed`.
pub open spec fn fixed_allows(value: u64, fixed: u64) -> bool {
    value & !fixed_value(value, fixed) == 0
}

/// Forces the required bits of a control value on and the forbidden ones off.
///
/// Fails with `Error::Vmcs` when the caller asked for a bit that the
/// capability MSR forbids; otherwise returns the value to write.
pub fn fixed_control_value(value: u64, fixed: u64) -> (r: Result<u64, Error>)
    ensures
        r is Ok <==> fixed_allows(value, fixed),
        r is Err ==> r->Err_0 is Vmcs,
        r is Ok ==> r->Ok_0 == fixed_value(value, fixed),
{
    let low = fixed & 0xffff_ffff;
    let high = fixed >> 32;
    let required = (value & high) | low;
    if value & !required != 0 {
        Err(Error::Vmcs("requested control bit not allowed by the capability MSR"))
    } else {
        Ok(required)
    }
}

/// The size of a VMCS region.
pub const VMCS_REGION_SIZE: u64 = 4096;

/// What the host layer learned when VMX operation was entered on this core:
/// the VMCS revision identifier and the capability MSRs that govern the
/// control fields. They are read once and not revisited.
#[derive(Clone, Copy, Debug, PartialEq, Eq, Structural)]
pub struct Vmx {
    pub revision: u32,
    pub pinbased_ctls: u64,
    pub procbased_ctls: u64,
    pub procbased_ctls2: u64,
    pub exit_ctls: u64,
    pub entry_ctls: u64,
    pub cr0_fixed0: u64,
    pub cr4_fixed0: u64,
}

impl Vmx {
    /// The recorded value of the capability MSR with index `msr`, if it is
    /// one of those recorded.
    pub open spec fn spec_capability(&self, msr: u32) -> Option<u64> {
        if msr == IA32_VMX_PINBASED_CTLS {
            Some(self.pinbased_ctls)
        } else if msr == IA32_VMX_PROCBASED_CTLS {
            Some(self.procbased_ctls)
        } else if msr == IA32_VMX_PROCBASED_CTLS2 {
            Some(self.procbased_ctls2)
        } else if msr == IA32_VMX_EXIT_CTLS {
            Some(self.exit_ctls)
        } else if msr == IA32_VMX_ENTRY_CTLS {
            Some(self.entry_ctls)
        } else if msr == IA32_VMX_CR0_FIXED0 {
            Some(self.cr0_fixed0)
        } else if msr == IA32_VMX_CR4_FIXED0 {
            Some(self.cr4_fixed0)
        } else {
            None
        }
    }

    /// Looks up a recorded capability MSR.
    #[verifier::when_used_as_spec(spec_capability)]
    pub fn capability(&self, msr: u32) -> (r: Option<u64>)
        ensures
            r == self.spec_capability(msr),
    {
        if msr == IA32_VMX_PINBASED_CTLS {
            Some(self.pinbased_ctls)
        } else if msr == IA32_VMX_PROCBASED_CTLS {
            Some(self.procbased_ctls)
        } else if msr == IA32_VMX_PROCBASED_CTLS2 {
            Some(self.procbased_ctls2)
        } else if msr == IA32_VMX_EXIT_CTLS {
            Some(self.exit_ctls)
        } else if msr == IA32_VMX_ENTRY_CTLS {
            Some(self.entry_ctls)
        } else if msr == IA32_VMX_CR0_FIXED0 {
            Some(self.cr0_fixed0)
        } else if msr == IA32_VMX_CR4_FIXED0 {
            Some(self.cr4_fixed0)
        } else {
            None
        }
    }
}

/// Whether `write_with_fixed` succeeds for `value` under the capability MSR
/// `msr` of `vmx`: the MSR is recorded and allows every requested bit.
pub open spec fn fixed_write_allowed(vmx: Vmx, value: u64, msr: u32) -> bool {
    match vmx.spec_capability(msr) {
        None => false,
        Some(fixed) => fixed_allows(value, fixed),
    }
}

/// The value that `write_with_fixed` stores for `value` under the capability
/// MSR `msr` of `vmx`.
pub open spec fn fixed_write_value(vmx: Vmx, value: u64, msr: u32) -> u64 {
    match vmx.spec_capability(msr) {
        None => value,
        Some(fixed) => fixed_value(value, fixed),
    }
}

/// A VMX operation that the host layer must carry out, in order.
#[derive(Clone, Copy, Debug, PartialEq, Eq, Structural)]
pub enum VmxOp {
    /// Write `revision` into the first word of the region at `frame`, then
    /// make it the current VMCS (VMPTRLD).
    Activate { frame: u64, revision: u32 },
    /// Flush the region at `frame` and make it inactive (VMCLEAR).
    Clear { frame: u64 },
    /// Write `value` into `field` of the current VMCS (VMWRITE).
    Write { field: VmcsField, value: u64 },
}

/// The value of `f` in a list of field entries: the first entry for `f`, or
/// zero when there is none.
pub open spec fn field_lookup(entries: Seq<(VmcsField, u64)>, f: VmcsField) -> u64
    decreases entries.len(),
{
    if entries.len() == 0 {
        0
    } else if entries[0].0 == f {
        entries[0].1
    } else {
        field_lookup(entries.drop_first(), f)
    }
}

proof fn lemma_lookup_update(entries: Seq<(VmcsField, u64)>, i: int, f: VmcsField, v: u64, g: VmcsField)
    requires
        0 <= i < entries.len(),
        entries[i].0 == f,
        forall|j: int| 0 <= j < i ==> entries[j].0 != f,
    ensures
        field_lookup(entries.update(i, (f, v)), g) == if g == f { v } else { field_lookup(entries, g) },
    decreases i,
{
    let u = entries.update(i, (f, v));
    if i == 0 {
        assert(u.drop_first() =~= entries.drop_first());
    } else {
        assert(u.drop_first() =~= entries.drop_first().update(i - 1, (f, v)));
        lemma_lookup_update(entries.drop_first(), i - 1, f, v, g);
    }
}

proof fn lemma_lookup_push(entries: Seq<(VmcsField, u64)>, f: VmcsField, v: u64, g: VmcsField)
    requires
        forall|j: int| 0 <= j < entries.len() ==> entries[j].0 != f,
    ensures
        field_lookup(entries.push((f, v)), g) == if g == f { v } else { field_lookup(entries, g) },
    decreases entries.len(),
{
    let p = entries.push((f, v));
    if entries.len() > 0 {
        assert(p[0] == entries[0]);
        assert(p.drop_first() =~= entries.drop_first().push((f, v)));
        lemma_lookup_push(entries.drop_first(), f, v, g);
        assert(entries[0].0 != f);
        if entries[0].0 != g {
            assert(field_lookup(p, g) == field_lookup(p.drop_first(), g));
            assert(field_lookup(entries, g) == field_lookup(entries.drop_first(), g));
        }
    } else {
        assert(p[0] == (f, v));
        assert(p.drop_first() =~= Seq::<(VmcsField, u64)>::empty());
        assert(field_lookup(entries, g) == 0);
        if g != f {
            assert(field_lookup(p, g) == field_lookup(p.drop_first(), g));
        }
    }
}

/// Sets `f` to `v` in a list of field entries.
fn store_field(entries: &mut Vec<(VmcsField, u64)>, f: VmcsField, v: u64)
    ensures
        forall|g: VmcsField| field_lookup(final(entries)@, g) == if g == f { v } else { field_lookup(old(entries)@, g) },
{
    let mut i: usize = 0;
    while i < entries.len()
        invariant
            i <= entries.len(),
            entries@ == old(entries)@,
            forall|j: int| 0 <= j < i ==> entries@[j].0 != f,
        decreases entries.len() - i,
    {
        if entries[i].0 == f {
            let ghost before = entries@;
            entries.set(i, (f, v));
            proof {
                assert(entries@ == before.update(i as int, (f, v)));
                assert forall|g: VmcsField| field_lookup(entries@, g) == if g == f { v } else { field_lookup(before, g) } by {
                    lemma_lookup_update(before, i as int, f, v, g);
                }
            }
            return;
        }
        i += 1;
    }
    let ghost before = entries@;
    entries.push((f, v));
    proof {
        assert forall|g: VmcsField| field_lookup(entries@, g) == if g == f { v } else { field_lookup(before, g) } by {
            lemma_lookup_push(before, f, v, g);
        }
    }
}

/// Reads `f` from a list of field entries.
fn load_entry(entries: &Vec<(VmcsField, u64)>, f: VmcsField) -> (r: u64)
    ensures
        r == field_lookup(entries@, f),
{
    let mut i: usize = 0;
    assert(entries@.subrange(0, entries@.len() as int) =~= entries@);
    while i < entries.len()
        invariant
            i <= entries.len(),
            field_lookup(entries@, f) == field_lookup(entries@.subrange(i as int, entries@.len() as int), f),
        decreases entries.len() - i,
    {
        assert(entries@.subrange(i as int, entries@.len() as int).drop_first()
            =~= entries@.subrange(i as int + 1, entries@.len() as int));
        if entries[i].0 == f {
            return entries[i].1;
        }
        i += 1;
    }
    0
}

/// An inactive VMCS: a 4 KiB region and the contents of its fields.
pub struct Vmcs {
    frame: u64,
    entries: Vec<(VmcsField, u64)>,
    ops: Vec<VmxOp>,
}

impl Vmcs {
    /// The physical address of the region.
    pub closed spec fn spec_frame(&self) -> u64 {
        self.frame
    }

    /// The contents of field `f`; a field never written or loaded reads as zero.
    pub closed spec fn field(&self, f: VmcsField) -> u64 {
        field_lookup(self.entries@, f)
    }

    /// The VMX operations asked for and not yet taken by the host layer.
    pub closed spec fn ops(&self) -> Seq<VmxOp> {
        self.ops@
    }

    /// Wraps the frame that the allocator returned for a new VMCS.
    ///
    /// Fails with `Error::AllocError` when no frame was available, and with
    /// `Error::InvalidValue` when the address is not 4 KiB aligned.
    pub fn new(frame: Option<u64>) -> (r: Result<Vmcs, Error>)
        ensures
            frame is None <==> r matches Err(Error::AllocError(_)),
            frame matches Some(a) && a % VMCS_REGION_SIZE != 0 <==> r matches Err(Error::InvalidValue(_)),
            frame matches Some(a) && a % VMCS_REGION_SIZE == 0 ==> r is Ok,
            r matches Ok(v) ==> {
                &&& frame == Some(v.spec_frame())
                &&& v.ops() == Seq::<VmxOp>::empty()
                &&& forall|f: VmcsField| v.field(f) == 0
            },
    {
        match frame {
            None => Err(Error::AllocError("failed to allocate a VMCS frame")),
            Some(addr) => {
                if addr % VMCS_REGION_SIZE != 0 {
                    Err(Error::InvalidValue("VMCS frame is not 4 KiB aligned"))
                } else {
                    Ok(Vmcs { frame: addr, entries: Vec::new(), ops: Vec::new() })
                }
            },
        }
    }

    /// The physical address of the region.
    #[verifier::when_used_as_spec(spec_frame)]
    pub fn frame(&self) -> (r: u64)
        ensures
            r == self.spec_frame(),
    {
        self.frame
    }

    /// Makes this VMCS the core's active one for as long as the returned
    /// handle lives.
    pub fn activate(self, vmx: Vmx) -> (r: Result<ActiveVmcs, Error>)
        ensures
            r matches Ok(a) && {
                &&& a.spec_frame() == self.spec_frame()
                &&& a.spec_vmx() == vmx
                &&& a.ops() == self.ops().push(VmxOp::Activate { frame: self.spec_frame(), revision: vmx.revision })
                &&& forall|f: VmcsField| a.field(f) == self.field(f)
            },
    {
        ActiveVmcs::new(self, vmx)
    }

    /// Activates this VMCS for the span of `callback` and clears it again,
    /// whatever the callback returns.
    ///
    /// Exactly one activation and one clear are recorded, with nothing but
    /// field writes between them; the callback's result is returned.
    pub fn with_active_vmcs<F>(&mut self, vmx: &mut Vmx, callback: F) -> (r: Result<(), Error>)
        where
            F: FnOnce(&mut TemporaryActiveVmcs) -> Result<(), Error>,
        requires
            forall|t: &mut TemporaryActiveVmcs| callback.requires((t,)),
        ensures
            *final(vmx) == *old(vmx),
            final(self).spec_frame() == old(self).spec_frame(),
            final(self).ops().len() >= old(self).ops().len() + 2,
            final(self).ops().subrange(0, old(self).ops().len() as int) == old(self).ops(),
            final(self).ops()[old(self).ops().len() as int]
                == (VmxOp::Activate { frame: old(self).spec_frame(), revision: old(vmx).revision }),
            final(self).ops().last() == (VmxOp::Clear { frame: old(self).spec_frame() }),
            forall|i: int| old(self).ops().len() < i < final(self).ops().len() - 1
                ==> #[trigger] final(self).ops()[i] is Write,
            exists|t: &mut TemporaryActiveVmcs| callback.ensures((t,), r),
    {
        let frame = self.frame;
        let mut entries: Vec<(VmcsField, u64)> = Vec::new();
        std::mem::swap(&mut entries, &mut self.entries);
        let mut temp = TemporaryActiveVmcs {
            vmcs: Vmcs { frame, entries, ops: Vec::new() },
            vmx: *vmx,
        };
        self.ops.push(VmxOp::Activate { frame, revision: vmx.revision });
        let ghost start = self.ops@.len();
        let r = callback(&mut temp);
        proof {
            use_type_invariant(&temp);
        }
        let TemporaryActiveVmcs { vmcs: used, vmx: _ } = temp;
        let Vmcs { frame: _, entries: contents, ops: writes } = used;
        self.entries = contents;
        let mut i: usize = 0;
        while i < writes.len()
            invariant
                i <= writes.len(),
                forall|k: int| 0 <= k < writes@.len() ==> #[trigger] writes@[k] is Write,
                self.frame == frame,
                self.ops@.len() == start + i,
                self.ops@.subrange(0, old(self).ops@.len() as int) == old(self).ops@,
                self.ops@[old(self).ops@.len() as int] == (VmxOp::Activate { frame, revision: old(vmx).revision }),
                start == old(self).ops@.len() + 1,
                forall|k: int| start <= k < self.ops@.len() ==> #[trigger] self.ops@[k] is Write,
            decreases writes.len() - i,
        {
            self.ops.push(writes[i]);
            i += 1;
        }
        self.ops.push(VmxOp::Clear { frame });
        r
    }

    /// Hands the pending VMX operations to the host layer.
    pub fn take_ops(&mut self) -> (r: Vec<VmxOp>)
        ensures
            r@ == old(self).ops(),
            final(self).ops() == Seq::<VmxOp>::empty(),
            final(self).spec_frame() == old(self).spec_frame(),
            forall|f: VmcsField| final(self).field(f) == old(self).field(f),
    {
        let mut taken: Vec<VmxOp> = Vec::new();
        std::mem::swap(&mut taken, &mut self.ops);
        taken
    }
}

/// The VMCS that this core holds active for the lifetime of its VCPU.
pub struct ActiveVmcs {
    vmcs: Vmcs,
    vmx: Vmx,
}

impl ActiveVmcs {
    /// The physical address of the region.
    pub closed spec fn spec_frame(&self) -> u64 {
        self.vmcs.frame
    }

    /// The capability snapshot that governs this VMCS.
    pub closed spec fn spec_vmx(&self) -> Vmx {
        self.vmx
    }

    /// The contents of field `f`.
    pub closed spec fn field(&self, f: VmcsField) -> u64 {
        self.vmcs.field(f)
    }

    /// The VMX operations asked for and not yet taken by the host layer.
    pub closed spec fn ops(&self) -> Seq<VmxOp> {
        self.vmcs.ops()
    }

    fn new(vmcs: Vmcs, vmx: Vmx) -> (r: Result<ActiveVmcs, Error>)
        ensures
            r matches Ok(a) && {
                &&& a.spec_frame() == vmcs.spec_frame()
                &&& a.spec_vmx() == vmx
                &&& a.ops() == vmcs.ops().push(VmxOp::Activate { frame: vmcs.spec_frame(), revision: vmx.revision })
                &&& forall|f: VmcsField| a.field(f) == vmcs.field(f)
            },
    {
        let mut vmcs = vmcs;
        let frame = vmcs.frame;
        vmcs.ops.push(VmxOp::Activate { frame, revision: vmx.revision });
        Ok(ActiveVmcs { vmcs, vmx })
    }

    /// The capability snapshot that governs this VMCS.
    #[verifier::when_used_as_spec(spec_vmx)]
    pub fn vmx(&self) -> (r: Vmx)
        ensures
            r == self.spec_vmx(),
    {
        self.vmx
    }

    /// Reads a field.
    pub fn read_field(&mut self, field: VmcsField) -> (r: Result<u64, Error>)
        ensures
            r == Ok::<u64, Error>(old(self).field(field)),
            *final(self) == *old(self),
    {
        Ok(load_entry(&self.vmcs.entries, field))
    }

    /// Writes a field.
    pub fn write_field(&mut self, field: VmcsField, value: u64) -> (r: Result<(), Error>)
        ensures
            r is Ok,
            forall|g: VmcsField| final(self).field(g) == if g == field { value } else { old(self).field(g) },
            final(self).ops() == old(self).ops().push(VmxOp::Write { field, value }),
            final(self).spec_frame() == old(self).spec_frame(),
            final(self).spec_vmx() == old(self).spec_vmx(),
    {
        store_field(&mut self.vmcs.entries, field, value);
        self.vmcs.ops.push(VmxOp::Write { field, value });
        Ok(())
    }

    /// Writes a control field through the capability MSR `msr`, which forces
    /// the required bits; fails with `Error::Vmcs` when a requested bit is
    /// forbidden, and writes nothing then.
    pub fn write_with_fixed(&mut self, field: VmcsField, value: u64, msr: u32) -> (r: Result<u64, Error>)
        ensures
            r is Ok <==> fixed_write_allowed(old(self).spec_vmx(), value, msr),
            r is Err ==> r->Err_0 is Vmcs,
            r matches Ok(v) ==> {
                &&& v == fixed_write_value(old(self).spec_vmx(), value, msr)
                &&& forall|g: VmcsField| final(self).field(g) == if g == field { v } else { old(self).field(g) }
                &&& final(self).ops() == old(self).ops().push(VmxOp::Write { field, value: v })
            },
            r is Err ==> *final(self) == *old(self),
            final(self).spec_frame() == old(self).spec_frame(),
            final(self).spec_vmx() == old(self).spec_vmx(),
    {
        match self.vmx.capability(msr) {
            None => Err(Error::Vmcs("capability MSR not recorded")),
            Some(fixed) => {
                let required = fixed_control_value(value, fixed)?;
                store_field(&mut self.vmcs.entries, field, required);
                self.vmcs.ops.push(VmxOp::Write { field, value: required });
                Ok(required)
            },
        }
    }

    /// Records the value that the host layer read from the processor for
    /// `field` (the exit information and guest state that a VM exit leaves).
    pub fn load_field(&mut self, field: VmcsField, value: u64)
        ensures
            forall|g: VmcsField| final(self).field(g) == if g == field { value } else { old(self).field(g) },
            final(self).ops() == old(self).ops(),
            final(self).spec_frame() == old(self).spec_frame(),
            final(self).spec_vmx() == old(self).spec_vmx(),
    {
        store_field(&mut self.vmcs.entries, field, value);
    }

    /// Hands the pending VMX operations to the host layer.
    pub fn take_ops(&mut self) -> (r: Vec<VmxOp>)
        ensures
            r@ == old(self).ops(),
            final(self).ops() == Seq::<VmxOp>::empty(),
            forall|f: VmcsField| final(self).field(f) == old(self).field(f),
            final(self).spec_frame() == old(self).spec_frame(),
            final(self).spec_vmx() == old(self).spec_vmx(),
    {
        self.vmcs.take_ops()
    }

    /// Clears the VMCS and gives back the inactive region and the VMX token.
    pub fn deactivate(self) -> (r: Result<(Vmcs, Vmx), Error>)
        ensures
            r matches Ok((v, x)) && {
                &&& x == self.spec_vmx()
                &&& v.spec_frame() == self.spec_frame()
                &&& v.ops() == self.ops().push(VmxOp::Clear { frame: self.spec_frame() })
                &&& forall|f: VmcsField| v.field(f) == self.field(f)
            },
    {
        let mut vmcs = self.vmcs;
        let frame = vmcs.frame;
        vmcs.ops.push(VmxOp::Clear { frame });
        Ok((vmcs, self.vmx))
    }
}

/// A VMCS made active for the span of one `Vmcs::with_active_vmcs` call.
///
/// Only field reads and writes can be made through it; the activation and
/// the clear around it belong to `with_active_vmcs`.
pub struct TemporaryActiveVmcs {
    vmcs: Vmcs,
    vmx: Vmx,
}

impl TemporaryActiveVmcs {
    #[verifier::type_invariant]
    spec fn only_writes(&self) -> bool {
        forall|i: int| 0 <= i < self.vmcs.ops@.len() ==> #[trigger] self.vmcs.ops@[i] is Write
    }

    /// The capability snapshot that governs this VMCS.
    pub closed spec fn spec_vmx(&self) -> Vmx {
        self.vmx
    }

    /// The contents of field `f`.
    pub closed spec fn field(&self, f: VmcsField) -> u64 {
        self.vmcs.field(f)
    }

    /// The field writes made through this handle.
    pub closed spec fn ops(&self) -> Seq<VmxOp> {
        self.vmcs.ops()
    }

    fn record_write(&mut self, field: VmcsField, value: u64)
        ensures
            forall|g: VmcsField| final(self).field(g) == if g == field { value } else { old(self).field(g) },
            final(self).ops() == old(self).ops().push(VmxOp::Write { field, value }),
            final(self).spec_vmx() == old(self).spec_vmx(),
    {
        proof {
            use_type_invariant(&*self);
        }
        let mut entries: Vec<(VmcsField, u64)> = Vec::new();
        std::mem::swap(&mut entries, &mut self.vmcs.entries);
        store_field(&mut entries, field, value);
        self.vmcs.entries = entries;
        let mut ops: Vec<VmxOp> = Vec::new();
        std::mem::swap(&mut ops, &mut self.vmcs.ops);
        ops.push(VmxOp::Write { field, value });
        self.vmcs.ops = ops;
    }

    /// Reads a field.
    pub fn read_field(&mut self, field: VmcsField) -> (r: Result<u64, Error>)
        ensures
            r == Ok::<u64, Error>(old(self).field(field)),
            *final(self) == *old(self),
    {
        Ok(load_entry(&self.vmcs.entries, field))
    }

    /// Writes a field.
    pub fn write_field(&mut self, field: VmcsField, value: u64) -> (r: Result<(), Error>)
        ensures
            r is Ok,
            forall|g: VmcsField| final(self).field(g) == if g == field { value } else { old(self).field(g) },
            final(self).ops() == old(self).ops().push(VmxOp::Write { field, value }),
            final(self).spec_vmx() == old(self).spec_vmx(),
    {
        proof {
            use_type_invariant(&*self);
        }
        self.record_write(field, value);
        Ok(())
    }

    /// Writes a control field through the capability MSR `msr`; see
    /// `ActiveVmcs::write_with_fixed`.
    pub fn write_with_fixed(&mut self, field: VmcsField, value: u64, msr: u32) -> (r: Result<u64, Error>)
        ensures
            r is Ok <==> fixed_write_allowed(old(self).spec_vmx(), value, msr),
            r is Err ==> r->Err_0 is Vmcs,
            r matches Ok(v) ==> {
                &&& v == fixed_write_value(old(self).spec_vmx(), value, msr)
                &&& forall|g: VmcsField| final(self).field(g) == if g == field { v } else { old(self).field(g) }
                &&& final(self).ops() == old(self).ops().push(VmxOp::Write { field, value: v })
            },
            r is Err ==> *final(self) == *old(self),
            final(self).spec_vmx() == old(self).spec_vmx(),
    {
        proof {
            use_type_invariant(&*self);
        }
        match self.vmx.capability(msr) {
            None => Err(Error::Vmcs("capability MSR not recorded")),
            Some(fixed) => {
                let required = fixed_control_value(value, fixed)?;
                self.record_write(field, required);
                Ok(required)
            },
        }
    }
}

} // verus!
