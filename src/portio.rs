//! Emulation of the port I/O instructions: `in`, `out`, `ins` and `outs`.
use vstd::prelude::*;
use crate::error::Error;
use crate::field::VmcsField;
use crate::vcpu::{VCpu, VmContext};
use crate::virtdev::{valid_width, width_mask, Port, PortIoValue};
use crate::vmexit::{GuestCpuState, IoInstructionInformation};

verus! {

/// `rax` with its low `size` bytes replaced by those of `value`.
pub open spec fn spec_splice_port_read(rax: u64, value: u32, size: u8) -> u64 {
    (rax & !width_mask(size)) | ((value as u64) & width_mask(size))
}

/// Places the value read from a port in the low `size` bytes of `rax`,
/// keeping the bytes above.
pub fn splice_port_read(rax: u64, value: u32, size: u8) -> (r: u64)
    ensures
        r == spec_splice_port_read(rax, value, size),
        r & !width_mask(size) == rax & !width_mask(size),
{
    let mask: u64 = if size == 1 {
        0xff
    } else if size == 2 {
        0xffff
    } else {
        0xffff_ffff
    };
    let r = (rax & !mask) | ((value as u64) & mask);
    assert(((rax & !mask) | ((value as u64) & mask)) & !mask == rax & !mask) by (bit_vector);
    r
}

/// The number of bytes that a string instruction moves: `count` units of
/// `size` bytes. Fails with `Error::InvalidValue` when that does not fit in
/// a register.
pub fn transfer_len(count: u64, size: u8) -> (r: Result<usize, Error>)
    requires
        valid_width(size),
    ensures
        r is Ok <==> count * size <= u64::MAX && count * size <= usize::MAX,
        r is Err ==> r->Err_0 is InvalidValue,
        r matches Ok(n) ==> n == count * size,
{
    assert((count as u128) * (size as u128) <= 0xffff_ffff_ffff_ffff * 4) by (nonlinear_arith)
        requires
            size <= 4,
    ;
    let total: u128 = (count as u128) * (size as u128);
    if total > u64::MAX as u128 || total > usize::MAX as u128 {
        Err(Error::InvalidValue("string I/O transfer too long"))
    } else {
        Ok(total as usize)
    }
}

/// Cuts `bytes` into `n` port values of `size` bytes each, in order.
/// Fails with `Error::InvalidValue` when `bytes` does not hold exactly `n`
/// units.
pub fn split_port_values(bytes: &Vec<u8>, size: u8, n: usize) -> (r: Result<Vec<PortIoValue>, Error>)
    requires
        valid_width(size),
        n * size <= usize::MAX,
    ensures
        r is Ok <==> bytes@.len() == n * size,
        r is Err ==> r->Err_0 is InvalidValue,
        r matches Ok(v) ==> {
            &&& v@.len() == n
            &&& forall|i: int| 0 <= i < n ==> (#[trigger] v@[i]).spec_bytes()
                == bytes@.subrange(i * size, i * size + size)
        },
{
    let expected = n * (size as usize);
    if bytes.len() != expected {
        return Err(Error::InvalidValue("guest memory returned a buffer of another length"));
    }
    let mut r: Vec<PortIoValue> = Vec::new();
    let mut i: usize = 0;
    let mut pos: usize = 0;
    let sz = size as usize;
    let blen = bytes.len();
    while i < n
        invariant
            blen == bytes@.len(),
            valid_width(size),
            sz == size,
            bytes@.len() == n * size,
            i <= n,
            pos == i * size,
            r@.len() == i,
            forall|k: int| 0 <= k < i ==> (#[trigger] r@[k]).spec_bytes()
                == bytes@.subrange(k * size, k * size + size),
        decreases n - i,
    {
        assert(pos + sz <= bytes@.len()) by (nonlinear_arith)
            requires
                pos == i * sz,
                i < n,
                bytes@.len() == n * sz,
        ;
        assert(sz == 4 ==> pos + 3 < bytes@.len());
        assert(sz == 2 ==> pos + 1 < bytes@.len());
        let v = if sz == 1 {
            PortIoValue::OneByte(bytes[pos])
        } else if sz == 2 {
            PortIoValue::TwoBytes(bytes[pos], bytes[pos + 1])
        } else {
            PortIoValue::FourBytes(bytes[pos], bytes[pos + 1], bytes[pos + 2], bytes[pos + 3])
        };
        assert(v.spec_bytes() =~= bytes@.subrange(pos as int, pos + sz));
        r.push(v);
        pos = pos + sz;
        i = i + 1;
        assert(pos == i * size) by (nonlinear_arith)
            requires
                pos == (i - 1) * sz + sz,
                sz == size,
        ;
    }
    Ok(r)
}

/// The bytes of `values`, one after another.
pub open spec fn port_bytes(values: Seq<PortIoValue>) -> Seq<u8>
    decreases values.len(),
{
    if values.len() == 0 {
        Seq::empty()
    } else {
        port_bytes(values.drop_last()) + values.last().spec_bytes()
    }
}

proof fn lemma_port_bytes_len(values: Seq<PortIoValue>, size: u8)
    requires
        forall|i: int| 0 <= i < values.len() ==> (#[trigger] values[i]).spec_len() == size,
    ensures
        port_bytes(values).len() == values.len() * size,
    decreases values.len(),
{
    if values.len() > 0 {
        let rest = values.drop_last();
        assert forall|i: int| 0 <= i < rest.len() implies (#[trigger] rest[i]).spec_len() == size by {
            assert(rest[i] == values[i]);
        }
        lemma_port_bytes_len(rest, size);
        assert(values.last().spec_len() == size);
        assert(values.last().spec_bytes().len() == size);
        let n = values.len();
        assert((n - 1) * size + size == n * size) by (nonlinear_arith);
    }
}

/// Joins the values read from a port into the bytes that go to guest
/// memory, in order. Fails with `Error::DeviceError` when a value does not
/// have `size` bytes.
pub fn join_port_values(values: &Vec<PortIoValue>, size: u8) -> (r: Result<Vec<u8>, Error>)
    requires
        valid_width(size),
    ensures
        r is Ok <==> forall|i: int| 0 <= i < values@.len() ==> (#[trigger] values@[i]).spec_len() == size,
        r is Err ==> r->Err_0 is DeviceError,
        r matches Ok(b) ==> b@ == port_bytes(values@) && b@.len() == values@.len() * size,
{
    let mut i: usize = 0;
    while i < values.len()
        invariant
            i <= values@.len(),
            forall|k: int| 0 <= k < i ==> (#[trigger] values@[k]).spec_len() == size,
        decreases values.len() - i,
    {
        if values[i].len() != size {
            return Err(Error::DeviceError("device answered a port read with another width"));
        }
        i += 1;
    }
    let mut bytes: Vec<u8> = Vec::new();
    let mut i: usize = 0;
    assert(values@.subrange(0, 0) =~= Seq::<PortIoValue>::empty());
    while i < values.len()
        invariant
            i <= values@.len(),
            bytes@ == port_bytes(values@.subrange(0, i as int)),
        decreases values.len() - i,
    {
        let chunk = values[i].as_bytes();
        let ghost before = bytes@;
        let mut k: usize = 0;
        while k < chunk.len()
            invariant
                k <= chunk@.len(),
                bytes@ == before + chunk@.subrange(0, k as int),
            decreases chunk.len() - k,
        {
            bytes.push(chunk[k]);
            k += 1;
            assert(bytes@ =~= before + chunk@.subrange(0, k as int));
        }
        assert(chunk@.subrange(0, chunk@.len() as int) =~= chunk@);
        assert(values@.subrange(0, i + 1).drop_last() =~= values@.subrange(0, i as int));
        i += 1;
    }
    assert(values@.subrange(0, values@.len() as int) =~= values@);
    proof {
        lemma_port_bytes_len(values@, size);
    }
    Ok(bytes)
}

/// What a port I/O exit does to the guest's registers when emulation
/// succeeds: `out` changes nothing; `in` replaces the low `size` bytes of
/// RAX and nothing else; `outs` and `ins` move RCX units, advance RSI or RDI
/// by the bytes moved, and zero RCX.
pub open spec fn port_io_effect(before: GuestCpuState, after: GuestCpuState, exit: IoInstructionInformation) -> bool {
    let count = before.rcx * exit.size;
    if !exit.string && !exit.input {
        after == before
    } else if !exit.string {
        &&& after == (GuestCpuState { rax: after.rax, ..before })
        &&& after.rax & !width_mask(exit.size) == before.rax & !width_mask(exit.size)
    } else if exit.input {
        &&& count <= u64::MAX
        &&& after == (GuestCpuState { rcx: 0, rdi: before.rdi.wrapping_add(count as u64), ..before })
    } else {
        &&& count <= u64::MAX
        &&& after == (GuestCpuState { rcx: 0, rsi: before.rsi.wrapping_add(count as u64), ..before })
    }
}

/// Emulates `outs`: reads RCX units from guest memory at the guest-linear
/// address of the exit and writes them to `port` one by one.
fn emulate_outs<V: VmContext>(
    vcpu: &mut VCpu<V>,
    port: Port,
    guest_cpu: &mut GuestCpuState,
    exit: IoInstructionInformation,
) -> (r: Result<(), Error>)
    requires
        valid_width(exit.size),
        exit.string && !exit.input,
    ensures
        old(guest_cpu).rcx * exit.size > u64::MAX ==> (r matches Err(Error::InvalidValue(_))),
        final(vcpu).vmcs == old(vcpu).vmcs,
        final(vcpu).pending() == old(vcpu).pending(),
        r is Ok ==> port_io_effect(*old(guest_cpu), *final(guest_cpu), exit),
        r is Err ==> *final(guest_cpu) == *old(guest_cpu),
{
    let linear_addr = vcpu.vmcs.read_field(VmcsField::GuestLinearAddress)?;
    let count = transfer_len(guest_cpu.rcx, exit.size)?;
    let bytes = vcpu.vm.read_guest_bytes(&vcpu.vmcs, linear_addr, count)?;
    let units = guest_cpu.rcx as usize;
    let values = split_port_values(&bytes, exit.size, units)?;
    let mut i: usize = 0;
    while i < values.len()
        invariant
            vcpu.vmcs == old(vcpu).vmcs,
            vcpu.pending() == old(vcpu).pending(),
            old(guest_cpu).rcx * exit.size <= u64::MAX,
        decreases values.len() - i,
    {
        vcpu.vm.port_write(port, values[i])?;
        i += 1;
    }
    guest_cpu.rsi = guest_cpu.rsi.wrapping_add(count as u64);
    guest_cpu.rcx = 0;
    Ok(())
}

/// Emulates `ins`: reads RCX units from `port` and writes them, in order, to
/// guest memory at the guest-linear address of the exit.
fn emulate_ins<V: VmContext>(
    vcpu: &mut VCpu<V>,
    port: Port,
    guest_cpu: &mut GuestCpuState,
    exit: IoInstructionInformation,
) -> (r: Result<(), Error>)
    requires
        valid_width(exit.size),
        exit.string && exit.input,
    ensures
        old(guest_cpu).rcx * exit.size > u64::MAX ==> (r matches Err(Error::InvalidValue(_))),
        final(vcpu).vmcs == old(vcpu).vmcs,
        final(vcpu).pending() == old(vcpu).pending(),
        r is Ok ==> port_io_effect(*old(guest_cpu), *final(guest_cpu), exit),
        r is Err ==> *final(guest_cpu) == *old(guest_cpu),
{
    let linear_addr = vcpu.vmcs.read_field(VmcsField::GuestLinearAddress)?;
    let count = transfer_len(guest_cpu.rcx, exit.size)?;
    let units = guest_cpu.rcx;
    let mut values: Vec<PortIoValue> = Vec::new();
    let mut i: u64 = 0;
    while i < units
        invariant
            vcpu.vmcs == old(vcpu).vmcs,
            vcpu.pending() == old(vcpu).pending(),
            old(guest_cpu).rcx * exit.size <= u64::MAX,
            valid_width(exit.size),
        decreases units - i,
    {
        let mut val = PortIoValue::from_u32(0, exit.size)?;
        vcpu.vm.port_read(port, &mut val)?;
        values.push(val);
        i += 1;
    }
    let bytes = join_port_values(&values, exit.size)?;
    vcpu.vm.write_guest_bytes(&vcpu.vmcs, linear_addr, &bytes)?;
    guest_cpu.rdi = guest_cpu.rdi.wrapping_add(count as u64);
    guest_cpu.rcx = 0;
    Ok(())
}

/// Emulates the I/O instruction behind an exit.
///
/// `out` hands the low `size` bytes of RAX to the device that owns the port;
/// `in` asks that device for `size` bytes and places them in the low bytes
/// of RAX, keeping the rest; `outs` and `ins` move RCX units between the
/// device and guest memory. Fails with `Error::InvalidValue` when the width
/// is not one, two or four bytes, and passes on the errors of the device
/// and of guest memory; the VMCS and the pending interrupts are left as they
/// are.
pub fn emulate_portio<V: VmContext>(
    vcpu: &mut VCpu<V>,
    guest_cpu: &mut GuestCpuState,
    exit: IoInstructionInformation,
) -> (r: Result<(), Error>)
    ensures
        final(vcpu).vmcs == old(vcpu).vmcs,
        final(vcpu).pending() == old(vcpu).pending(),
        !valid_width(exit.size) ==> r matches Err(Error::InvalidValue(_)),
        exit.string && valid_width(exit.size) && old(guest_cpu).rcx * exit.size > u64::MAX
            ==> (r matches Err(Error::InvalidValue(_))),
        r is Ok ==> port_io_effect(*old(guest_cpu), *final(guest_cpu), exit),
        r is Err ==> *final(guest_cpu) == *old(guest_cpu),
{
    let port = exit.port;
    let size = exit.size;
    if !(size == 1 || size == 2 || size == 4) {
        return Err(Error::InvalidValue("port I/O width must be one, two or four bytes"));
    }
    if !exit.string {
        if !exit.input {
            let val = PortIoValue::from_u32(guest_cpu.rax as u32, size)?;
            vcpu.vm.port_write(port, val)?;
        } else {
            let mut val = PortIoValue::from_u32(0, size)?;
            vcpu.vm.port_read(port, &mut val)?;
            guest_cpu.rax = splice_port_read(guest_cpu.rax, val.as_u32(), size);
        }
    } else {
        if !exit.input {
            emulate_outs(vcpu, port, guest_cpu, exit)?;
        } else {
            emulate_ins(vcpu, port, guest_cpu, exit)?;
        }
    }
    Ok(())
}

} // verus!
