//! Emulated devices: the values they exchange with the guest, the events
//! they receive, and two devices that need no state.
use vstd::prelude::*;
use crate::error::Error;
use crate::interrupts::InjectedInterruptType;
use std::sync::Arc;

verus! {

/// spin's reader-writer lock, carried through as an opaque value.
#[verifier::external_type_specification]
#[verifier::external_body]
#[verifier::reject_recursive_types(T)]
#[verifier::reject_recursive_types(R)]
pub struct ExRwLock<T: ?Sized, R>(spin::rwlock::RwLock<T, R>);

/// spin's default relax strategy, named in the lock's type.
#[verifier::external_type_specification]
#[verifier::external_body]
pub struct ExSpin(spin::relax::Spin);

/// Relies on spin's `RwLock::new`: wraps `data` in an unlocked lock.
pub assume_specification<T, R>[ spin::rwlock::RwLock::<T, R>::new ](data: T) -> spin::rwlock::RwLock<T, R>;

/// An I/O port number.
pub type Port = u16;

/// A value moved through an I/O port: one, two or four bytes, most
/// significant first.
#[derive(Clone, Copy, Debug, PartialEq, Eq, Structural)]
pub enum PortIoValue {
    OneByte(u8),
    TwoBytes(u8, u8),
    FourBytes(u8, u8, u8, u8),
}

/// The mask of the low `size` bytes of a register.
pub open spec fn width_mask(size: u8) -> u64 {
    if size == 1 {
        0xff
    } else if size == 2 {
        0xffff
    } else {
        0xffff_ffff
    }
}

/// Whether `size` is an access width that port I/O supports.
pub open spec fn valid_width(size: u8) -> bool {
    size == 1 || size == 2 || size == 4
}

impl PortIoValue {
    /// The bytes of the value, most significant first.
    pub open spec fn spec_bytes(&self) -> Seq<u8> {
        match *self {
            PortIoValue::OneByte(b0) => seq![b0],
            PortIoValue::TwoBytes(b0, b1) => seq![b0, b1],
            PortIoValue::FourBytes(b0, b1, b2, b3) => seq![b0, b1, b2, b3],
        }
    }

    /// The number of bytes of the value.
    pub open spec fn spec_len(&self) -> u8 {
        match *self {
            PortIoValue::OneByte(..) => 1,
            PortIoValue::TwoBytes(..) => 2,
            PortIoValue::FourBytes(..) => 4,
        }
    }

    /// The value as a number, reading its bytes most significant first.
    pub open spec fn spec_as_u32(&self) -> u32 {
        match *self {
            PortIoValue::OneByte(b0) => b0 as u32,
            PortIoValue::TwoBytes(b0, b1) => ((b0 as u32) << 8u32) | (b1 as u32),
            PortIoValue::FourBytes(b0, b1, b2, b3) => ((b0 as u32) << 24u32) | ((b1 as u32) << 16u32)
                | ((b2 as u32) << 8u32) | (b3 as u32),
        }
    }

    /// The number of bytes of the value.
    #[verifier::when_used_as_spec(spec_len)]
    pub fn len(&self) -> (r: u8)
        ensures
            r == self.spec_len(),
            r == self.spec_bytes().len(),
    {
        match self {
            PortIoValue::OneByte(..) => 1,
            PortIoValue::TwoBytes(..) => 2,
            PortIoValue::FourBytes(..) => 4,
        }
    }

    /// The value as a number.
    #[verifier::when_used_as_spec(spec_as_u32)]
    pub fn as_u32(&self) -> (r: u32)
        ensures
            r == self.spec_as_u32(),
    {
        match *self {
            PortIoValue::OneByte(b0) => b0 as u32,
            PortIoValue::TwoBytes(b0, b1) => ((b0 as u32) << 8u32) | (b1 as u32),
            PortIoValue::FourBytes(b0, b1, b2, b3) => ((b0 as u32) << 24u32) | ((b1 as u32) << 16u32)
                | ((b2 as u32) << 8u32) | (b3 as u32),
        }
    }

    /// The bytes of the value, most significant first.
    pub fn as_bytes(&self) -> (r: Vec<u8>)
        ensures
            r@ == self.spec_bytes(),
    {
        let mut r: Vec<u8> = Vec::new();
        match self {
            PortIoValue::OneByte(b0) => {
                r.push(*b0);
            },
            PortIoValue::TwoBytes(b0, b1) => {
                r.push(*b0);
                r.push(*b1);
            },
            PortIoValue::FourBytes(b0, b1, b2, b3) => {
                r.push(*b0);
                r.push(*b1);
                r.push(*b2);
                r.push(*b3);
            },
        }
        assert(r@ =~= self.spec_bytes());
        r
    }

    /// The value made of `bytes`, which must be one, two or four long.
    pub fn from_bytes(bytes: &[u8]) -> (r: Result<PortIoValue, Error>)
        ensures
            r is Ok <==> (bytes@.len() == 1 || bytes@.len() == 2 || bytes@.len() == 4),
            r is Err ==> r->Err_0 is InvalidValue,
            r matches Ok(v) ==> v.spec_bytes() == bytes@,
    {
        if bytes.len() == 1 {
            let v = PortIoValue::OneByte(bytes[0]);
            assert(v.spec_bytes() =~= bytes@);
            Ok(v)
        } else if bytes.len() == 2 {
            let v = PortIoValue::TwoBytes(bytes[0], bytes[1]);
            assert(v.spec_bytes() =~= bytes@);
            Ok(v)
        } else if bytes.len() == 4 {
            let v = PortIoValue::FourBytes(bytes[0], bytes[1], bytes[2], bytes[3]);
            assert(v.spec_bytes() =~= bytes@);
            Ok(v)
        } else {
            Err(Error::InvalidValue("port I/O values are one, two or four bytes"))
        }
    }

    /// The value of width `size` that holds the low `size` bytes of `value`.
    pub fn from_u32(value: u32, size: u8) -> (r: Result<PortIoValue, Error>)
        ensures
            r is Ok <==> valid_width(size),
            r is Err ==> r->Err_0 is InvalidValue,
            r matches Ok(v) ==> v.spec_len() == size && v.spec_as_u32() as u64 == (value as u64) & width_mask(size),
    {
        let b0 = (value >> 24u32) as u8;
        let b1 = (value >> 16u32) as u8;
        let b2 = (value >> 8u32) as u8;
        let b3 = value as u8;
        if size == 1 {
            let v = PortIoValue::OneByte(b3);
            assert(((value as u8) as u32) as u64 == (value as u64) & 0xff) by (bit_vector);
            Ok(v)
        } else if size == 2 {
            let v = PortIoValue::TwoBytes(b2, b3);
            assert(((((value >> 8u32) as u8) as u32) << 8u32 | ((value as u8) as u32)) as u64
                == (value as u64) & 0xffff) by (bit_vector);
            Ok(v)
        } else if size == 4 {
            let v = PortIoValue::FourBytes(b0, b1, b2, b3);
            assert(((((value >> 24u32) as u8) as u32) << 24u32 | (((value >> 16u32) as u8) as u32) << 16u32
                | (((value >> 8u32) as u8) as u32) << 8u32 | ((value as u8) as u32)) as u64
                == (value as u64) & 0xffff_ffff) by (bit_vector);
            Ok(v)
        } else {
            Err(Error::InvalidValue("port I/O values are one, two or four bytes"))
        }
    }

    /// Replaces the value by the low bytes of `value`, keeping its width.
    pub fn copy_from_u32(&mut self, value: u32)
        ensures
            final(self).spec_len() == old(self).spec_len(),
            final(self).spec_as_u32() as u64 == (value as u64) & width_mask(old(self).spec_len()),
            value == 0 ==> final(self).spec_as_u32() == 0,
    {
        assert(0u64 & 0xff == 0 && 0u64 & 0xffff == 0 && 0u64 & 0xffff_ffff == 0) by (bit_vector);
        let size = self.len();
        match PortIoValue::from_u32(value, size) {
            Ok(v) => {
                *self = v;
            },
            Err(_) => {},
        }
    }
}

/// A range of ports or of guest-physical addresses, both ends included.
#[derive(Clone, Copy, Debug, PartialEq, Eq, Structural)]
pub enum DeviceRegion {
    PortIo { first_port: Port, last_port: Port },
    MemIo { first_addr: u64, last_addr: u64 },
}

/// An event addressed to an emulated device.
#[derive(Clone, Copy, Debug, PartialEq, Eq)]
pub enum DeviceEvent {
    /// The guest reads a port; the device leaves the result in the value.
    PortRead(Port, PortIoValue),
    /// The guest writes a value to a port.
    PortWrite(Port, PortIoValue),
    /// The guest reads `len` bytes at a guest-physical address.
    MemRead(u64, u8),
    /// The guest writes a value at a guest-physical address.
    MemWrite(u64, PortIoValue),
    /// The host serial port received a byte.
    HostUartReceived(u8),
}

/// What a device asks of its VCPU after handling an event.
#[derive(Clone, Copy, Debug, PartialEq, Eq)]
pub enum DeviceEventResponse {
    /// Inject an interrupt into the guest.
    Interrupt(u8, InjectedInterruptType),
    /// Hand the console to the next virtual machine.
    NextConsole,
    /// The guest sent a byte through its serial port.
    GuestUartTransmitted(u8),
}

/// A device that a virtual machine emulates for its guest.
pub trait EmulatedDevice {
    /// The ports and guest-physical ranges that the device serves.
    fn services(&self) -> Vec<DeviceRegion>;

    /// Handles one event; for a `PortRead` the device leaves the value read
    /// in the event.
    fn on_event(&mut self, event: &mut DeviceEvent) -> Result<(), Error>;
}

/// The I/O APIC as the guest sees it: its register window, and that of the
/// first HPET, are claimed and accesses are accepted without effect.
#[derive(Clone, Copy, Debug, Default)]
pub struct IoApic;

/// The start of the I/O APIC register window.
pub const IOAPIC_FIRST: u64 = 0xfec0_0000;
/// The end of the I/O APIC register window.
pub const IOAPIC_LAST: u64 = 0xfec0_10f0;
/// The start of the first HPET's register window.
pub const HPET_FIRST: u64 = 0xfed0_0000;
/// The end of the first HPET's register window.
pub const HPET_LAST: u64 = 0xfed0_10f0;

impl IoApic {
    /// A new device behind a lock, to be shared by the VCPUs of a machine.
    pub fn new() -> (r: Arc<spin::RwLock<IoApic>>) {
        Arc::new(spin::rwlock::RwLock::new(IoApic))
    }

    /// The two memory windows that the device claims.
    pub fn services(&self) -> (r: Vec<DeviceRegion>)
        ensures
            r@ == seq![
                DeviceRegion::MemIo { first_addr: IOAPIC_FIRST, last_addr: IOAPIC_LAST },
                DeviceRegion::MemIo { first_addr: HPET_FIRST, last_addr: HPET_LAST },
            ],
    {
        let mut r: Vec<DeviceRegion> = Vec::new();
        r.push(DeviceRegion::MemIo { first_addr: IOAPIC_FIRST, last_addr: IOAPIC_LAST });
        r.push(DeviceRegion::MemIo { first_addr: HPET_FIRST, last_addr: HPET_LAST });
        assert(r@ =~= seq![
            DeviceRegion::MemIo { first_addr: IOAPIC_FIRST, last_addr: IOAPIC_LAST },
            DeviceRegion::MemIo { first_addr: HPET_FIRST, last_addr: HPET_LAST },
        ]);
        r
    }

    /// Accepts any event and changes nothing.
    pub fn on_event(&mut self, event: &mut DeviceEvent) -> (r: Result<(), Error>)
        ensures
            r is Ok,
            *final(event) == *old(event),
    {
        Ok(())
    }
}

impl EmulatedDevice for IoApic {
    fn services(&self) -> Vec<DeviceRegion> {
        IoApic::services(self)
    }

    fn on_event(&mut self, event: &mut DeviceEvent) -> Result<(), Error> {
        IoApic::on_event(self, event)
    }
}

/// The Programmable Option Select ports of the PS/2 bus: claimed, reading as
/// zero, and ignoring writes.
#[derive(Clone, Copy, Debug, Default)]
pub struct ProgrammableOptionSelect;

/// The POS arbitration clock port, the first that the device claims.
pub const POS_ARBITRATION_CLOCK: Port = 0x90;
/// The POS card-select feedback port.
pub const POS_CARD_SELECT_FEEDBACK: Port = 0x91;
/// The POS control and status port.
pub const POS_CONTROL_AND_STATUS: Port = 0x92;
/// The POS board-enable setup port.
pub const POS_BOARD_ENABLE_SETUP: Port = 0x94;
/// The POS adapter-enable setup port, the last that the device claims.
pub const POS_ADAPTER_ENABLE_SETUP: Port = 0x96;

impl ProgrammableOptionSelect {
    /// A new device behind a lock, to be shared by the VCPUs of a machine.
    pub fn new() -> (r: Arc<spin::RwLock<ProgrammableOptionSelect>>) {
        Arc::new(spin::rwlock::RwLock::new(ProgrammableOptionSelect))
    }

    /// The ports from the arbitration clock to the adapter-enable setup.
    pub fn services(&self) -> (r: Vec<DeviceRegion>)
        ensures
            r@ == seq![DeviceRegion::PortIo { first_port: POS_ARBITRATION_CLOCK, last_port: POS_ADAPTER_ENABLE_SETUP }],
    {
        let mut r: Vec<DeviceRegion> = Vec::new();
        r.push(DeviceRegion::PortIo { first_port: POS_ARBITRATION_CLOCK, last_port: POS_ADAPTER_ENABLE_SETUP });
        assert(r@ =~= seq![DeviceRegion::PortIo { first_port: POS_ARBITRATION_CLOCK, last_port: POS_ADAPTER_ENABLE_SETUP }]);
        r
    }

    /// Answers a port read with zero of the requested width; leaves every
    /// other event as it is.
    pub fn on_event(&mut self, event: &mut DeviceEvent) -> (r: Result<(), Error>)
        ensures
            r is Ok,
            match *old(event) {
                DeviceEvent::PortRead(port, val) => *final(event) matches DeviceEvent::PortRead(p, v) && p == port
                    && v.spec_len() == val.spec_len() && v.spec_as_u32() == 0,
                _ => *final(event) == *old(event),
            },
    {
        match event {
            DeviceEvent::PortRead(_port, val) => {
                val.copy_from_u32(0);
            },
            _ => {},
        }
        Ok(())
    }
}

impl EmulatedDevice for ProgrammableOptionSelect {
    fn services(&self) -> Vec<DeviceRegion> {
        ProgrammableOptionSelect::services(self)
    }

    fn on_event(&mut self, event: &mut DeviceEvent) -> Result<(), Error> {
        ProgrammableOptionSelect::on_event(self, event)
    }
}

} // verus!
