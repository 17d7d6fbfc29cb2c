//! Placement of virtio-mmio devices: each device gets the next 4 KiB MMIO
//! window and the next IRQ line (the vsock device shares its predecessor's
//! line), and the kernel learns of it through a `virtio_mmio.device=` entry.

use vstd::prelude::*;
use vstd::string::*;
use std::io::Error as IoError;
use crate::config::{concat_message, io_error_text};
use crate::text::{chars_of, spells, format_radix, zero_pad, radix_digits};

verus! {

/// Size of the MMIO window of one device.
pub const MMIO_LEN: u64 = 0x1000;

/// Virtio device ID of vsock.
pub const TYPE_VSOCK: u32 = 19;

/// Where a registered device sits on the MMIO bus.
#[derive(Clone, Copy, Debug, PartialEq, Eq, Structural)]
pub struct MMIODeviceInfo {
    addr: u64,
    irq: u32,
    len: u64,
}

impl MMIODeviceInfo {
    pub closed spec fn addr_spec(&self) -> u64 {
        self.addr
    }

    pub closed spec fn irq_spec(&self) -> u32 {
        self.irq
    }

    pub closed spec fn len_spec(&self) -> u64 {
        self.len
    }

    /// The placement of a device at `addr` on line `irq`, one window long.
    pub closed spec fn placed(addr: u64, irq: u32) -> MMIODeviceInfo {
        MMIODeviceInfo { addr, irq, len: MMIO_LEN }
    }

    pub proof fn lemma_placed(addr: u64, irq: u32)
        ensures
            Self::placed(addr, irq).addr_spec() == addr,
            Self::placed(addr, irq).irq_spec() == irq,
            Self::placed(addr, irq).len_spec() == MMIO_LEN,
    {
    }

    pub fn addr(&self) -> (a: u64)
        ensures
            a == self.addr_spec(),
    {
        self.addr
    }

    pub fn irq(&self) -> (i: u32)
        ensures
            i == self.irq_spec(),
    {
        self.irq
    }

    pub fn len(&self) -> (l: u64)
        ensures
            l == self.len_spec(),
    {
        self.len
    }
}

/// Errors of device placement and registration.
#[derive(Debug)]
pub enum MmioError {
    /// Failed to create the MMIO transport; the text of its error.
    CreateMmioTransport(String),
    /// Failed to perform an operation on the bus; the text of its error.
    BusError(String),
    /// Appending to the kernel command line failed; the text of its error.
    Cmdline(String),
    /// Failure in creating or cloning an event fd.
    EventFd(IoError),
    /// No more IRQs are available.
    IrqsExhausted,
    /// Registering an IO event failed.
    RegisterIoEvent,
    /// Registering an IRQ FD failed.
    RegisterIrqFd,
    /// The device couldn't be found.
    DeviceNotFound,
    /// Failed to update the mmio device.
    UpdateFailed,
}

/// Fixed start of each error's message; the whole message where the error
/// carries no I/O error.
pub open spec fn mmio_error_prefix(e: &MmioError) -> Seq<char> {
    match e {
        MmioError::CreateMmioTransport(_) => "failed to create mmio transport for the device "@,
        MmioError::BusError(_) => "failed to perform bus operation: "@,
        MmioError::Cmdline(_) => "unable to add device to kernel command line: "@,
        MmioError::EventFd(_) => "failed to create or clone event descriptor: "@,
        MmioError::IrqsExhausted => "no more IRQs are available"@,
        MmioError::RegisterIoEvent => "failed to register IO event"@,
        MmioError::RegisterIrqFd => "failed to register irqfd"@,
        MmioError::DeviceNotFound => "the device couldn't be found"@,
        MmioError::UpdateFailed => "failed to update the mmio device"@,
    }
}

/// The whole message, where it does not depend on an I/O error's text.
pub open spec fn mmio_error_text(e: &MmioError) -> Option<Seq<char>> {
    match e {
        MmioError::CreateMmioTransport(t) => Some(mmio_error_prefix(e) + t@),
        MmioError::BusError(t) => Some(mmio_error_prefix(e) + t@),
        MmioError::Cmdline(t) => Some(mmio_error_prefix(e) + t@),
        MmioError::EventFd(_) => None,
        _ => Some(mmio_error_prefix(e)),
    }
}

/// The whole message, given the `Display` text of the I/O error it carries
/// (used only by `EventFd`).
pub open spec fn mmio_error_full(e: &MmioError, io_text: Seq<char>) -> Seq<char> {
    match e {
        MmioError::EventFd(_) => mmio_error_prefix(e) + io_text,
        _ => mmio_error_text(e).unwrap(),
    }
}

impl MmioError {
    /// The message shown to the user, given the `Display` text of the I/O
    /// error the error carries (ignored by the other variants).
    pub fn message_with_io_text(&self, io_text: &str) -> (s: String)
        ensures
            s@ == mmio_error_full(self, io_text@),
            s@.len() >= mmio_error_prefix(self).len(),
            s@.subrange(0, mmio_error_prefix(self).len() as int) == mmio_error_prefix(self),
    {
        let s = match self {
            MmioError::CreateMmioTransport(t) => concat_message(
                "failed to create mmio transport for the device ",
                t.as_str(),
            ),
            MmioError::BusError(t) => concat_message("failed to perform bus operation: ", t.as_str()),
            MmioError::Cmdline(t) => concat_message(
                "unable to add device to kernel command line: ",
                t.as_str(),
            ),
            MmioError::EventFd(_) => concat_message(
                "failed to create or clone event descriptor: ",
                io_text,
            ),
            MmioError::IrqsExhausted => String::from_str("no more IRQs are available"),
            MmioError::RegisterIoEvent => String::from_str("failed to register IO event"),
            MmioError::RegisterIrqFd => String::from_str("failed to register irqfd"),
            MmioError::DeviceNotFound => String::from_str("the device couldn't be found"),
            MmioError::UpdateFailed => String::from_str("failed to update the mmio device"),
        };
        assert(s@.subrange(0, mmio_error_prefix(self).len() as int) =~= mmio_error_prefix(self));
        s
    }

    /// The message shown to the user.
    pub fn message(&self) -> (s: String)
        ensures
            s@.len() >= mmio_error_prefix(self).len(),
            s@.subrange(0, mmio_error_prefix(self).len() as int) == mmio_error_prefix(self),
            mmio_error_text(self) matches Some(t) ==> s@ == t,
    {
        let t = match self {
            MmioError::EventFd(e) => io_error_text(e),
            _ => String::new(),
        };
        self.message_with_io_text(t.as_str())
    }
}

/// Line the next device of type `type_id` is given: the vsock device shares
/// its predecessor's line (one below the next free one, not below 0) where
/// sharing is on.
pub open spec fn assigned_irq_spec(next_irq: u32, type_id: u32, share_vsock_irq: bool) -> u32 {
    if type_id == TYPE_VSOCK && share_vsock_irq {
        if next_irq == 0 {
            0
        } else {
            (next_irq - 1) as u32
        }
    } else {
        next_irq
    }
}

/// Tracks the next free MMIO window and IRQ line, and the devices placed.
pub struct MMIODeviceManager {
    mmio_base: u64,
    irq: u32,
    last_irq: u32,
    /// (virtio type, device ID, placement), one entry per (type, ID).
    id_to_dev_info: Vec<(u32, String, MMIODeviceInfo)>,
}

/// Two MMIO windows starting at `a` and `b` share no byte.
pub open spec fn windows_disjoint(a: u64, b: u64) -> bool {
    a + MMIO_LEN <= b || b + MMIO_LEN <= a
}

pub open spec fn entry_key(e: (u32, String, MMIODeviceInfo)) -> (u32, Seq<char>) {
    (e.0, e.1@)
}

impl MMIODeviceManager {
    pub closed spec fn base(&self) -> u64 {
        self.mmio_base
    }

    pub closed spec fn next_irq(&self) -> u32 {
        self.irq
    }

    pub closed spec fn last_irq_spec(&self) -> u32 {
        self.last_irq
    }

    pub closed spec fn entries(&self) -> Seq<(u32, String, MMIODeviceInfo)> {
        self.id_to_dev_info@
    }

    /// No (type, ID) pair is recorded twice, every recorded window lies
    /// below the next free base, and no two recorded windows overlap.
    pub open spec fn wf(&self) -> bool {
        &&& forall|i: int, j: int|
            0 <= i < j < self.entries().len() ==> entry_key(#[trigger] self.entries()[i])
                != entry_key(#[trigger] self.entries()[j])
        &&& forall|i: int|
            0 <= i < self.entries().len() ==> (#[trigger] self.entries()[i]).2.addr_spec()
                + MMIO_LEN <= self.base()
        &&& forall|i: int, j: int|
            0 <= i < self.entries().len() && 0 <= j < self.entries().len() && i != j ==> windows_disjoint(
                (#[trigger] self.entries()[i]).2.addr_spec(),
                (#[trigger] self.entries()[j]).2.addr_spec(),
            )
    }

    /// A manager placing devices from `*mmio_base` upwards on IRQ lines
    /// `irq_interval.0..=irq_interval.1`.
    pub fn new(mmio_base: &mut u64, irq_interval: (u32, u32)) -> (m: MMIODeviceManager)
        ensures
            *final(mmio_base) == *old(mmio_base),
            m.wf(),
            m.base() == *old(mmio_base),
            m.next_irq() == irq_interval.0,
            m.last_irq_spec() == irq_interval.1,
            m.entries().len() == 0,
    {
        MMIODeviceManager {
            mmio_base: *mmio_base,
            irq: irq_interval.0,
            last_irq: irq_interval.1,
            id_to_dev_info: Vec::new(),
        }
    }

    /// MMIO base and IRQ line the next device of type `type_id` gets, or
    /// `IrqsExhausted` when no line is left.
    pub fn assign_slot(&self, type_id: u32, share_vsock_irq: bool) -> (r: Result<(u64, u32), MmioError>)
        ensures
            self.next_irq() > self.last_irq_spec() ==> r == Err::<(u64, u32), MmioError>(
                MmioError::IrqsExhausted,
            ),
            self.next_irq() <= self.last_irq_spec() ==> r == Ok::<(u64, u32), MmioError>(
                (self.base(), assigned_irq_spec(self.next_irq(), type_id, share_vsock_irq)),
            ),
    {
        if self.irq > self.last_irq {
            return Err(MmioError::IrqsExhausted);
        }
        let assigned = if type_id == TYPE_VSOCK && share_vsock_irq {
            self.irq.saturating_sub(1)
        } else {
            self.irq
        };
        Ok((self.mmio_base, assigned))
    }

    /// Places a device: it gets the slot `assign_slot` names, its placement
    /// is recorded under (`type_id`, `device_id`) (replacing an earlier one),
    /// and the next window and line move on by one.
    pub fn register_mmio_device(&mut self, type_id: u32, device_id: String, share_vsock_irq: bool) -> (r: Result<(u64, u32), MmioError>)
        requires
            old(self).wf(),
            old(self).next_irq() <= old(self).last_irq_spec() ==> old(self).base() + MMIO_LEN
                <= u64::MAX && old(self).next_irq() < u32::MAX,
        ensures
            final(self).wf(),
            final(self).last_irq_spec() == old(self).last_irq_spec(),
            old(self).next_irq() > old(self).last_irq_spec() ==> {
                &&& r == Err::<(u64, u32), MmioError>(MmioError::IrqsExhausted)
                &&& final(self).base() == old(self).base()
                &&& final(self).next_irq() == old(self).next_irq()
                &&& final(self).entries() == old(self).entries()
            },
            old(self).next_irq() <= old(self).last_irq_spec() ==> {
                let irq = assigned_irq_spec(old(self).next_irq(), type_id, share_vsock_irq);
                let info = MMIODeviceInfo::placed(old(self).base(), irq);
                &&& r == Ok::<(u64, u32), MmioError>((old(self).base(), irq))
                &&& final(self).base() == old(self).base() + MMIO_LEN
                &&& final(self).next_irq() == old(self).next_irq() + 1
                &&& (exists|i: int|
                    0 <= i < old(self).entries().len() && entry_key(
                        #[trigger] old(self).entries()[i],
                    ) == (type_id, device_id@)) ==> exists|i: int|
                    0 <= i < old(self).entries().len() && entry_key(old(self).entries()[i]) == (
                        type_id,
                        device_id@,
                    ) && final(self).entries() == old(self).entries().update(
                        i,
                        (type_id, device_id, info),
                    )
                &&& !(exists|i: int|
                    0 <= i < old(self).entries().len() && entry_key(
                        #[trigger] old(self).entries()[i],
                    ) == (type_id, device_id@)) ==> final(self).entries() == old(
                    self,
                ).entries().push((type_id, device_id, info))
            },
    {
        let (base, irq) = match self.assign_slot(type_id, share_vsock_irq) {
            Ok(slot) => slot,
            Err(e) => return Err(e),
        };
        let info = MMIODeviceInfo { addr: base, irq, len: MMIO_LEN };
        assert(info == MMIODeviceInfo::placed(base, irq));
        let ghost old_entries = self.id_to_dev_info@;
        let mut k: usize = 0;
        let mut found = false;
        while k < self.id_to_dev_info.len()
            invariant_except_break
                k <= self.id_to_dev_info@.len(),
                self.id_to_dev_info@ == old_entries,
                forall|i: int|
                    0 <= i < k ==> entry_key(#[trigger] old_entries[i]) != (type_id, device_id@),
                !found,
            ensures
                self.id_to_dev_info@ == old_entries,
                found ==> k < old_entries.len() && entry_key(old_entries[k as int]) == (
                    type_id,
                    device_id@,
                ),
                !found ==> forall|i: int|
                    0 <= i < old_entries.len() ==> entry_key(#[trigger] old_entries[i]) != (
                        type_id,
                        device_id@,
                    ),
            decreases self.id_to_dev_info@.len() - k,
        {
            if self.id_to_dev_info[k].0 == type_id && self.id_to_dev_info[k].1 == device_id {
                found = true;
                break;
            }
            k = k + 1;
        }
        let ghost key = (type_id, device_id@);
        if found {
            self.id_to_dev_info.set(k, (type_id, device_id, info));
            proof {
                let s = self.id_to_dev_info@;
                assert forall|i: int, j: int|
                    0 <= i < s.len() && 0 <= j < s.len() && i != j implies windows_disjoint(
                    (#[trigger] s[i]).2.addr_spec(),
                    (#[trigger] s[j]).2.addr_spec(),
                ) by {
                    if i != k && j != k {
                        assert(windows_disjoint(old_entries[i].2.addr_spec(), old_entries[j].2.addr_spec()));
                    } else if i == k {
                        assert(old_entries[j].2.addr_spec() + MMIO_LEN <= base);
                    } else {
                        assert(old_entries[i].2.addr_spec() + MMIO_LEN <= base);
                    }
                }
                assert forall|i: int| 0 <= i < s.len() implies (#[trigger] s[i]).2.addr_spec()
                    + MMIO_LEN <= base + MMIO_LEN by {
                    if i != k {
                        assert(old_entries[i].2.addr_spec() + MMIO_LEN <= base);
                    }
                }
                assert forall|i: int, j: int|
                    0 <= i < j < s.len() implies entry_key(#[trigger] s[i]) != entry_key(
                    #[trigger] s[j],
                ) by {
                    if i == k {
                        assert(entry_key(old_entries[j]) != entry_key(old_entries[k as int]));
                    } else if j == k {
                        assert(entry_key(old_entries[i]) != entry_key(old_entries[k as int]));
                    } else {
                        assert(entry_key(old_entries[i]) != entry_key(old_entries[j]));
                    }
                }
            }
        } else {
            self.id_to_dev_info.push((type_id, device_id, info));
            proof {
                let s = self.id_to_dev_info@;
                let n = old_entries.len() as int;
                assert forall|i: int, j: int|
                    0 <= i < s.len() && 0 <= j < s.len() && i != j implies windows_disjoint(
                    (#[trigger] s[i]).2.addr_spec(),
                    (#[trigger] s[j]).2.addr_spec(),
                ) by {
                    if i != n && j != n {
                        assert(windows_disjoint(old_entries[i].2.addr_spec(), old_entries[j].2.addr_spec()));
                    } else if i == n {
                        assert(old_entries[j].2.addr_spec() + MMIO_LEN <= base);
                    } else {
                        assert(old_entries[i].2.addr_spec() + MMIO_LEN <= base);
                    }
                }
                assert forall|i: int| 0 <= i < s.len() implies (#[trigger] s[i]).2.addr_spec()
                    + MMIO_LEN <= base + MMIO_LEN by {
                    if i != n {
                        assert(old_entries[i].2.addr_spec() + MMIO_LEN <= base);
                    }
                }
                assert forall|i: int, j: int|
                    0 <= i < j < s.len() implies entry_key(#[trigger] s[i]) != entry_key(
                    #[trigger] s[j],
                ) by {
                    if j < old_entries.len() {
                        assert(entry_key(old_entries[i]) != entry_key(old_entries[j]));
                    } else {
                        assert(entry_key(old_entries[i]) != key);
                    }
                }
            }
        }
        self.mmio_base = self.mmio_base + MMIO_LEN;
        self.irq = self.irq + 1;
        Ok((base, irq))
    }

    /// Placement recorded for (`type_id`, `device_id`), if any.
    pub fn device_info(&self, type_id: u32, device_id: &String) -> (r: Option<MMIODeviceInfo>)
        requires
            self.wf(),
        ensures
            r.is_none() <==> forall|i: int|
                0 <= i < self.entries().len() ==> entry_key(#[trigger] self.entries()[i]) != (
                    type_id,
                    device_id@,
                ),
            forall|i: int|
                0 <= i < self.entries().len() && entry_key(#[trigger] self.entries()[i]) == (
                    type_id,
                    device_id@,
                ) ==> r == Some(self.entries()[i].2),
    {
        let mut k: usize = 0;
        while k < self.id_to_dev_info.len()
            invariant
                self.wf(),
                k <= self.id_to_dev_info@.len(),
                forall|i: int|
                    0 <= i < k ==> entry_key(#[trigger] self.id_to_dev_info@[i]) != (
                        type_id,
                        device_id@,
                    ),
            decreases self.id_to_dev_info@.len() - k,
        {
            if self.id_to_dev_info[k].0 == type_id && self.id_to_dev_info[k].1 == *device_id {
                proof {
                    let s = self.entries();
                    assert forall|i: int|
                        0 <= i < s.len() && entry_key(#[trigger] s[i]) == (
                            type_id,
                            device_id@,
                        ) implies i == k by {
                        if i < k {
                            assert(entry_key(s[i]) != entry_key(s[k as int]));
                        } else if i > k {
                            assert(entry_key(s[k as int]) != entry_key(s[i]));
                        }
                    }
                }
                return Some(self.id_to_dev_info[k].2);
            }
            k = k + 1;
        }
        None
    }
}

/// Devices placed by one manager occupy pairwise disjoint MMIO windows,
/// all below the next free base.
pub proof fn lemma_windows_disjoint(m: MMIODeviceManager, i: int, j: int)
    requires
        m.wf(),
        0 <= i < m.entries().len(),
        0 <= j < m.entries().len(),
        i != j,
    ensures
        windows_disjoint(m.entries()[i].2.addr_spec(), m.entries()[j].2.addr_spec()),
        m.entries()[i].2.addr_spec() + MMIO_LEN <= m.base(),
{
}

/// Whether the vsock device shares its predecessor's IRQ line: yes unless
/// the setting is exactly "0".
pub fn share_vsock_irq_from_value(value: Option<&str>) -> (share: bool)
    ensures
        share == !(value.is_some() && value.unwrap()@ == "0"@),
{
    match value {
        Some(v) => !spells(&chars_of(v), "0"),
        None => true,
    }
}

/// Value of the `virtio_mmio.device` kernel parameter of a device:
/// `<size>K@0x<base>:<irq>`, the base in at least eight lower-case hex
/// digits and the IRQ in decimal.
pub fn device_cmdline_value(mmio_base: u64, irq: u32) -> (s: String)
    ensures
        s@ == "4K@0x"@ + zero_pad(radix_digits(mmio_base as nat, 16), 8) + ":"@ + radix_digits(
            irq as nat,
            10,
        ),
{
    let mut s = String::from_str("4K@0x");
    let hex = format_radix(mmio_base, 16, 8);
    s.append(hex.as_str());
    s.append(":");
    let dec = format_radix(irq as u64, 10, 0);
    s.append(dec.as_str());
    s
}

} // verus!
