//! The MMIO device manager: hands each virtio device a guest-physical register window
//! and an interrupt line, and tells the guest kernel where to find it.

use vstd::prelude::*;
use crate::bytes::{le_bytes, push_u64};
use crate::cmdline::{joined, Cmdline};
use crate::error::MmioError;
use crate::numfmt::{dec, format_dec, format_hex08, hex08};

verus! {

/// Size of the register window of one device.
pub const MMIO_LEN: u64 = 0x1000;

/// First guest-physical address of the MMIO range: 768 MiB below 4 GiB.
pub const MMIO_MEM_START: u64 = 0xd000_0000;

/// First interrupt line handed to virtio devices.
pub const IRQ_BASE: u32 = 5;

/// Last interrupt line handed to virtio devices.
pub const IRQ_MAX: u32 = 23;

/// Virtio device type of a network device.
pub const TYPE_NET: u32 = 1;

/// Virtio device type of a block device.
pub const TYPE_BLOCK: u32 = 2;

/// Virtio device type of a vsock device.
pub const TYPE_VSOCK: u32 = 19;

/// Size of a disk sector, in bytes.
pub const SECTOR_SIZE: u64 = 512;

/// Where a device lives: its register window and its interrupt line.
#[derive(Clone, Copy, Debug, PartialEq, Eq, Structural)]
pub struct MmioDeviceInfo {
    /// Guest-physical base of the register window.
    pub addr: u64,
    /// Length of the register window.
    pub len: u64,
    /// Interrupt line.
    pub irq: u32,
}

/// One registered device.
#[derive(Clone, Debug, PartialEq, Eq)]
pub struct MmioDeviceEntry {
    /// Virtio device type.
    pub type_id: u32,
    /// Id of the device within its type.
    pub device_id: String,
    /// Window and interrupt line.
    pub info: MmioDeviceInfo,
}

/// The value of the kernel parameter that announces a device:
/// `<len in KiB>K@0x<addr, 8 hex digits>:<irq>`.
pub open spec fn device_param(addr: u64, irq: u32) -> Seq<char> {
    seq!['4', 'K', '@', '0', 'x'] + hex08(addr as nat) + seq![':'] + dec(irq as nat)
}

/// The command line fragment that announces a device.
pub open spec fn device_fragment(addr: u64, irq: u32) -> Seq<char> {
    "virtio_mmio.device"@ + seq!['='] + device_param(addr, irq)
}

proof fn lemma_digit_valid(d: nat)
    ensures
        crate::cmdline::valid_char(crate::numfmt::digit_char(d)),
{
}

proof fn lemma_dec_valid(n: nat)
    ensures
        crate::cmdline::valid_text(crate::numfmt::dec_digits(n)),
    decreases n,
{
    lemma_digit_valid(n % 10);
    lemma_digit_valid(n);
    if n >= 10 {
        lemma_dec_valid(n / 10);
        let a = crate::numfmt::dec_digits(n / 10);
        let s = a + seq![crate::numfmt::digit_char(n % 10)];
        assert forall|i: int| 0 <= i < s.len() implies crate::cmdline::valid_char(#[trigger] s[i]) by {
            if i < a.len() {
                assert(s[i] == a[i]);
            }
        }
    }
}

proof fn lemma_hex_valid(n: nat)
    ensures
        crate::cmdline::valid_text(crate::numfmt::hex_digits(n)),
    decreases n,
{
    lemma_digit_valid(n % 16);
    lemma_digit_valid(n);
    if n >= 16 {
        lemma_hex_valid(n / 16);
        let a = crate::numfmt::hex_digits(n / 16);
        let s = a + seq![crate::numfmt::digit_char(n % 16)];
        assert forall|i: int| 0 <= i < s.len() implies crate::cmdline::valid_char(#[trigger] s[i]) by {
            if i < a.len() {
                assert(s[i] == a[i]);
            }
        }
    }
}

/// A device announcement is printable ASCII and its key holds no space or `=`.
proof fn lemma_param_valid(addr: u64, irq: u32)
    ensures
        crate::cmdline::valid_text(device_param(addr, irq)),
        crate::cmdline::valid_key("virtio_mmio.device"@),
{
    reveal_strlit("virtio_mmio.device");
    lemma_hex_valid(addr as nat);
    lemma_dec_valid(irq as nat);
    let h = crate::numfmt::hex_digits(addr as nat);
    let hp = crate::numfmt::hex08(addr as nat);
    assert forall|i: int| 0 <= i < hp.len() implies crate::cmdline::valid_char(#[trigger] hp[i]) by {
        if h.len() < 8 {
            let pad = (8 - h.len()) as int;
            if i >= pad {
                assert(hp[i] == h[i - pad]);
            }
        }
    }
    let p = device_param(addr, irq);
    let d = crate::numfmt::dec(irq as nat);
    assert forall|i: int| 0 <= i < p.len() implies crate::cmdline::valid_char(#[trigger] p[i]) by {
        if i >= 5 && i < 5 + hp.len() {
            assert(p[i] == hp[i - 5]);
        } else if i > 5 + hp.len() {
            assert(p[i] == d[i - 6 - hp.len()]);
        }
    }
}

/// The table holds a device of this type and id.
pub open spec fn has_device(table: Seq<MmioDeviceEntry>, type_id: u32, id: Seq<char>) -> bool {
    exists|k: int| 0 <= k < table.len() && (#[trigger] table[k]).type_id == type_id && table[k].device_id@ == id
}

/// The index of the device of this type and id.
pub open spec fn index_of_device(table: Seq<MmioDeviceEntry>, type_id: u32, id: Seq<char>) -> int {
    choose|k: int| 0 <= k < table.len() && (#[trigger] table[k]).type_id == type_id && table[k].device_id@ == id
}

/// The virtio block configuration space for a disk of `size` bytes: its capacity in
/// whole sectors, as eight little-endian bytes.
pub open spec fn block_config_space(size: u64) -> Seq<u8> {
    le_bytes(size / 512)
}

/// Builds the virtio block configuration space for a disk of `size` bytes; a partial
/// last sector is not visible to the guest.
pub fn build_config_space(size: u64) -> (r: Vec<u8>)
    ensures
        r@ == block_config_space(size),
{
    let mut v: Vec<u8> = Vec::new();
    push_u64(&mut v, size / SECTOR_SIZE);
    assert(v@ =~= block_config_space(size));
    v
}

/// A copy of the device table.
pub fn copy_entries(v: &Vec<MmioDeviceEntry>) -> (r: Vec<MmioDeviceEntry>)
    ensures
        r@ == v@,
{
    let mut out: Vec<MmioDeviceEntry> = Vec::new();
    let n = v.len();
    let mut i: usize = 0;
    while i < n
        invariant
            n == v@.len(),
            i <= n,
            out@ == v@.subrange(0, i as int),
        decreases n - i,
    {
        let e = &v[i];
        out.push(MmioDeviceEntry { type_id: e.type_id, device_id: e.device_id.clone(), info: e.info });
        assert(out@ =~= v@.subrange(0, i + 1));
        i = i + 1;
    }
    assert(v@.subrange(0, n as int) =~= v@);
    out
}

/// Allocates MMIO windows and interrupt lines and records each device.
pub struct MmioDeviceManager {
    mmio_base: u64,
    irq: u32,
    last_irq: u32,
    devices: Vec<MmioDeviceEntry>,
}

impl MmioDeviceManager {
    /// The next window base to hand out.
    pub closed spec fn next_addr(&self) -> u64 {
        self.mmio_base
    }

    /// The next interrupt line to hand out.
    pub closed spec fn next_irq(&self) -> u32 {
        self.irq
    }

    /// The last interrupt line that may be handed out.
    pub closed spec fn irq_limit(&self) -> u32 {
        self.last_irq
    }

    /// The registered devices, in registration order.
    pub closed spec fn table(&self) -> Seq<MmioDeviceEntry> {
        self.devices@
    }

    /// Windows are handed out upwards without overlap, interrupt lines upwards without
    /// repetition, and each (type, id) is registered once.
    pub open spec fn wf(&self) -> bool {
        let t = self.table();
        &&& forall|i: int| 0 <= i < t.len() ==> {
            &&& (#[trigger] t[i]).info.len == MMIO_LEN
            &&& t[i].info.addr + MMIO_LEN <= self.next_addr()
            &&& t[i].info.irq < self.next_irq()
        }
        &&& forall|i: int, j: int| 0 <= i < j < t.len() ==> {
            &&& (#[trigger] t[i]).info.addr + MMIO_LEN <= (#[trigger] t[j]).info.addr
            &&& t[i].info.irq < t[j].info.irq
        }
        &&& forall|i: int, j: int| 0 <= i < t.len() && 0 <= j < t.len() && i != j
            ==> !((#[trigger] t[i]).type_id == (#[trigger] t[j]).type_id && t[i].device_id@ == t[j].device_id@)
    }

    /// A manager handing out windows from `mmio_base` on and lines in `irq_range`.
    pub fn new(mmio_base: u64, irq_range: (u32, u32)) -> (r: MmioDeviceManager)
        ensures
            r.wf(),
            r.next_addr() == mmio_base,
            r.next_irq() == irq_range.0,
            r.irq_limit() == irq_range.1,
            r.table() == Seq::<MmioDeviceEntry>::empty(),
    {
        MmioDeviceManager { mmio_base, irq: irq_range.0, last_irq: irq_range.1, devices: Vec::new() }
    }

    /// The registered devices, in registration order.
    pub fn get_device_info(&self) -> (r: &Vec<MmioDeviceEntry>)
        ensures
            r@ == self.table(),
    {
        &self.devices
    }

    /// The window and line of the device of this type and id, if registered.
    pub fn get_device(&self, type_id: u32, device_id: &String) -> (r: Option<MmioDeviceInfo>)
        requires
            self.wf(),
        ensures
            r is Some <==> has_device(self.table(), type_id, device_id@),
            r is Some ==> r->0 == self.table()[index_of_device(self.table(), type_id, device_id@)].info,
    {
        let n = self.devices.len();
        let mut i: usize = 0;
        while i < n
            invariant
                self.wf(),
                n == self.devices@.len(),
                i <= n,
                forall|j: int| 0 <= j < i ==> !((#[trigger] self.devices@[j]).type_id == type_id
                    && self.devices@[j].device_id@ == device_id@),
            decreases n - i,
        {
            if self.devices[i].type_id == type_id && self.devices[i].device_id == *device_id {
                let ghost t = self.table();
                assert(has_device(t, type_id, device_id@));
                let ghost k = index_of_device(t, type_id, device_id@);
                assert(t[k].type_id == type_id && t[k].device_id@ == device_id@);
                assert(t[i as int].type_id == type_id && t[i as int].device_id@ == device_id@);
                assert(k == i as int);
                return Some(self.devices[i].info);
            }
            i = i + 1;
        }
        None
    }

    /// Registers a device: takes the next window and line, announces the device on the
    /// kernel command line, and records it. On failure (lines used up, address space
    /// exhausted, command line full, device already registered) nothing changes.
    pub fn register_virtio_device(
        &mut self,
        cmdline: &mut Cmdline,
        type_id: u32,
        device_id: &String,
    ) -> (r: Result<u64, MmioError>)
        requires
            old(self).wf(),
            old(cmdline).wf(),
        ensures
            final(self).wf(),
            final(cmdline).wf(),
            final(cmdline).cap() == old(cmdline).cap(),
            final(self).irq_limit() == old(self).irq_limit(),
            old(self).next_irq() > old(self).irq_limit() ==> r == Err::<u64, MmioError>(MmioError::IrqsExhausted),
            r is Ok ==> {
                &&& r->Ok_0 == old(self).next_addr()
                &&& old(self).next_irq() <= old(self).irq_limit()
                &&& !has_device(old(self).table(), type_id, device_id@)
                &&& final(self).next_addr() == old(self).next_addr() + MMIO_LEN
                &&& final(self).next_irq() == old(self).next_irq() + 1
                &&& final(self).table() == old(self).table().push(MmioDeviceEntry {
                    type_id,
                    device_id: *device_id,
                    info: MmioDeviceInfo { addr: old(self).next_addr(), len: MMIO_LEN, irq: old(self).next_irq() },
                })
                &&& final(cmdline).text() == joined(
                    old(cmdline).text(),
                    device_fragment(old(self).next_addr(), old(self).next_irq()),
                )
            },
            r is Err ==> *final(self) == *old(self) && final(cmdline).text() == old(cmdline).text(),
            old(self).next_irq() <= old(self).irq_limit() && old(self).next_irq() < u32::MAX
                && old(self).next_addr() + MMIO_LEN <= u64::MAX
                && has_device(old(self).table(), type_id, device_id@)
                ==> r == Err::<u64, MmioError>(MmioError::DuplicateDevice),
            old(self).next_irq() <= old(self).irq_limit() && old(self).next_irq() < u32::MAX
                && old(self).next_addr() + MMIO_LEN <= u64::MAX
                && !has_device(old(self).table(), type_id, device_id@)
                && crate::cmdline::fits(old(cmdline).text(), device_fragment(old(self).next_addr(), old(self).next_irq()), old(cmdline).cap())
                ==> r is Ok,
    {
        if self.irq > self.last_irq || self.irq == u32::MAX {
            return Err(MmioError::IrqsExhausted);
        }
        if self.mmio_base > u64::MAX - MMIO_LEN {
            return Err(MmioError::AddressOverflow);
        }
        if self.get_device(type_id, device_id).is_some() {
            return Err(MmioError::DuplicateDevice);
        }
        let addr = self.mmio_base;
        let irq = self.irq;
        proof {
            reveal_strlit("4K@0x");
            reveal_strlit(":");
        }
        let mut param = String::from_str("4K@0x");
        param.append(format_hex08(addr).as_str());
        param.append(":");
        param.append(format_dec(irq as u64).as_str());
        assert(param@ =~= device_param(addr, irq));
        proof {
            lemma_param_valid(addr, irq);
            assert(device_fragment(addr, irq) =~= "virtio_mmio.device"@ + seq!['='] + param@);
        }
        if let Err(e) = cmdline.insert("virtio_mmio.device", param.as_str()) {
            return Err(MmioError::Cmdline(e));
        }
        proof {
            assert(device_fragment(addr, irq) == "virtio_mmio.device"@ + seq!['='] + param@);
        }
        let entry = MmioDeviceEntry {
            type_id,
            device_id: device_id.clone(),
            info: MmioDeviceInfo { addr, len: MMIO_LEN, irq },
        };
        self.devices.push(entry);
        self.mmio_base = addr + MMIO_LEN;
        self.irq = irq + 1;
        proof {
            let t = self.table();
            let o = old(self).table();
            assert forall|i: int| 0 <= i < o.len() implies #[trigger] t[i] == o[i] by {}
            assert forall|i: int, j: int| 0 <= i < t.len() && 0 <= j < t.len() && i != j
                implies !((#[trigger] t[i]).type_id == (#[trigger] t[j]).type_id && t[i].device_id@ == t[j].device_id@) by {
                if i < o.len() && j < o.len() {
                } else if i < o.len() {
                    assert(!(o[i].type_id == type_id && o[i].device_id@ == device_id@));
                } else {
                    assert(!(o[j].type_id == type_id && o[j].device_id@ == device_id@));
                }
            }
        }
        Ok(addr)
    }
}

} // verus!
