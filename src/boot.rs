//! Attaching the configured virtio devices: each gets an MMIO window and a line from
//! the device manager and is announced on the kernel command line; after all devices
//! the command line names the root file system.

use vstd::prelude::*;
use crate::cmdline::{joined, valid_text, Cmdline};
use crate::drive::{drives_valid, BlockDeviceConfig, BlockDeviceConfigs};
use crate::error::{CmdlineError, MmioError, StartMicrovmError};
use crate::mmio::{device_fragment, MmioDeviceEntry, MmioDeviceInfo, MmioDeviceManager, MMIO_LEN, TYPE_BLOCK};

verus! {

/// `ro` for a read-only root, `rw` otherwise.
pub open spec fn rw_flag(read_only: bool) -> Seq<char> {
    if read_only { seq!['r', 'o'] } else { seq!['r', 'w'] }
}

/// `text` with each of `frags` appended in order.
pub open spec fn append_all(text: Seq<char>, frags: Seq<Seq<char>>) -> Seq<char>
    decreases frags.len(),
{
    if frags.len() == 0 {
        text
    } else {
        joined(append_all(text, frags.drop_last()), frags.last())
    }
}

/// A fragment that names the root file system.
pub open spec fn is_root_frag(f: Seq<char>) -> bool {
    f.len() >= 5 && f.subrange(0, 5) == "root="@
}

/// The number of fragments of `frags` that name the root file system.
pub open spec fn count_root_frags(frags: Seq<Seq<char>>) -> nat
    decreases frags.len(),
{
    if frags.len() == 0 {
        0
    } else {
        count_root_frags(frags.drop_last()) + if is_root_frag(frags.last()) { 1nat } else { 0nat }
    }
}

pub(crate) proof fn lemma_append_all_concat(text: Seq<char>, a: Seq<Seq<char>>, b: Seq<Seq<char>>)
    ensures
        append_all(text, a + b) == append_all(append_all(text, a), b),
    decreases b.len(),
{
    if b.len() == 0 {
        assert(a + b =~= a);
    } else {
        assert((a + b).drop_last() =~= a + b.drop_last());
        lemma_append_all_concat(text, a, b.drop_last());
    }
}

pub(crate) proof fn lemma_append_all_grows(text: Seq<char>, frags: Seq<Seq<char>>)
    ensures
        append_all(text, frags).len() >= text.len(),
    decreases frags.len(),
{
    if frags.len() > 0 {
        lemma_append_all_grows(text, frags.drop_last());
    }
}

pub(crate) proof fn lemma_append_all_prefix(text: Seq<char>, a: Seq<Seq<char>>, c: Seq<Seq<char>>)
    ensures
        append_all(text, a).len() <= append_all(text, a + c).len(),
{
    lemma_append_all_concat(text, a, c);
    lemma_append_all_grows(append_all(text, a), c);
}

pub(crate) proof fn lemma_count_concat(a: Seq<Seq<char>>, b: Seq<Seq<char>>)
    ensures
        count_root_frags(a + b) == count_root_frags(a) + count_root_frags(b),
    decreases b.len(),
{
    if b.len() == 0 {
        assert(a + b =~= a);
    } else {
        assert((a + b).drop_last() =~= a + b.drop_last());
        lemma_count_concat(a, b.drop_last());
    }
}

proof fn lemma_device_frag_not_root(addr: u64, irq: u32)
    ensures
        !is_root_frag(device_fragment(addr, irq)),
{
    reveal_strlit("virtio_mmio.device");
    reveal_strlit("root=");
    let f = device_fragment(addr, irq);
    assert(f[0] == 'v');
    assert("root="@[0] == 'r');
}

proof fn lemma_rw_not_root(ro: bool)
    ensures
        !is_root_frag(rw_flag(ro)),
{
}

fn rw_str(read_only: bool) -> (r: &'static str)
    ensures
        r@ == rw_flag(read_only),
{
    proof {
        reveal_strlit("ro");
        reveal_strlit("rw");
    }
    if read_only { "ro" } else { "rw" }
}

/// The announcements of devices of one type registered in order from `addr0` and `irq0`.
pub open spec fn id_frags(n: nat, addr0: nat, irq0: nat) -> Seq<Seq<char>> {
    Seq::new(n, |i: int| device_fragment((addr0 + i * MMIO_LEN) as u64, (irq0 + i) as u32))
}

/// The device table entries of devices of one type with ids `ids`, allocated in
/// order from `addr0` and `irq0`.
pub open spec fn id_entries(ids: Seq<String>, type_id: u32, addr0: nat, irq0: nat) -> Seq<MmioDeviceEntry> {
    Seq::new(ids.len(), |i: int| MmioDeviceEntry {
        type_id,
        device_id: ids[i],
        info: MmioDeviceInfo { addr: (addr0 + i * MMIO_LEN) as u64, len: MMIO_LEN, irq: (irq0 + i) as u32 },
    })
}

/// Registers devices of type `type_id` with ids `ids`, in order; each is announced on
/// the command line.
pub fn attach_ids(
    ids: &Vec<String>,
    type_id: u32,
    cmdline: &mut Cmdline,
    mgr: &mut MmioDeviceManager,
) -> (r: Result<(), MmioError>)
    requires
        old(cmdline).wf(),
        old(mgr).wf(),
        forall|i: int, j: int| 0 <= i < ids@.len() && 0 <= j < ids@.len() && i != j
            ==> (#[trigger] ids@[i])@ != (#[trigger] ids@[j])@,
        forall|k: int| 0 <= k < old(mgr).table().len() ==> (#[trigger] old(mgr).table()[k]).type_id != type_id,
    ensures
        final(cmdline).wf(),
        final(mgr).wf(),
        final(cmdline).cap() == old(cmdline).cap(),
        final(mgr).irq_limit() == old(mgr).irq_limit(),
        ids@.len() == 0 ==> r is Ok,
        old(mgr).next_irq() + ids@.len() <= old(mgr).irq_limit() + 1 && old(mgr).irq_limit() < u32::MAX
            && old(mgr).next_addr() + ids@.len() * MMIO_LEN <= u64::MAX
            && append_all(old(cmdline).text(), id_frags(ids@.len(), old(mgr).next_addr() as nat, old(mgr).next_irq() as nat)).len()
                < old(cmdline).cap()
            ==> r is Ok,
        r is Ok ==> {
            &&& final(cmdline).text() == append_all(old(cmdline).text(),
                id_frags(ids@.len(), old(mgr).next_addr() as nat, old(mgr).next_irq() as nat))
            &&& final(mgr).table() == old(mgr).table()
                + id_entries(ids@, type_id, old(mgr).next_addr() as nat, old(mgr).next_irq() as nat)
            &&& final(mgr).next_addr() == old(mgr).next_addr() + ids@.len() * MMIO_LEN
            &&& final(mgr).next_irq() == old(mgr).next_irq() + ids@.len()
        },
{
    let ghost text0 = cmdline.text();
    let ghost table0 = mgr.table();
    let ghost addr0 = mgr.next_addr() as nat;
    let ghost irq0 = mgr.next_irq() as nat;
    let n = ids.len();
    let mut i: usize = 0;
    proof {
        assert(id_frags(0, addr0, irq0) =~= Seq::<Seq<char>>::empty());
        assert(id_entries(ids@.subrange(0, 0), type_id, addr0, irq0) =~= Seq::<MmioDeviceEntry>::empty());
        assert(table0 + Seq::<MmioDeviceEntry>::empty() =~= table0);
    }
    while i < n
        invariant
            n == ids@.len(),
            i <= n,
            cmdline.wf(),
            mgr.wf(),
            cmdline.cap() == old(cmdline).cap(),
            forall|a: int, b: int| 0 <= a < ids@.len() && 0 <= b < ids@.len() && a != b
                ==> (#[trigger] ids@[a])@ != (#[trigger] ids@[b])@,
            forall|k: int| 0 <= k < table0.len() ==> (#[trigger] table0[k]).type_id != type_id,
            cmdline.text() == append_all(text0, id_frags(i as nat, addr0, irq0)),
            mgr.table() == table0 + id_entries(ids@.subrange(0, i as int), type_id, addr0, irq0),
            mgr.next_addr() == addr0 + i * MMIO_LEN,
            mgr.next_irq() == irq0 + i,
            mgr.irq_limit() == old(mgr).irq_limit(),
            addr0 == old(mgr).next_addr(),
            irq0 == old(mgr).next_irq(),
            text0 == old(cmdline).text(),
        decreases n - i,
    {
        let ghost sub = ids@.subrange(0, i as int);
        proof {
            if irq0 + n <= mgr.irq_limit() + 1 && mgr.irq_limit() < u32::MAX && addr0 + n * MMIO_LEN <= u64::MAX
                && append_all(text0, id_frags(n as nat, addr0, irq0)).len() < cmdline.cap() {
                assert((i + 1) * MMIO_LEN <= n * MMIO_LEN) by (nonlinear_arith)
                    requires i + 1 <= n;
                let f = id_frags(n as nat, addr0, irq0);
                let head = id_frags((i + 1) as nat, addr0, irq0);
                let tail = f.subrange(i + 1, n as int);
                assert(f =~= head + tail);
                lemma_append_all_concat(text0, head, tail);
                lemma_append_all_grows(append_all(text0, head), tail);
                assert(head.drop_last() =~= id_frags(i as nat, addr0, irq0));
                assert(head.last() == device_fragment(mgr.next_addr(), mgr.next_irq()));
            }
        }
        let ghost base_addr = mgr.next_addr();
        let ghost base_irq = mgr.next_irq();
        let ghost before = cmdline.text();
        proof {
            assert forall|k: int| 0 <= k < mgr.table().len() implies
                !((#[trigger] mgr.table()[k]).type_id == type_id && mgr.table()[k].device_id@ == ids@[i as int]@) by {
                if k >= table0.len() {
                    let j = k - table0.len();
                    assert(mgr.table()[k] == id_entries(sub, type_id, addr0, irq0)[j]);
                    assert(sub[j] == ids@[j]);
                }
            }
        }
        mgr.register_virtio_device(cmdline, type_id, &ids[i])?;
        proof {
            let sub2 = ids@.subrange(0, i + 1);
            assert(id_frags((i + 1) as nat, addr0, irq0).drop_last() =~= id_frags(i as nat, addr0, irq0));
            assert(base_addr == (addr0 + i * MMIO_LEN) as u64);
            assert(id_entries(sub2, type_id, addr0, irq0) =~= id_entries(sub, type_id, addr0, irq0).push(MmioDeviceEntry {
                type_id,
                device_id: ids@[i as int],
                info: MmioDeviceInfo { addr: base_addr, len: MMIO_LEN, irq: base_irq },
            }));
            assert(mgr.table() =~= table0 + id_entries(sub2, type_id, addr0, irq0));
        }
        i = i + 1;
    }
    assert(ids@.subrange(0, n as int) =~= ids@);
    Ok(())
}

/// Device announcements never name the root file system.
pub(crate) proof fn lemma_count_id_frags(n: nat, addr0: nat, irq0: nat)
    ensures
        count_root_frags(id_frags(n, addr0, irq0)) == 0,
    decreases n,
{
    if n > 0 {
        let m = (n - 1) as nat;
        assert(id_frags(n, addr0, irq0).drop_last() =~= id_frags(m, addr0, irq0));
        lemma_count_id_frags(m, addr0, irq0);
        lemma_device_frag_not_root((addr0 + m * MMIO_LEN) as u64, (irq0 + m) as u32);
    }
}

/// The kernel parameter that names the root file system on `d`: the root partition by
/// UUID when one is given, else the whole first virtio disk.
pub open spec fn root_target(d: BlockDeviceConfig) -> Seq<char> {
    if d.partuuid is Some {
        "root=PARTUUID="@ + d.partuuid->0@
    } else {
        "root=/dev/vda"@
    }
}

/// The fragments that name the root file system, appended after all device
/// announcements: the root target and `ro` or `rw`, when the first drive is the root.
pub open spec fn root_frags(list: Seq<BlockDeviceConfig>) -> Seq<Seq<char>> {
    if list.len() > 0 && list[0].is_root_device {
        seq![root_target(list[0]), rw_flag(list[0].is_read_only)]
    } else {
        seq![]
    }
}

/// The root fragments can be written: the root partition UUID, if any, is printable
/// ASCII.
pub open spec fn root_valid(list: Seq<BlockDeviceConfig>) -> bool {
    list.len() > 0 && list[0].is_root_device ==> valid_text(root_target(list[0]))
}

/// The ids of the drives of `list`, in order.
pub open spec fn drive_ids(list: Seq<BlockDeviceConfig>) -> Seq<String> {
    Seq::new(list.len(), |i: int| list[i].drive_id)
}

/// `t` ends with `suffix`.
pub open spec fn ends_with(t: Seq<char>, suffix: Seq<char>) -> bool {
    t.len() >= suffix.len() && t.subrange(t.len() - suffix.len(), t.len() as int) == suffix
}

/// Appending two fragments leaves the text ending with the first, a space and the
/// second.
pub proof fn lemma_ends_with_last_two(text: Seq<char>, frags: Seq<Seq<char>>, a: Seq<char>, b: Seq<char>)
    requires
        a.len() > 0,
    ensures
        ends_with(append_all(text, frags + seq![a, b]), a + seq![' '] + b),
{
    reveal_with_fuel(append_all, 3);
    let all = frags + seq![a, b];
    assert(all.drop_last() =~= frags + seq![a]);
    assert(all.last() == b);
    assert((frags + seq![a]).last() == a);
    assert((frags + seq![a]).drop_last() =~= frags);
    let x = append_all(text, frags);
    let y = joined(x, a);
    let z = joined(y, b);
    assert(append_all(text, all) == z);
    assert(y.len() >= a.len());
    assert(y.subrange(y.len() - a.len(), y.len() as int) =~= a);
    let t = a + seq![' '] + b;
    assert(z =~= y + seq![' '] + b);
    assert(z.subrange(z.len() - t.len(), z.len() as int) =~= t);
}

/// With a valid drive set, device announcements followed by the root fragments name
/// the root file system exactly once when a root device is configured, and never
/// otherwise.
pub proof fn lemma_one_root_fragment(list: Seq<BlockDeviceConfig>, devices: Seq<Seq<char>>)
    requires
        drives_valid(list),
        count_root_frags(devices) == 0,
    ensures
        count_root_frags(devices + root_frags(list))
            == if exists|i: int| 0 <= i < list.len() && (#[trigger] list[i]).is_root_device { 1nat } else { 0nat },
{
    reveal_with_fuel(count_root_frags, 3);
    lemma_count_concat(devices, root_frags(list));
    reveal_strlit("root=/dev/vda");
    reveal_strlit("root=PARTUUID=");
    reveal_strlit("root=");
    if list.len() > 0 && list[0].is_root_device {
        let p = root_frags(list);
        let t = root_target(list[0]);
        assert(t.subrange(0, 5) =~= "root="@);
        assert(p.drop_last() =~= seq![t]);
        assert(seq![t].drop_last() =~= Seq::<Seq<char>>::empty());
        lemma_rw_not_root(list[0].is_read_only);
    }
    if exists|i: int| 0 <= i < list.len() && (#[trigger] list[i]).is_root_device {
        let i = choose|i: int| 0 <= i < list.len() && (#[trigger] list[i]).is_root_device;
        assert(i == 0);
    }
}

/// Names the root file system on the command line, after everything else: the root
/// target and `ro`/`rw`, when a root device is configured. A partition UUID that is not
/// printable ASCII fails with `KernelCmdline(InvalidAscii)`; fragments that do not fit
/// fail with `KernelCmdline(CommandLineOverflow)`.
pub fn append_root_fragments(drives: &BlockDeviceConfigs, cmdline: &mut Cmdline) -> (r: Result<(), StartMicrovmError>)
    requires
        drives.wf(),
        old(cmdline).wf(),
    ensures
        final(cmdline).wf(),
        final(cmdline).cap() == old(cmdline).cap(),
        r is Ok <==> root_valid(drives.list())
            && append_all(old(cmdline).text(), root_frags(drives.list())).len() < old(cmdline).cap(),
        r is Ok ==> final(cmdline).text() == append_all(old(cmdline).text(), root_frags(drives.list())),
        !root_valid(drives.list()) ==> r == Err::<(), StartMicrovmError>(
            StartMicrovmError::KernelCmdline(CmdlineError::InvalidAscii)),
        root_valid(drives.list()) && r is Err ==> r == Err::<(), StartMicrovmError>(
            StartMicrovmError::KernelCmdline(CmdlineError::CommandLineOverflow)),
{
    let ghost list = drives.list();
    let ghost text0 = cmdline.text();
    proof {
        reveal_with_fuel(append_all, 3);
    }
    proof {
        cmdline.lemma_wf();
    }
    if !drives.has_root_block_device() {
        assert(root_frags(list) =~= Seq::<Seq<char>>::empty());
        return Ok(());
    }
    let d = &drives.config_list()[0];
    proof {
        reveal_strlit("root=/dev/vda");
        reveal_strlit("root=PARTUUID=");
    }
    let target = match d.get_partuuid() {
        Some(u) => String::from_str("root=PARTUUID=").concat(u.as_str()),
        None => String::from_str("root=/dev/vda"),
    };
    assert(target@ =~= root_target(list[0]));
    let flag = rw_str(d.is_read_only);
    let ghost f = root_frags(list);
    assert(f.drop_last() =~= seq![target@]);
    assert(seq![target@].drop_last() =~= Seq::<Seq<char>>::empty());
    let ghost mid = joined(text0, target@);
    assert(append_all(text0, f) == joined(mid, flag@));
    match cmdline.insert_str(target.as_str()) {
        Ok(()) => {},
        Err(e) => {
            return Err(StartMicrovmError::KernelCmdline(e));
        },
    }
    match cmdline.insert_str(flag) {
        Ok(()) => {},
        Err(e) => {
            proof {
                reveal_strlit("ro");
                reveal_strlit("rw");
            }
            return Err(StartMicrovmError::KernelCmdline(e));
        },
    }
    Ok(())
}

/// The ids of the configured drives, in order.
fn drive_id_list(drives: &BlockDeviceConfigs) -> (r: Vec<String>)
    requires
        drives.wf(),
    ensures
        r@ == drive_ids(drives.list()),
        forall|i: int, j: int| 0 <= i < r@.len() && 0 <= j < r@.len() && i != j
            ==> (#[trigger] r@[i])@ != (#[trigger] r@[j])@,
{
    let list = drives.config_list();
    let mut ids: Vec<String> = Vec::new();
    let n = list.len();
    let mut i: usize = 0;
    while i < n
        invariant
            drives.wf(),
            list@ == drives.list(),
            n == list@.len(),
            i <= n,
            ids@ == drive_ids(list@).subrange(0, i as int),
        decreases n - i,
    {
        ids.push(list[i].drive_id.clone());
        assert(ids@ =~= drive_ids(list@).subrange(0, i + 1));
        i = i + 1;
    }
    assert(ids@ =~= drive_ids(list@));
    proof {
        assert forall|a: int, b: int| 0 <= a < ids@.len() && 0 <= b < ids@.len() && a != b
            implies (#[trigger] ids@[a])@ != (#[trigger] ids@[b])@ by {
            assert(list@[a].drive_id@ != list@[b].drive_id@);
        }
    }
    ids
}

/// Attaches the configured drives in order, root first: each is registered with the
/// device manager and announced on the command line.
pub fn attach_block_devices(
    drives: &BlockDeviceConfigs,
    cmdline: &mut Cmdline,
    mgr: &mut MmioDeviceManager,
) -> (r: Result<(), StartMicrovmError>)
    requires
        drives.wf(),
        old(cmdline).wf(),
        old(mgr).wf(),
        forall|k: int| 0 <= k < old(mgr).table().len() ==> (#[trigger] old(mgr).table()[k]).type_id != TYPE_BLOCK,
    ensures
        final(cmdline).wf(),
        final(mgr).wf(),
        final(cmdline).cap() == old(cmdline).cap(),
        final(mgr).irq_limit() == old(mgr).irq_limit(),
        old(mgr).next_irq() + drives.list().len() <= old(mgr).irq_limit() + 1 && old(mgr).irq_limit() < u32::MAX
            && old(mgr).next_addr() + drives.list().len() * MMIO_LEN <= u64::MAX
            && append_all(old(cmdline).text(), id_frags(drives.list().len(), old(mgr).next_addr() as nat, old(mgr).next_irq() as nat)).len()
                < old(cmdline).cap()
            ==> r is Ok,
        r is Err ==> r->Err_0 is RegisterBlockDevice,
        r is Ok ==> {
            &&& final(cmdline).text() == append_all(old(cmdline).text(),
                id_frags(drives.list().len(), old(mgr).next_addr() as nat, old(mgr).next_irq() as nat))
            &&& final(mgr).table() == old(mgr).table()
                + id_entries(drive_ids(drives.list()), TYPE_BLOCK, old(mgr).next_addr() as nat, old(mgr).next_irq() as nat)
            &&& final(mgr).next_addr() == old(mgr).next_addr() + drives.list().len() * MMIO_LEN
            &&& final(mgr).next_irq() == old(mgr).next_irq() + drives.list().len()
        },
{
    let ids = drive_id_list(drives);
    match attach_ids(&ids, TYPE_BLOCK, cmdline, mgr) {
        Ok(()) => Ok(()),
        Err(e) => Err(StartMicrovmError::RegisterBlockDevice(e)),
    }
}

} // verus!
