//! Transformation of the guest-visible CPUID leaves: entries are changed in place,
//! never added or removed, and the brand string leaves carry the string chosen for the
//! guest.

use vstd::prelude::*;

verus! {

/// First of the three brand string leaves.
pub const BRAND_STRING_LEAF: u32 = 0x8000_0002;

/// Length of the brand string, in bytes.
pub const BRAND_STRING_LEN: usize = 48;

/// One CPUID entry: the leaf (`function`, `index`) and its four registers.
#[derive(Clone, Copy, Debug, PartialEq, Eq, Structural)]
pub struct CpuidEntry {
    /// Leaf.
    pub function: u32,
    /// Sub-leaf.
    pub index: u32,
    /// Entry flags.
    pub flags: u32,
    /// Register `eax`.
    pub eax: u32,
    /// Register `ebx`.
    pub ebx: u32,
    /// Register `ecx`.
    pub ecx: u32,
    /// Register `edx`.
    pub edx: u32,
}

/// Errors of CPUID processing.
#[derive(Clone, Copy, Debug, PartialEq, Eq, Structural)]
pub enum Error {
    /// The number of addressable logical CPUs does not fit in a byte.
    VcpuCountOverflow,
    /// The entry list is too long.
    SizeLimitExceeded,
    /// A helper failed.
    InternalError,
}

/// What the transformation needs to know about the VM and the vCPU.
pub struct VmSpec {
    cpu_vendor_id: [u8; 12],
    cpu_id: u8,
    cpu_count: u8,
    ht_enabled: bool,
    brand_string: Vec<u8>,
}

impl VmSpec {
    /// The brand string for the guest.
    pub closed spec fn spec_brand_string(&self) -> Seq<u8> {
        self.brand_string@
    }

    /// The brand string has its fixed length.
    pub closed spec fn wf(&self) -> bool {
        self.brand_string@.len() == BRAND_STRING_LEN
    }

    /// The spec of vCPU `cpu_id` of `cpu_count`, on a host CPU of vendor
    /// `cpu_vendor_id`, with the brand string `brand_string` for the guest (shorter
    /// strings are padded with NUL bytes, longer ones cut).
    pub fn new(cpu_vendor_id: [u8; 12], brand_string: &Vec<u8>, cpu_id: u8, cpu_count: u8, ht_enabled: bool) -> (r: VmSpec)
        ensures
            r.wf(),
            forall|i: int| 0 <= i < BRAND_STRING_LEN && i < brand_string@.len()
                ==> #[trigger] r.spec_brand_string()[i] == brand_string@[i],
            forall|i: int| brand_string@.len() <= i < BRAND_STRING_LEN ==> #[trigger] r.spec_brand_string()[i] == 0,
    {
        let mut b: Vec<u8> = Vec::new();
        let mut i: usize = 0;
        while i < BRAND_STRING_LEN
            invariant
                i <= BRAND_STRING_LEN,
                b@.len() == i,
                forall|k: int| 0 <= k < i && k < brand_string@.len() ==> #[trigger] b@[k] == brand_string@[k],
                forall|k: int| brand_string@.len() <= k < i ==> #[trigger] b@[k] == 0,
            decreases BRAND_STRING_LEN - i,
        {
            if i < brand_string.len() {
                b.push(brand_string[i]);
            } else {
                b.push(0);
            }
            i = i + 1;
        }
        VmSpec { cpu_vendor_id, cpu_id, cpu_count, ht_enabled, brand_string: b }
    }

    /// The host CPU vendor id.
    pub fn cpu_vendor_id(&self) -> (r: &[u8; 12]) {
        &self.cpu_vendor_id
    }

    /// The id of this vCPU.
    pub fn cpu_id(&self) -> u8 {
        self.cpu_id
    }

    /// The number of vCPUs.
    pub fn cpu_count(&self) -> u8 {
        self.cpu_count
    }

    /// Whether hyper-threading is exposed.
    pub fn ht_enabled(&self) -> bool {
        self.ht_enabled
    }
}

/// The little-endian value of four bytes of `b` from `off` on.
pub open spec fn le_u32(b: Seq<u8>, off: int) -> u32 {
    ((b[off] as u32) | ((b[off + 1] as u32) << 8u32) | ((b[off + 2] as u32) << 16u32) | ((b[off + 3] as u32) << 24u32)) as u32
}

/// A brand string leaf: its registers hold, in order, sixteen bytes of the brand string.
pub open spec fn brand_leaf(e: CpuidEntry, brand: Seq<u8>) -> bool {
    let k = (e.function - BRAND_STRING_LEAF) * 16;
    &&& e.eax == le_u32(brand, k)
    &&& e.ebx == le_u32(brand, k + 4)
    &&& e.ecx == le_u32(brand, k + 8)
    &&& e.edx == le_u32(brand, k + 12)
}

/// The leaf holds part of the brand string.
pub open spec fn is_brand_leaf(function: u32) -> bool {
    BRAND_STRING_LEAF <= function < BRAND_STRING_LEAF + 3
}

fn read_le_u32(b: &Vec<u8>, off: usize) -> (r: u32)
    requires
        off + 4 <= b@.len(),
    ensures
        r == le_u32(b@, off as int),
{
    let len = b.len();
    assert(off + 4 <= len);
    (b[off] as u32) | ((b[off + 1] as u32) << 8) | ((b[off + 2] as u32) << 16) | ((b[off + 3] as u32) << 24)
}

/// Transforms the CPUID leaves of a vCPU, entry by entry, leaving the leaf ids alone.
pub trait CpuidTransformer {
    /// The entry `e` after the transformation.
    spec fn spec_transform(&self, e: CpuidEntry, vm_spec: VmSpec) -> CpuidEntry;

    /// The transformation of `e` fails.
    spec fn spec_fails(&self, e: CpuidEntry, vm_spec: VmSpec) -> bool;

    /// Transforms one entry; its leaf and sub-leaf stay.
    fn transform_entry(&self, entry: &mut CpuidEntry, vm_spec: &VmSpec) -> (r: Result<(), Error>)
        requires
            vm_spec.wf(),
        ensures
            final(entry).function == old(entry).function,
            final(entry).index == old(entry).index,
            r is Err <==> self.spec_fails(*old(entry), *vm_spec),
            r is Ok ==> *final(entry) == self.spec_transform(*old(entry), *vm_spec),
    ;

    /// Transforms every entry in place, none added or removed; stops at the first
    /// failure.
    fn process_entries(&self, entries: &mut Vec<CpuidEntry>, vm_spec: &VmSpec) -> (r: Result<(), Error>)
        requires
            vm_spec.wf(),
        ensures
            final(entries)@.len() == old(entries)@.len(),
            forall|i: int| 0 <= i < old(entries)@.len() ==> {
                &&& (#[trigger] final(entries)@[i]).function == old(entries)@[i].function
                &&& final(entries)@[i].index == old(entries)@[i].index
            },
            r is Ok <==> forall|i: int| 0 <= i < old(entries)@.len() ==> !self.spec_fails(#[trigger] old(entries)@[i], *vm_spec),
            r is Ok ==> forall|i: int| 0 <= i < old(entries)@.len()
                ==> #[trigger] final(entries)@[i] == self.spec_transform(old(entries)@[i], *vm_spec),
    {
        let n = entries.len();
        let mut i: usize = 0;
        while i < n
            invariant
                vm_spec.wf(),
                n == entries@.len(),
                n == old(entries)@.len(),
                i <= n,
                forall|k: int| 0 <= k < n ==> {
                    &&& (#[trigger] entries@[k]).function == old(entries)@[k].function
                    &&& entries@[k].index == old(entries)@[k].index
                },
                forall|k: int| 0 <= k < i ==> !self.spec_fails(#[trigger] old(entries)@[k], *vm_spec),
                forall|k: int| 0 <= k < i ==> #[trigger] entries@[k] == self.spec_transform(old(entries)@[k], *vm_spec),
                forall|k: int| i <= k < n ==> #[trigger] entries@[k] == old(entries)@[k],
            decreases n - i,
        {
            let mut e = entries[i];
            let r = self.transform_entry(&mut e, vm_spec);
            entries.set(i, e);
            if r.is_err() {
                return r;
            }
            i = i + 1;
        }
        Ok(())
    }

    /// Processes the CPUID of one vCPU.
    fn process_cpuid(&self, entries: &mut Vec<CpuidEntry>, vm_spec: &VmSpec) -> (r: Result<(), Error>)
        requires
            vm_spec.wf(),
        ensures
            final(entries)@.len() == old(entries)@.len(),
            forall|i: int| 0 <= i < old(entries)@.len() ==> {
                &&& (#[trigger] final(entries)@[i]).function == old(entries)@[i].function
                &&& final(entries)@[i].index == old(entries)@[i].index
            },
            r is Ok <==> forall|i: int| 0 <= i < old(entries)@.len() ==> !self.spec_fails(#[trigger] old(entries)@[i], *vm_spec),
            r is Ok ==> forall|i: int| 0 <= i < old(entries)@.len()
                ==> #[trigger] final(entries)@[i] == self.spec_transform(old(entries)@[i], *vm_spec),
    {
        self.process_entries(entries, vm_spec)
    }
}

/// A brand string leaf with its registers set from the brand string `brand`; any
/// other entry as it is.
pub open spec fn with_brand_string(e: CpuidEntry, brand: Seq<u8>) -> CpuidEntry {
    if is_brand_leaf(e.function) {
        let k = (e.function - BRAND_STRING_LEAF) * 16;
        CpuidEntry {
            eax: le_u32(brand, k),
            ebx: le_u32(brand, k + 4),
            ecx: le_u32(brand, k + 8),
            edx: le_u32(brand, k + 12),
            ..e
        }
    } else {
        e
    }
}

/// The transformation common to all vendors: the brand string leaves carry the brand
/// string of the VM spec; other leaves are left as they are.
pub struct BrandStringTransformer {}

impl BrandStringTransformer {
    /// Writes the brand string of `vm_spec` into a brand string leaf.
    pub fn update_brand_string_entry(entry: &mut CpuidEntry, vm_spec: &VmSpec)
        requires
            vm_spec.wf(),
            is_brand_leaf(old(entry).function),
        ensures
            final(entry).function == old(entry).function,
            final(entry).index == old(entry).index,
            final(entry).flags == old(entry).flags,
            brand_leaf(*final(entry), vm_spec.spec_brand_string()),
    {
        let k = ((entry.function - BRAND_STRING_LEAF) * 16) as usize;
        let b = &vm_spec.brand_string;
        entry.eax = read_le_u32(b, k);
        entry.ebx = read_le_u32(b, k + 4);
        entry.ecx = read_le_u32(b, k + 8);
        entry.edx = read_le_u32(b, k + 12);
    }
}

impl CpuidTransformer for BrandStringTransformer {
    /// Brand string leaves take the brand string of the VM spec; other leaves stay.
    open spec fn spec_transform(&self, e: CpuidEntry, vm_spec: VmSpec) -> CpuidEntry {
        with_brand_string(e, vm_spec.spec_brand_string())
    }

    /// Never fails.
    open spec fn spec_fails(&self, e: CpuidEntry, vm_spec: VmSpec) -> bool {
        false
    }

    fn transform_entry(&self, entry: &mut CpuidEntry, vm_spec: &VmSpec) -> (r: Result<(), Error>) {
        if BRAND_STRING_LEAF <= entry.function && entry.function < BRAND_STRING_LEAF + 3 {
            BrandStringTransformer::update_brand_string_entry(entry, vm_spec);
        }
        Ok(())
    }
}

} // verus!
