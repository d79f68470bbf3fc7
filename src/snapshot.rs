//! The snapshot file format and the version-aware translator.
//!
//! Layout, all integers eight bytes little-endian: the header (magic, version major,
//! minor and patch, guest memory size in MiB, vCPU count), then the VM-wide state as a
//! length-prefixed byte blob, then one length-prefixed blob per vCPU, then the guest
//! memory regions back to back. A blob is never empty.

use vstd::prelude::*;
use crate::bytes::{le_bytes, le_value, lemma_le_bytes_of_value, lemma_le_value_of_bytes, push_u64, read_u64};
use crate::error::{PauseMicrovmError, ResumeMicrovmError};
use crate::vcpu::{all_saved, collect_vcpu_states, VcpuResponse};

verus! {

/// The value that opens every snapshot file.
pub const SNAPSHOT_MAGIC: u64 = 0x0050_414e_5343_4656;

/// Length of the encoded header.
pub const HEADER_LEN: u64 = 48;

/// A semantic version.
#[derive(Clone, Copy, Debug, PartialEq, Eq, Structural)]
pub struct Version {
    /// Major version: snapshots are compatible within one.
    pub major: u64,
    /// Minor version.
    pub minor: u64,
    /// Patch version.
    pub patch: u64,
}

impl Version {
    /// The version `major.minor.patch`.
    pub fn new(major: u64, minor: u64, patch: u64) -> (r: Version)
        ensures
            r == (Version { major, minor, patch }),
    {
        Version { major, minor, patch }
    }

    /// The major version.
    pub fn major(&self) -> (r: u64)
        ensures
            r == self.major,
    {
        self.major
    }
}

/// The machine shape recorded in a snapshot.
#[derive(Clone, Copy, Debug, PartialEq, Eq, Structural)]
pub struct VmInfo {
    /// Guest memory size, in MiB.
    pub mem_size_mib: u64,
    /// Number of vCPUs.
    pub vcpu_count: u64,
}

/// The snapshot header.
#[derive(Clone, Copy, Debug, PartialEq, Eq, Structural)]
pub struct SnapshotHdr {
    /// Must be `SNAPSHOT_MAGIC`.
    pub magic: u64,
    /// Version of the VMM that wrote the snapshot.
    pub version: Version,
    /// Machine shape.
    pub vm_info: VmInfo,
}

/// The saved state of a microVM, guest memory aside.
#[derive(Clone, Debug, PartialEq, Eq)]
pub struct MicrovmState {
    /// Header.
    pub header: SnapshotHdr,
    /// VM-wide state: interrupt controller, clock, PIT.
    pub vm_state: Vec<u8>,
    /// One state per vCPU, in vCPU order.
    pub vcpu_states: Vec<Vec<u8>>,
}

/// The value of a `MicrovmState`.
pub struct StateView {
    /// Header.
    pub header: SnapshotHdr,
    /// VM-wide state.
    pub vm: Seq<u8>,
    /// vCPU states.
    pub vcpus: Seq<Seq<u8>>,
}

/// The value of `s`.
pub open spec fn state_view(s: MicrovmState) -> StateView {
    StateView {
        header: s.header,
        vm: s.vm_state@,
        vcpus: Seq::new(s.vcpu_states@.len(), |i: int| s.vcpu_states@[i]@),
    }
}

/// Why bytes do not decode to a state.
#[derive(Clone, Copy, Debug, PartialEq, Eq, Structural)]
pub enum DecodeError {
    /// The bytes end inside a field.
    UnexpectedEof,
    /// A blob is shorter than any state: its length field holds this size.
    IncompleteBuffer(u64),
}

/// Errors of the snapshot translator.
#[derive(Clone, Copy, Debug, PartialEq, Eq)]
pub enum Error {
    /// The bytes do not decode.
    Deserialize(DecodeError),
    /// The state cannot be encoded: a blob is empty or the vCPU count disagrees with
    /// the header.
    Serialize,
    /// No translator exists between these two versions.
    UnimplementedSnapshotTranslator((Version, Version)),
}

/// A state that can be encoded: non-empty blobs, one per vCPU of the header.
pub open spec fn state_valid(v: StateView) -> bool {
    &&& v.vm.len() > 0
    &&& v.vcpus.len() == v.header.vm_info.vcpu_count
    &&& forall|i: int| 0 <= i < v.vcpus.len() ==> (#[trigger] v.vcpus[i]).len() > 0
}

/// The encoded header.
pub open spec fn header_bytes(h: SnapshotHdr) -> Seq<u8> {
    le_bytes(h.magic) + le_bytes(h.version.major) + le_bytes(h.version.minor) + le_bytes(h.version.patch)
        + le_bytes(h.vm_info.mem_size_mib) + le_bytes(h.vm_info.vcpu_count)
}

/// A blob: its length, then its bytes.
pub open spec fn blob_bytes(b: Seq<u8>) -> Seq<u8> {
    le_bytes(b.len() as u64) + b
}

/// The blobs of `vs`, in order.
pub open spec fn blobs_bytes(vs: Seq<Seq<u8>>) -> Seq<u8>
    decreases vs.len(),
{
    if vs.len() == 0 {
        Seq::empty()
    } else {
        blobs_bytes(vs.drop_last()) + blob_bytes(vs.last())
    }
}

/// The encoding of a state.
pub open spec fn state_bytes(v: StateView) -> Seq<u8> {
    header_bytes(v.header) + blob_bytes(v.vm) + blobs_bytes(v.vcpus)
}

/// The blob at `off`, and the offset after it.
pub open spec fn read_blob_at(b: Seq<u8>, off: int) -> Result<(Seq<u8>, int), DecodeError> {
    if !(0 <= off && off + 8 <= b.len()) {
        Err(DecodeError::UnexpectedEof)
    } else {
        let n = le_value(b, off);
        if n == 0 {
            Err(DecodeError::IncompleteBuffer(n))
        } else if off + 8 + n > b.len() {
            Err(DecodeError::UnexpectedEof)
        } else {
            Ok((b.subrange(off + 8, off + 8 + n), off + 8 + n))
        }
    }
}

/// `count` blobs from `off` on, and the offset after them.
pub open spec fn read_blobs_at(b: Seq<u8>, off: int, count: nat) -> Result<(Seq<Seq<u8>>, int), DecodeError>
    decreases count,
{
    if count == 0 {
        Ok((Seq::empty(), off))
    } else {
        match read_blobs_at(b, off, (count - 1) as nat) {
            Err(e) => Err(e),
            Ok((vs, o)) => match read_blob_at(b, o) {
                Err(e) => Err(e),
                Ok((v, o2)) => Ok((vs.push(v), o2)),
            },
        }
    }
}

/// The header at the start of `b`.
pub open spec fn read_header(b: Seq<u8>) -> Result<SnapshotHdr, DecodeError> {
    if b.len() < 48 {
        Err(DecodeError::UnexpectedEof)
    } else {
        Ok(SnapshotHdr {
            magic: le_value(b, 0),
            version: Version { major: le_value(b, 8), minor: le_value(b, 16), patch: le_value(b, 24) },
            vm_info: VmInfo { mem_size_mib: le_value(b, 32), vcpu_count: le_value(b, 40) },
        })
    }
}

/// The state that `b` starts with. Bytes after it are not read.
pub open spec fn decode(b: Seq<u8>) -> Result<StateView, DecodeError> {
    match read_header(b) {
        Err(e) => Err(e),
        Ok(h) => match read_blob_at(b, 48) {
            Err(e) => Err(e),
            Ok((vm, o)) => match read_blobs_at(b, o, h.vm_info.vcpu_count as nat) {
                Err(e) => Err(e),
                Ok((vcpus, _)) => Ok(StateView { header: h, vm, vcpus }),
            },
        },
    }
}

proof fn lemma_le_value_at(pre: Seq<u8>, v: u64, rest: Seq<u8>)
    ensures
        le_value(pre + le_bytes(v) + rest, pre.len() as int) == v,
{
    let b = pre + le_bytes(v) + rest;
    lemma_le_value_of_bytes(v);
    let off = pre.len() as int;
    assert forall|i: int| 0 <= i < 8 implies b[off + i] == le_bytes(v)[i] by {}
    assert(le_value(b, off) == le_value(le_bytes(v), 0));
}

proof fn lemma_read_blob_roundtrip(pre: Seq<u8>, v: Seq<u8>, rest: Seq<u8>)
    requires
        0 < v.len() <= u64::MAX,
        pre.len() + 8 + v.len() <= u64::MAX,
    ensures
        read_blob_at(pre + blob_bytes(v) + rest, pre.len() as int)
            == Ok::<(Seq<u8>, int), DecodeError>((v, (pre.len() + 8 + v.len()) as int)),
{
    let b = pre + blob_bytes(v) + rest;
    assert(b =~= pre + le_bytes(v.len() as u64) + (v + rest));
    lemma_le_value_at(pre, v.len() as u64, v + rest);
    let off = pre.len() as int;
    assert(b.subrange(off + 8, off + 8 + v.len()) =~= v);
}

proof fn lemma_read_blob_sound(b: Seq<u8>, off: int)
    requires
        read_blob_at(b, off) is Ok,
    ensures
        ({
            let (v, o) = read_blob_at(b, off)->Ok_0;
            &&& v.len() > 0
            &&& o == off + blob_bytes(v).len()
            &&& o <= b.len()
            &&& b.subrange(off, o) == blob_bytes(v)
        }),
{
    let (v, o) = read_blob_at(b, off)->Ok_0;
    lemma_le_bytes_of_value(b, off);
    assert(b.subrange(off, o) =~= b.subrange(off, off + 8) + v);
}

proof fn lemma_read_blobs_roundtrip(pre: Seq<u8>, vs: Seq<Seq<u8>>, rest: Seq<u8>)
    requires
        forall|i: int| 0 <= i < vs.len() ==> (#[trigger] vs[i]).len() > 0,
        pre.len() + blobs_bytes(vs).len() <= u64::MAX,
    ensures
        read_blobs_at(pre + blobs_bytes(vs) + rest, pre.len() as int, vs.len())
            == Ok::<(Seq<Seq<u8>>, int), DecodeError>((vs, (pre.len() + blobs_bytes(vs).len()) as int)),
    decreases vs.len(),
{
    if vs.len() == 0 {
        assert(vs =~= Seq::<Seq<u8>>::empty());
    } else {
        let init = vs.drop_last();
        let last = vs.last();
        let b = pre + blobs_bytes(vs) + rest;
        assert(b =~= pre + blobs_bytes(init) + (blob_bytes(last) + rest));
        assert forall|i: int| 0 <= i < init.len() implies (#[trigger] init[i]).len() > 0 by {
            assert(init[i] == vs[i]);
        }
        lemma_read_blobs_roundtrip(pre, init, blob_bytes(last) + rest);
        assert(b =~= (pre + blobs_bytes(init)) + blob_bytes(last) + rest);
        lemma_read_blob_roundtrip(pre + blobs_bytes(init), last, rest);
        assert(init.push(last) =~= vs);
    }
}

proof fn lemma_read_blobs_sound(b: Seq<u8>, off: int, count: nat)
    requires
        read_blobs_at(b, off, count) is Ok,
        0 <= off <= b.len(),
    ensures
        ({
            let (vs, o) = read_blobs_at(b, off, count)->Ok_0;
            &&& vs.len() == count
            &&& forall|i: int| 0 <= i < vs.len() ==> (#[trigger] vs[i]).len() > 0
            &&& o == off + blobs_bytes(vs).len()
            &&& o <= b.len()
            &&& b.subrange(off, o) == blobs_bytes(vs)
        }),
    decreases count,
{
    if count == 0 {
        let (vs, o) = read_blobs_at(b, off, count)->Ok_0;
        assert(b.subrange(off, o) =~= Seq::<u8>::empty());
    } else {
        lemma_read_blobs_sound(b, off, (count - 1) as nat);
        let (vs0, o0) = read_blobs_at(b, off, (count - 1) as nat)->Ok_0;
        lemma_read_blob_sound(b, o0);
        let (v, o) = read_blob_at(b, o0)->Ok_0;
        let vs = vs0.push(v);
        assert(vs.drop_last() =~= vs0);
        assert forall|i: int| 0 <= i < vs.len() implies (#[trigger] vs[i]).len() > 0 by {
            if i < vs0.len() {
                assert(vs[i] == vs0[i]);
            }
        }
        assert(b.subrange(off, o) =~= b.subrange(off, o0) + b.subrange(o0, o));
    }
}

proof fn lemma_field(b: Seq<u8>, hb: Seq<u8>, off: int, v: u64)
    requires
        0 <= off,
        off + 8 <= hb.len(),
        hb.len() <= b.len(),
        hb.subrange(off, off + 8) == le_bytes(v),
        forall|i: int| 0 <= i < hb.len() ==> b[i] == hb[i],
    ensures
        le_value(b, off) == v,
{
    lemma_le_value_of_bytes(v);
    let lb = le_bytes(v);
    assert forall|k: int| 0 <= k < 8 implies b[off + k] == lb[k] by {
        assert(hb.subrange(off, off + 8)[k] == hb[off + k]);
    }
}

proof fn lemma_header_roundtrip(h: SnapshotHdr, rest: Seq<u8>)
    ensures
        read_header(header_bytes(h) + rest) == Ok::<SnapshotHdr, DecodeError>(h),
{
    let hb = header_bytes(h);
    let b = hb + rest;
    assert(hb.len() == 48);
    assert(hb.subrange(0, 8) =~= le_bytes(h.magic));
    assert(hb.subrange(8, 16) =~= le_bytes(h.version.major));
    assert(hb.subrange(16, 24) =~= le_bytes(h.version.minor));
    assert(hb.subrange(24, 32) =~= le_bytes(h.version.patch));
    assert(hb.subrange(32, 40) =~= le_bytes(h.vm_info.mem_size_mib));
    assert(hb.subrange(40, 48) =~= le_bytes(h.vm_info.vcpu_count));
    lemma_field(b, hb, 0, h.magic);
    lemma_field(b, hb, 8, h.version.major);
    lemma_field(b, hb, 16, h.version.minor);
    lemma_field(b, hb, 24, h.version.patch);
    lemma_field(b, hb, 32, h.vm_info.mem_size_mib);
    lemma_field(b, hb, 40, h.vm_info.vcpu_count);
}

/// Decoding the encoding of a valid state, whatever follows it, gives that state back.
#[verifier::rlimit(50)]
pub proof fn lemma_decode_encode(v: StateView, rest: Seq<u8>)
    requires
        state_valid(v),
        state_bytes(v).len() <= u64::MAX,
    ensures
        decode(state_bytes(v) + rest) == Ok::<StateView, DecodeError>(v),
        read_blob_at(state_bytes(v) + rest, 48) == Ok::<(Seq<u8>, int), DecodeError>((v.vm, (56 + v.vm.len()) as int)),
        read_blobs_at(state_bytes(v) + rest, (56 + v.vm.len()) as int, v.vcpus.len())
            == Ok::<(Seq<Seq<u8>>, int), DecodeError>((v.vcpus, state_bytes(v).len() as int)),
        state_bytes(v).len() == 56 + v.vm.len() + blobs_bytes(v.vcpus).len(),
{
    let h = header_bytes(v.header);
    let b = state_bytes(v) + rest;
    assert(b =~= h + (blob_bytes(v.vm) + blobs_bytes(v.vcpus) + rest));
    lemma_header_roundtrip(v.header, blob_bytes(v.vm) + blobs_bytes(v.vcpus) + rest);
    assert(b =~= h + blob_bytes(v.vm) + (blobs_bytes(v.vcpus) + rest));
    lemma_read_blob_roundtrip(h, v.vm, blobs_bytes(v.vcpus) + rest);
    assert(b =~= (h + blob_bytes(v.vm)) + blobs_bytes(v.vcpus) + rest);
    lemma_read_blobs_roundtrip(h + blob_bytes(v.vm), v.vcpus, rest);
}

/// What decodes is a valid state whose encoding is exactly the bytes read: encoding a
/// decoded state gives back the decoded bytes, and all of them when nothing follows.
pub proof fn lemma_encode_decode(b: Seq<u8>)
    requires
        decode(b) is Ok,
    ensures
        state_valid(decode(b)->Ok_0),
        state_bytes(decode(b)->Ok_0).len() <= b.len(),
        state_bytes(decode(b)->Ok_0) == b.subrange(0, state_bytes(decode(b)->Ok_0).len() as int),
{
    let v = decode(b)->Ok_0;
    let hdr = v.header;
    lemma_le_bytes_of_value(b, 0);
    lemma_le_bytes_of_value(b, 8);
    lemma_le_bytes_of_value(b, 16);
    lemma_le_bytes_of_value(b, 24);
    lemma_le_bytes_of_value(b, 32);
    lemma_le_bytes_of_value(b, 40);
    assert(header_bytes(hdr) =~= b.subrange(0, 48));
    lemma_read_blob_sound(b, 48);
    let (vm, o) = read_blob_at(b, 48)->Ok_0;
    lemma_read_blobs_sound(b, o, hdr.vm_info.vcpu_count as nat);
    let (vcpus, o2) = read_blobs_at(b, o, hdr.vm_info.vcpu_count as nat)->Ok_0;
    assert(b.subrange(0, o2) =~= b.subrange(0, 48) + b.subrange(48, o) + b.subrange(o, o2));
}

/// Reading and writing through the identity translator keeps a state: a valid state,
/// encoded and decoded again, is the same state.
pub proof fn lemma_identity_translation(v: StateView)
    requires
        state_valid(v),
        state_bytes(v).len() <= u64::MAX,
    ensures
        decode(state_bytes(v)) == Ok::<StateView, DecodeError>(v),
{
    lemma_decode_encode(v, Seq::empty());
    assert(state_bytes(v) + Seq::<u8>::empty() =~= state_bytes(v));
}

/// A snapshot that decodes, with nothing after its state, encodes back to the same
/// bytes.
pub proof fn lemma_snapshot_roundtrip(b: Seq<u8>)
    requires
        decode(b) is Ok,
        state_bytes(decode(b)->Ok_0).len() == b.len(),
    ensures
        state_bytes(decode(b)->Ok_0) == b,
{
    lemma_encode_decode(b);
    assert(b.subrange(0, b.len() as int) =~= b);
}

proof fn lemma_prefix_blob(b: Seq<u8>, k: int, off: int)
    requires
        0 <= k <= b.len(),
        read_blob_at(b, off) is Ok,
    ensures
        read_blob_at(b.subrange(0, k), off) == if k >= read_blob_at(b, off)->Ok_0.1 {
            read_blob_at(b, off)
        } else {
            Err::<(Seq<u8>, int), DecodeError>(DecodeError::UnexpectedEof)
        },
{
    let p = b.subrange(0, k);
    if off + 8 <= k {
        assert(le_value(p, off) == le_value(b, off));
        let n = le_value(b, off);
        if off + 8 + n <= k {
            assert(p.subrange(off + 8, off + 8 + n) =~= b.subrange(off + 8, off + 8 + n));
        }
    }
}

proof fn lemma_prefix_blobs(b: Seq<u8>, k: int, off: int, count: nat)
    requires
        0 <= k <= b.len(),
        0 <= off <= k,
        read_blobs_at(b, off, count) is Ok,
    ensures
        read_blobs_at(b, off, count) is Ok && off <= read_blobs_at(b, off, count)->Ok_0.1,
        read_blobs_at(b.subrange(0, k), off, count) == if k >= read_blobs_at(b, off, count)->Ok_0.1 {
            read_blobs_at(b, off, count)
        } else {
            Err::<(Seq<Seq<u8>>, int), DecodeError>(DecodeError::UnexpectedEof)
        },
    decreases count,
{
    if count > 0 {
        let c = (count - 1) as nat;
        lemma_prefix_blobs(b, k, off, c);
        let (vs, o) = read_blobs_at(b, off, c)->Ok_0;
        lemma_prefix_blob(b, k, o);
        lemma_read_blob_sound(b, o);
        let (w, o2) = read_blob_at(b, o)->Ok_0;
        assert(read_blobs_at(b, off, count) == Ok::<(Seq<Seq<u8>>, int), DecodeError>((vs.push(w), o2)));
        if k < o {
            assert(read_blobs_at(b.subrange(0, k), off, c) == Err::<(Seq<Seq<u8>>, int), DecodeError>(DecodeError::UnexpectedEof));
        } else {
            assert(read_blobs_at(b.subrange(0, k), off, c) == Ok::<(Seq<Seq<u8>>, int), DecodeError>((vs, o)));
        }
    }
}

/// A valid snapshot cut anywhere inside its state does not decode: the bytes end
/// inside a field.
pub proof fn lemma_truncated_snapshot(v: StateView, k: int)
    requires
        state_valid(v),
        state_bytes(v).len() <= u64::MAX,
        0 <= k < state_bytes(v).len(),
    ensures
        decode(state_bytes(v).subrange(0, k)) == Err::<StateView, DecodeError>(DecodeError::UnexpectedEof),
{
    let b = state_bytes(v);
    lemma_decode_encode(v, Seq::empty());
    assert(b + Seq::<u8>::empty() =~= b);
    let o = (48 + 8 + v.vm.len()) as int;
    let p = b.subrange(0, k);
    if k >= 48 {
        assert forall|j: int| 0 <= j < 48 implies p[j] == b[j] by {}
        assert(read_header(p) == read_header(b));
        lemma_prefix_blob(b, k, 48);
        if k >= o {
            lemma_prefix_blobs(b, k, o, v.header.vm_info.vcpu_count as nat);
        }
    }
}

/// A valid snapshot whose VM-state length field is set to zero does not decode: the
/// blob is reported incomplete with size 0.
pub proof fn lemma_zero_length_blob(v: StateView)
    requires
        state_valid(v),
        state_bytes(v).len() <= u64::MAX,
    ensures
        decode(state_bytes(v).subrange(0, 48) + Seq::new(8, |i: int| 0u8)
            + state_bytes(v).subrange(56, state_bytes(v).len() as int))
            == Err::<StateView, DecodeError>(DecodeError::IncompleteBuffer(0)),
{
    let b = state_bytes(v);
    lemma_decode_encode(v, Seq::empty());
    assert(b + Seq::<u8>::empty() =~= b);
    let c = b.subrange(0, 48) + Seq::new(8, |i: int| 0u8) + b.subrange(56, b.len() as int);
    assert(c.len() == b.len());
    assert forall|j: int| 0 <= j < 48 implies c[j] == b[j] by {}
    assert(read_header(c) is Ok);
    let z = 0u8;
    assert(c[48] == z && c[49] == z && c[50] == z && c[51] == z && c[52] == z && c[53] == z && c[54] == z && c[55] == z);
    assert((z as u64) | ((z as u64) << 8u64) | ((z as u64) << 16u64) | ((z as u64) << 24u64)
        | ((z as u64) << 32u64) | ((z as u64) << 40u64) | ((z as u64) << 48u64) | ((z as u64) << 56u64) == 0u64)
        by (bit_vector)
        requires z == 0u8;
    assert(le_value(c, 48) == 0);
}

/// Reads the state at the start of `bytes`.
pub fn deserialize_state(bytes: &[u8]) -> (r: Result<MicrovmState, DecodeError>)
    ensures
        r is Ok <==> decode(bytes@) is Ok,
        r is Ok ==> state_view(r->Ok_0) == decode(bytes@)->Ok_0,
        r is Err ==> decode(bytes@) == Err::<StateView, DecodeError>(r->Err_0),
{
    let len = bytes.len();
    if len < 48 {
        return Err(DecodeError::UnexpectedEof);
    }
    let header = SnapshotHdr {
        magic: read_u64(bytes, 0),
        version: Version { major: read_u64(bytes, 8), minor: read_u64(bytes, 16), patch: read_u64(bytes, 24) },
        vm_info: VmInfo { mem_size_mib: read_u64(bytes, 32), vcpu_count: read_u64(bytes, 40) },
    };
    assert(read_header(bytes@) == Ok::<SnapshotHdr, DecodeError>(header));
    let (vm_state, mut off) = match read_blob(bytes, 48) {
        Err(e) => {
            return Err(e);
        },
        Ok(x) => x,
    };
    let count = header.vm_info.vcpu_count;
    let mut vcpu_states: Vec<Vec<u8>> = Vec::new();
    let mut i: u64 = 0;
    let ghost off0 = off as int;
    assert(Seq::new(vcpu_states@.len(), |k: int| vcpu_states@[k]@) =~= Seq::<Seq<u8>>::empty());
    while i < count
        invariant
            len == bytes@.len(),
            i <= count,
            count == header.vm_info.vcpu_count,
            read_header(bytes@) == Ok::<SnapshotHdr, DecodeError>(header),
            read_blob_at(bytes@, 48) == Ok::<(Seq<u8>, int), DecodeError>((vm_state@, off0)),
            0 <= off <= len,
            read_blobs_at(bytes@, off0, i as nat)
                == Ok::<(Seq<Seq<u8>>, int), DecodeError>((Seq::new(vcpu_states@.len(), |k: int| vcpu_states@[k]@), off as int)),
        decreases count - i,
    {
        let ghost prev = Seq::new(vcpu_states@.len(), |k: int| vcpu_states@[k]@);
        match read_blob(bytes, off) {
            Err(e) => {
                proof {
                    lemma_read_blobs_err(bytes@, off0, i as nat, (count - i) as nat);
                    assert((i + (count - i) as nat) as nat == count as nat);
                }
                return Err(e);
            },
            Ok((v, next)) => {
                vcpu_states.push(v);
                off = next;
                proof {
                    assert(Seq::new(vcpu_states@.len(), |k: int| vcpu_states@[k]@) =~= prev.push(v@));
                }
            },
        }
        i = i + 1;
    }
    let r = MicrovmState { header, vm_state, vcpu_states };
    assert(state_view(r).vcpus =~= Seq::new(r.vcpu_states@.len(), |k: int| r.vcpu_states@[k]@));
    Ok(r)
}

proof fn lemma_read_blobs_err(b: Seq<u8>, off: int, i: nat, more: nat)
    requires
        read_blobs_at(b, off, i) is Ok,
        read_blob_at(b, read_blobs_at(b, off, i)->Ok_0.1) is Err,
        more >= 1,
    ensures
        read_blobs_at(b, off, i + more) == Err::<(Seq<Seq<u8>>, int), DecodeError>(
            read_blob_at(b, read_blobs_at(b, off, i)->Ok_0.1)->Err_0),
    decreases more,
{
    if more > 1 {
        lemma_read_blobs_err(b, off, i, (more - 1) as nat);
        assert((i + more - 1) as nat == i + (more - 1) as nat);
    }
}

fn read_blob(bytes: &[u8], off: usize) -> (r: Result<(Vec<u8>, usize), DecodeError>)
    requires
        off <= bytes@.len(),
    ensures
        r is Ok <==> read_blob_at(bytes@, off as int) is Ok,
        r is Ok ==> read_blob_at(bytes@, off as int) == Ok::<(Seq<u8>, int), DecodeError>((r->Ok_0.0@, r->Ok_0.1 as int)),
        r is Ok ==> r->Ok_0.1 <= bytes@.len(),
        r is Err ==> read_blob_at(bytes@, off as int) == Err::<(Seq<u8>, int), DecodeError>(r->Err_0),
{
    let len = bytes.len();
    if len - off < 8 {
        return Err(DecodeError::UnexpectedEof);
    }
    let n = read_u64(bytes, off);
    if n == 0 {
        return Err(DecodeError::IncompleteBuffer(n));
    }
    if n > (len - off - 8) as u64 {
        return Err(DecodeError::UnexpectedEof);
    }
    let start = off + 8;
    let end = start + n as usize;
    let mut v: Vec<u8> = Vec::new();
    let mut k: usize = start;
    while k < end
        invariant
            len == bytes@.len(),
            start <= k <= end,
            end <= len,
            v@ == bytes@.subrange(start as int, k as int),
        decreases end - k,
    {
        v.push(bytes[k]);
        assert(v@ =~= bytes@.subrange(start as int, k + 1));
        k = k + 1;
    }
    Ok((v, end))
}

fn push_blob(out: &mut Vec<u8>, b: &Vec<u8>)
    ensures
        final(out)@ == old(out)@ + blob_bytes(b@),
{
    push_u64(out, b.len() as u64);
    let n = b.len();
    let mut k: usize = 0;
    let ghost base = out@;
    while k < n
        invariant
            n == b@.len(),
            k <= n,
            out@ == base + b@.subrange(0, k as int),
        decreases n - k,
    {
        out.push(b[k]);
        assert(out@ =~= base + b@.subrange(0, k + 1));
        k = k + 1;
    }
    assert(b@.subrange(0, n as int) =~= b@);
    assert(out@ =~= old(out)@ + blob_bytes(b@));
}

/// Encodes a state. A state with an empty blob, or with a vCPU count that disagrees
/// with its header, is refused.
pub fn serialize_state(s: &MicrovmState) -> (r: Result<Vec<u8>, Error>)
    ensures
        r is Ok <==> state_valid(state_view(*s)),
        r is Ok ==> r->Ok_0@ == state_bytes(state_view(*s)),
        r is Err ==> r->Err_0 == Error::Serialize,
{
    let ghost v = state_view(*s);
    if s.vm_state.len() == 0 || s.vcpu_states.len() as u64 != s.header.vm_info.vcpu_count {
        return Err(Error::Serialize);
    }
    let n = s.vcpu_states.len();
    let mut i: usize = 0;
    while i < n
        invariant
            n == s.vcpu_states@.len(),
            v == state_view(*s),
            i <= n,
            forall|k: int| 0 <= k < i ==> (#[trigger] s.vcpu_states@[k])@.len() > 0,
        decreases n - i,
    {
        if s.vcpu_states[i].len() == 0 {
            assert(v.vcpus[i as int].len() == 0);
            return Err(Error::Serialize);
        }
        i = i + 1;
    }
    assert forall|k: int| 0 <= k < v.vcpus.len() implies (#[trigger] v.vcpus[k]).len() > 0 by {
        assert(v.vcpus[k] == s.vcpu_states@[k]@);
    }
    assert(state_valid(v));
    let mut out: Vec<u8> = Vec::new();
    push_u64(&mut out, s.header.magic);
    push_u64(&mut out, s.header.version.major);
    push_u64(&mut out, s.header.version.minor);
    push_u64(&mut out, s.header.version.patch);
    push_u64(&mut out, s.header.vm_info.mem_size_mib);
    push_u64(&mut out, s.header.vm_info.vcpu_count);
    push_blob(&mut out, &s.vm_state);
    assert(out@ =~= header_bytes(v.header) + blob_bytes(v.vm));
    let ghost pre = out@;
    let mut i: usize = 0;
    while i < n
        invariant
            n == s.vcpu_states@.len(),
            v == state_view(*s),
            i <= n,
            out@ == pre + blobs_bytes(v.vcpus.subrange(0, i as int)),
        decreases n - i,
    {
        push_blob(&mut out, &s.vcpu_states[i]);
        proof {
            let sub2 = v.vcpus.subrange(0, i + 1);
            assert(sub2.drop_last() =~= v.vcpus.subrange(0, i as int));
            assert(sub2.last() == s.vcpu_states@[i as int]@);
            assert(out@ =~= pre + blobs_bytes(sub2));
        }
        i = i + 1;
    }
    assert(v.vcpus.subrange(0, n as int) =~= v.vcpus);
    assert(out@ =~= state_bytes(v));
    Ok(out)
}

/// The identity translator: within one major version the current layout reads and
/// writes every snapshot.
#[derive(Clone, Copy, Debug, PartialEq, Eq, Structural)]
pub struct IdentitySnapshotTranslator {}

/// A translator between the current snapshot layout and another version's.
pub trait SnapshotTranslator {
    /// Encodes a state in the other version's layout.
    fn serialize(&self, microvm_state: &MicrovmState) -> (r: Result<Vec<u8>, Error>)
        ensures
            r is Ok <==> state_valid(state_view(*microvm_state)),
            r is Ok ==> r->Ok_0@ == state_bytes(state_view(*microvm_state)),
    ;

    /// Decodes a state written in the other version's layout.
    fn deserialize(&self, bytes: &[u8]) -> (r: Result<MicrovmState, Error>)
        ensures
            r is Ok <==> decode(bytes@) is Ok,
            r is Ok ==> state_view(r->Ok_0) == decode(bytes@)->Ok_0,
            r is Err ==> r->Err_0 == Error::Deserialize(decode(bytes@)->Err_0),
    ;
}

impl SnapshotTranslator for IdentitySnapshotTranslator {
    fn serialize(&self, microvm_state: &MicrovmState) -> (r: Result<Vec<u8>, Error>) {
        serialize_state(microvm_state)
    }

    fn deserialize(&self, bytes: &[u8]) -> (r: Result<MicrovmState, Error>) {
        match deserialize_state(bytes) {
            Ok(s) => Ok(s),
            Err(e) => Err(Error::Deserialize(e)),
        }
    }
}

/// The translator between the running version and the version of a snapshot: the
/// identity when the major versions agree; none otherwise.
pub fn create_snapshot_translator(current_app_version: Version, other_app_version: Version)
    -> (r: Result<IdentitySnapshotTranslator, Error>)
    ensures
        r is Ok <==> current_app_version.major == other_app_version.major,
        r is Err ==> r->Err_0 == Error::UnimplementedSnapshotTranslator((current_app_version, other_app_version)),
{
    if current_app_version.major() == other_app_version.major() {
        Ok(IdentitySnapshotTranslator {})
    } else {
        Err(Error::UnimplementedSnapshotTranslator((current_app_version, other_app_version)))
    }
}

/// Major version of the snapshot layout written by this VMM.
pub const CURRENT_VERSION_MAJOR: u64 = 1;

/// Minor version of the snapshot layout written by this VMM.
pub const CURRENT_VERSION_MINOR: u64 = 0;

/// Patch version of the snapshot layout written by this VMM.
pub const CURRENT_VERSION_PATCH: u64 = 0;

/// The version this VMM writes.
pub fn current_version() -> (r: Version)
    ensures
        r == (Version { major: CURRENT_VERSION_MAJOR, minor: CURRENT_VERSION_MINOR, patch: CURRENT_VERSION_PATCH }),
{
    Version { major: CURRENT_VERSION_MAJOR, minor: CURRENT_VERSION_MINOR, patch: CURRENT_VERSION_PATCH }
}

/// Bytes in one MiB.
pub const MIB: u64 = 0x10_0000;

/// The size of a snapshot file: the encoded state, then the guest memory.
pub open spec fn snapshot_file_len(v: StateView) -> nat {
    (state_bytes(v).len() + v.header.vm_info.mem_size_mib * MIB) as nat
}

proof fn lemma_uniform_blobs_len(vs: Seq<Seq<u8>>, per: nat)
    requires
        forall|i: int| 0 <= i < vs.len() ==> (#[trigger] vs[i]).len() == per,
    ensures
        blobs_bytes(vs).len() == vs.len() * (8 + per),
    decreases vs.len(),
{
    if vs.len() > 0 {
        let init = vs.drop_last();
        assert forall|i: int| 0 <= i < init.len() implies (#[trigger] init[i]).len() == per by {
            assert(init[i] == vs[i]);
        }
        lemma_uniform_blobs_len(init, per);
        assert(vs.len() * (8 + per) == init.len() * (8 + per) + (8 + per)) by (nonlinear_arith)
            requires vs.len() == init.len() + 1;
    }
}

/// A snapshot file whose vCPU states all have the same size is the header, the
/// length-prefixed VM state, one length-prefixed state per vCPU, and the guest memory.
pub proof fn lemma_snapshot_size(v: StateView, per_vcpu: nat)
    requires
        state_valid(v),
        forall|i: int| 0 <= i < v.vcpus.len() ==> (#[trigger] v.vcpus[i]).len() == per_vcpu,
    ensures
        snapshot_file_len(v) == HEADER_LEN + (8 + v.vm.len()) + v.header.vm_info.vcpu_count * (8 + per_vcpu)
            + v.header.vm_info.mem_size_mib * MIB,
{
    lemma_uniform_blobs_len(v.vcpus, per_vcpu);
}

/// Builds the snapshot state of a paused microVM from the VM-wide state and the
/// answers of the vCPUs to the pause-to-snapshot command. Every vCPU must have answered
/// with its saved state (a missing answer fails with `VcpuPause`, one without a state
/// with `SaveVcpuState`); an empty state fails with `SerializeVcpu`.
pub fn build_snapshot_state(
    version: Version,
    mem_size_mib: u64,
    vm_state: Vec<u8>,
    responses: Vec<Option<VcpuResponse>>,
) -> (r: Result<MicrovmState, PauseMicrovmError>)
    ensures
        r is Ok ==> {
            &&& all_saved(responses@)
            &&& state_valid(state_view(r->Ok_0))
            &&& r->Ok_0.header == (SnapshotHdr {
                magic: SNAPSHOT_MAGIC,
                version,
                vm_info: VmInfo { mem_size_mib, vcpu_count: responses@.len() as u64 },
            })
            &&& r->Ok_0.vm_state@ == vm_state@
            &&& r->Ok_0.vcpu_states@.len() == responses@.len()
            &&& forall|i: int| 0 <= i < responses@.len()
                ==> (#[trigger] responses@[i]) == Some(VcpuResponse::PausedToSnapshot(r->Ok_0.vcpu_states@[i]))
        },
        !all_saved(responses@) ==> r is Err,
        all_saved(responses@) && vm_state@.len() > 0 && responses@.len() <= u64::MAX
            && (forall|i: int| 0 <= i < responses@.len() ==> (#[trigger] responses@[i])->0->PausedToSnapshot_0@.len() > 0)
            ==> r is Ok,
{
    let ghost rs = responses@;
    let states = match collect_vcpu_states(responses) {
        Err(e) => {
            return Err(e);
        },
        Ok(s) => s,
    };
    let count = states.len() as u64;
    proof {
        assert forall|i: int| 0 <= i < rs.len() implies (#[trigger] rs[i])->0->PausedToSnapshot_0 == states@[i] by {}
    }
    let state = MicrovmState {
        header: SnapshotHdr { magic: SNAPSHOT_MAGIC, version, vm_info: VmInfo { mem_size_mib, vcpu_count: count } },
        vm_state,
        vcpu_states: states,
    };
    proof {
        let v = state_view(state);
        assert(v.vcpus.len() == rs.len());
        if rs.len() <= u64::MAX {
            assert(count as nat == rs.len());
        }
        if forall|i: int| 0 <= i < rs.len() ==> (#[trigger] rs[i])->0->PausedToSnapshot_0@.len() > 0 {
            assert forall|i: int| 0 <= i < v.vcpus.len() implies (#[trigger] v.vcpus[i]).len() > 0 by {
                assert(v.vcpus[i] == state.vcpu_states@[i]@);
                assert(rs[i]->0->PausedToSnapshot_0 == state.vcpu_states@[i]);
                assert(rs[i]->0->PausedToSnapshot_0@.len() > 0);
            }
        }
    }
    match serialize_state(&state) {
        Err(_) => Err(PauseMicrovmError::SerializeVcpu),
        Ok(_) => Ok(state),
    }
}

/// Reads and checks the state of a snapshot file of `file_len` bytes whose first bytes
/// are `bytes`: the state must decode, open with the magic value, come from a version
/// with the same major as `current`, and leave room for the guest memory.
pub fn open_snapshot(bytes: &[u8], file_len: u64, current: Version) -> (r: Result<MicrovmState, ResumeMicrovmError>)
    ensures
        r is Ok <==> decode(bytes@) is Ok && {
            let v = decode(bytes@)->Ok_0;
            &&& v.header.magic == SNAPSHOT_MAGIC
            &&& v.header.version.major == current.major
            &&& snapshot_file_len(v) <= file_len
        },
        r is Ok ==> state_view(r->Ok_0) == decode(bytes@)->Ok_0,
        r is Err ==> r->Err_0 == ResumeMicrovmError::OpenSnapshotFile,
{
    let state = match deserialize_state(bytes) {
        Err(_) => {
            return Err(ResumeMicrovmError::OpenSnapshotFile);
        },
        Ok(s) => s,
    };
    if state.header.magic != SNAPSHOT_MAGIC {
        return Err(ResumeMicrovmError::OpenSnapshotFile);
    }
    if create_snapshot_translator(current, state.header.version).is_err() {
        return Err(ResumeMicrovmError::OpenSnapshotFile);
    }
    proof {
        lemma_encode_decode(bytes@);
    }
    let state_len = match serialize_state(&state) {
        Ok(b) => b.len() as u64,
        Err(_) => {
            return Err(ResumeMicrovmError::OpenSnapshotFile);
        },
    };
    let mem = state.header.vm_info.mem_size_mib;
    if state_len > file_len {
        return Err(ResumeMicrovmError::OpenSnapshotFile);
    }
    let room = file_len - state_len;
    let q = room / MIB;
    if mem > q {
        assert(mem * MIB > room) by (nonlinear_arith)
            requires mem > q, q == room / 0x10_0000u64, MIB == 0x10_0000u64;
        return Err(ResumeMicrovmError::OpenSnapshotFile);
    }
    assert(mem * MIB <= room) by (nonlinear_arith)
        requires mem <= q, q == room / 0x10_0000u64, MIB == 0x10_0000u64;
    Ok(state)
}

} // verus!
