//! The KVM context: the checks that the host's KVM offers what the VMM needs.

use vstd::prelude::*;
use crate::error::{Cap, Error};

verus! {

/// The KVM API version the VMM is written against.
pub const KVM_API_VERSION: i32 = 12;

/// The capabilities the VMM needs, in the order they are checked.
pub open spec fn required_caps() -> Seq<Cap> {
    seq![
        Cap::Irqchip,
        Cap::Ioeventfd,
        Cap::Irqfd,
        Cap::ImmediateExit,
        Cap::SetTssAddr,
        Cap::UserMemory,
        Cap::MsrFeatures,
        Cap::VcpuEvents,
        Cap::Debugregs,
        Cap::Xsave,
        Cap::Xcrs,
    ]
}

/// The capabilities the VMM needs, in the order they are checked.
pub fn required_capabilities() -> (r: Vec<Cap>)
    ensures
        r@ == required_caps(),
{
    let r = vec![
        Cap::Irqchip,
        Cap::Ioeventfd,
        Cap::Irqfd,
        Cap::ImmediateExit,
        Cap::SetTssAddr,
        Cap::UserMemory,
        Cap::MsrFeatures,
        Cap::VcpuEvents,
        Cap::Debugregs,
        Cap::Xsave,
        Cap::Xcrs,
    ];
    assert(r@ =~= required_caps());
    r
}

/// The first capability of `req`, in order, that `supported` lacks.
pub open spec fn first_missing(req: Seq<Cap>, supported: Seq<Cap>) -> Option<Cap>
    decreases req.len(),
{
    if req.len() == 0 {
        None
    } else if !supported.contains(req[0]) {
        Some(req[0])
    } else {
        first_missing(req.subrange(1, req.len() as int), supported)
    }
}

/// A KVM context that passed the checks, with the memory slot budget of the host.
pub struct KvmContext {
    max_memslots: usize,
}

fn supports(supported: &Vec<Cap>, c: Cap) -> (r: bool)
    ensures
        r == supported@.contains(c),
{
    let n = supported.len();
    let mut i: usize = 0;
    while i < n
        invariant
            n == supported@.len(),
            i <= n,
            forall|k: int| 0 <= k < i ==> supported@[k] != c,
        decreases n - i,
    {
        if supported[i] == c {
            return true;
        }
        i = i + 1;
    }
    false
}

impl KvmContext {
    /// The memory slot budget.
    pub closed spec fn spec_max_memslots(&self) -> usize {
        self.max_memslots
    }

    /// Checks what the host's KVM reports: its API version, the capabilities it
    /// supports, and its number of memory slots. A different API version is refused
    /// first; then the first required capability that is missing.
    pub fn new(api_version: i32, supported: &Vec<Cap>, nr_memslots: usize) -> (r: Result<KvmContext, Error>)
        ensures
            api_version != KVM_API_VERSION ==> r == Err::<KvmContext, Error>(Error::KvmApiVersion(api_version)),
            api_version == KVM_API_VERSION ==> match first_missing(required_caps(), supported@) {
                Some(c) => r == Err::<KvmContext, Error>(Error::KvmCap(c)),
                None => r is Ok && r->Ok_0.spec_max_memslots() == nr_memslots,
            },
    {
        if api_version != KVM_API_VERSION {
            return Err(Error::KvmApiVersion(api_version));
        }
        let req = required_capabilities();
        let n = req.len();
        let mut i: usize = 0;
        assert(req@.subrange(0, n as int) =~= req@);
        while i < n
            invariant
                api_version == KVM_API_VERSION,
                n == req@.len(),
                req@ == required_caps(),
                i <= n,
                first_missing(required_caps(), supported@) == first_missing(req@.subrange(i as int, n as int), supported@),
            decreases n - i,
        {
            let ghost rest = req@.subrange(i as int, n as int);
            assert(rest.subrange(1, rest.len() as int) =~= req@.subrange(i + 1, n as int));
            if !supports(supported, req[i]) {
                return Err(Error::KvmCap(req[i]));
            }
            i = i + 1;
        }
        Ok(KvmContext { max_memslots: nr_memslots })
    }

    /// The maximum number of memory slots of this KVM context.
    pub fn max_memslots(&self) -> (r: usize)
        ensures
            r == self.spec_max_memslots(),
    {
        self.max_memslots
    }
}

} // verus!
