//! The machine configuration: vCPU count, memory size, hyper-threading and CPU template.

use vstd::prelude::*;
use crate::error::VmConfigError;

verus! {

/// Default number of vCPUs.
pub const DEFAULT_VCPU_COUNT: u8 = 1;

/// Default guest memory size, in MiB.
pub const DEFAULT_MEM_SIZE_MIB: usize = 128;

/// CPU feature templates that mask the guest-visible CPUID.
#[derive(Clone, Copy, Debug, PartialEq, Eq, Structural)]
pub enum CpuFeaturesTemplate {
    /// Template modelled on a C3 instance.
    C3,
    /// Template modelled on a T2 instance.
    T2,
}

/// Machine configuration. In a request a field left `None` keeps its current value;
/// in the resource store every field but the template is set.
#[derive(Clone, Copy, Debug, PartialEq, Eq, Structural)]
pub struct VmConfig {
    /// Number of vCPUs.
    pub vcpu_count: Option<u8>,
    /// Guest memory size, in MiB.
    pub mem_size_mib: Option<usize>,
    /// Whether hyper-threading is exposed to the guest.
    pub ht_enabled: Option<bool>,
    /// CPU feature template, if any.
    pub cpu_template: Option<CpuFeaturesTemplate>,
}

/// A vCPU count that may stand with the hyper-threading flag: at least one, and one
/// or even when hyper-threading is on.
pub open spec fn valid_vcpu_count(vcpu_count: u8, ht_enabled: bool) -> bool {
    vcpu_count >= 1 && (!ht_enabled || vcpu_count == 1 || vcpu_count % 2 == 0)
}

impl VmConfig {
    /// A configuration the resource store may hold: every field but the template set,
    /// at least one vCPU and one MiB, and a vCPU count that fits hyper-threading.
    pub open spec fn valid(self) -> bool {
        &&& self.vcpu_count is Some
        &&& self.mem_size_mib is Some
        &&& self.ht_enabled is Some
        &&& valid_vcpu_count(self.vcpu_count->0, self.ht_enabled->0)
        &&& self.mem_size_mib->0 >= 1
    }

    /// The outcome of applying the request `req` to the stored configuration `self`.
    pub open spec fn updated(self, req: VmConfig) -> Result<VmConfig, VmConfigError> {
        let vcpu = if req.vcpu_count is Some { req.vcpu_count->0 } else { self.vcpu_count->0 };
        let ht = if req.ht_enabled is Some { req.ht_enabled->0 } else { self.ht_enabled->0 };
        if req.vcpu_count == Some(0u8) {
            Err(VmConfigError::InvalidVcpuCount)
        } else if req.mem_size_mib == Some(0usize) {
            Err(VmConfigError::InvalidMemorySize)
        } else if ht && vcpu > 1 && vcpu % 2 == 1 {
            Err(VmConfigError::InvalidVcpuCount)
        } else {
            Ok(VmConfig {
                vcpu_count: Some(vcpu),
                mem_size_mib: if req.mem_size_mib is Some { req.mem_size_mib } else { self.mem_size_mib },
                ht_enabled: Some(ht),
                cpu_template: if req.cpu_template is Some { req.cpu_template } else { self.cpu_template },
            })
        }
    }

    /// The default configuration: one vCPU, 128 MiB, no hyper-threading, no template.
    pub open spec fn default_config_spec() -> VmConfig {
        VmConfig {
            vcpu_count: Some(DEFAULT_VCPU_COUNT),
            mem_size_mib: Some(DEFAULT_MEM_SIZE_MIB),
            ht_enabled: Some(false),
            cpu_template: None,
        }
    }

    /// The default configuration: one vCPU, 128 MiB, no hyper-threading, no template.
    pub fn default_config() -> (r: VmConfig)
        ensures
            r.valid(),
            r == VmConfig::default_config_spec(),
    {
        VmConfig {
            vcpu_count: Some(DEFAULT_VCPU_COUNT),
            mem_size_mib: Some(DEFAULT_MEM_SIZE_MIB),
            ht_enabled: Some(false),
            cpu_template: None,
        }
    }

    /// Applies the request `req`: fields it sets replace the stored ones, after the
    /// checks on vCPU count and memory size. On error nothing changes.
    pub fn update(&mut self, req: &VmConfig) -> (r: Result<(), VmConfigError>)
        requires
            old(self).valid(),
        ensures
            final(self).valid(),
            r is Ok ==> old(self).updated(*req) == Ok::<VmConfig, VmConfigError>(*final(self)),
            r is Err ==> old(self).updated(*req) == Err::<VmConfig, VmConfigError>(r->Err_0),
            r is Err ==> *final(self) == *old(self),
    {
        if let Some(v) = req.vcpu_count {
            if v == 0 {
                return Err(VmConfigError::InvalidVcpuCount);
            }
        }
        if let Some(m) = req.mem_size_mib {
            if m == 0 {
                return Err(VmConfigError::InvalidMemorySize);
            }
        }
        let ht = match req.ht_enabled {
            Some(h) => h,
            None => self.ht_enabled.unwrap(),
        };
        let vcpu = match req.vcpu_count {
            Some(v) => v,
            None => self.vcpu_count.unwrap(),
        };
        if ht && vcpu > 1 && vcpu % 2 == 1 {
            return Err(VmConfigError::InvalidVcpuCount);
        }
        self.vcpu_count = Some(vcpu);
        self.ht_enabled = Some(ht);
        if req.mem_size_mib.is_some() {
            self.mem_size_mib = req.mem_size_mib;
        }
        if req.cpu_template.is_some() {
            self.cpu_template = req.cpu_template;
        }
        Ok(())
    }
}

/// Every configuration that the store accepts has at least one vCPU and one MiB, and
/// with hyper-threading one vCPU or an even number.
pub proof fn lemma_accepted_config_valid(stored: VmConfig, req: VmConfig)
    requires
        stored.valid(),
        stored.updated(req) is Ok,
    ensures
        ({
            let v = stored.updated(req)->Ok_0;
            &&& v.vcpu_count->0 >= 1
            &&& v.mem_size_mib->0 >= 1
            &&& (!v.ht_enabled->0 || v.vcpu_count->0 == 1 || v.vcpu_count->0 % 2 == 0)
        }),
{
}

} // verus!
