//! Network interface configuration and the set of configured interfaces.

use vstd::prelude::*;
use crate::error::NetworkInterfaceError;
use crate::numfmt::{format_hex02, hex02};
use crate::rate_limiter::{limiter_after, update_limiter, RateLimiterConfig};

verus! {

/// A guest MAC address.
#[derive(Clone, Copy, Debug, PartialEq, Eq)]
pub struct MacAddr {
    /// The six octets, most significant first.
    pub bytes: [u8; 6],
}

/// `xx:xx:xx:xx:xx:xx` in lowercase hexadecimal.
pub open spec fn mac_text(m: MacAddr) -> Seq<char> {
    hex02(m.bytes@[0] as nat) + seq![':'] + hex02(m.bytes@[1] as nat) + seq![':']
        + hex02(m.bytes@[2] as nat) + seq![':'] + hex02(m.bytes@[3] as nat) + seq![':']
        + hex02(m.bytes@[4] as nat) + seq![':'] + hex02(m.bytes@[5] as nat)
}

/// The two addresses have the same octets.
pub open spec fn same_mac(a: Option<MacAddr>, b: Option<MacAddr>) -> bool {
    match (a, b) {
        (Some(x), Some(y)) => x.bytes@ == y.bytes@,
        (None, None) => true,
        _ => false,
    }
}

impl MacAddr {
    /// Whether the two addresses have the same octets.
    pub fn same_as(&self, other: &MacAddr) -> (r: bool)
        ensures
            r == (self.bytes@ == other.bytes@),
    {
        let mut i: usize = 0;
        while i < 6
            invariant
                i <= 6,
                forall|j: int| 0 <= j < i ==> self.bytes@[j] == other.bytes@[j],
            decreases 6 - i,
        {
            if self.bytes[i] != other.bytes[i] {
                return false;
            }
            i = i + 1;
        }
        assert(self.bytes@ =~= other.bytes@);
        true
    }

    /// The address with the given octets.
    pub fn from_bytes(bytes: [u8; 6]) -> (r: MacAddr)
        ensures
            r.bytes == bytes,
    {
        MacAddr { bytes }
    }

    /// The address as `xx:xx:xx:xx:xx:xx`.
    pub fn as_string(&self) -> (r: String)
        ensures
            r@ == mac_text(*self),
    {
        proof {
            reveal_strlit(":");
        }
        let mut r = format_hex02(self.bytes[0]);
        r.append(":");
        r.append(format_hex02(self.bytes[1]).as_str());
        r.append(":");
        r.append(format_hex02(self.bytes[2]).as_str());
        r.append(":");
        r.append(format_hex02(self.bytes[3]).as_str());
        r.append(":");
        r.append(format_hex02(self.bytes[4]).as_str());
        r.append(":");
        r.append(format_hex02(self.bytes[5]).as_str());
        assert(r@ =~= mac_text(*self));
        r
    }
}

/// Configuration of one network interface.
#[derive(Clone, Debug, PartialEq, Eq)]
pub struct NetworkInterfaceConfig {
    /// Unique id of the interface.
    pub iface_id: String,
    /// Name of the host tap device.
    pub host_dev_name: String,
    /// MAC address the guest sees.
    pub guest_mac: Option<MacAddr>,
    /// Rate limiter of the receive queue.
    pub rx_rate_limiter: Option<RateLimiterConfig>,
    /// Rate limiter of the transmit queue.
    pub tx_rate_limiter: Option<RateLimiterConfig>,
    /// Whether the device answers metadata service requests.
    pub allow_mmds_requests: bool,
}

/// An update of the rate limiters of an interface.
#[derive(Clone, Debug, PartialEq, Eq)]
pub struct NetworkInterfaceUpdateConfig {
    /// Id of the interface to update.
    pub iface_id: String,
    /// New receive limiter buckets.
    pub rx_rate_limiter: Option<RateLimiterConfig>,
    /// New transmit limiter buckets.
    pub tx_rate_limiter: Option<RateLimiterConfig>,
}

/// Some interface of `list` has the id `id`.
pub open spec fn has_iface(list: Seq<NetworkInterfaceConfig>, id: Seq<char>) -> bool {
    exists|k: int| 0 <= k < list.len() && (#[trigger] list[k]).iface_id@ == id
}

/// The index of the interface with id `id` in `list`.
pub open spec fn index_of_iface(list: Seq<NetworkInterfaceConfig>, id: Seq<char>) -> int {
    choose|k: int| 0 <= k < list.len() && (#[trigger] list[k]).iface_id@ == id
}

/// Another interface already has the guest MAC address of `cfg`.
pub open spec fn mac_conflict(list: Seq<NetworkInterfaceConfig>, cfg: NetworkInterfaceConfig) -> bool {
    cfg.guest_mac is Some && exists|j: int|
        0 <= j < list.len() && same_mac((#[trigger] list[j]).guest_mac, cfg.guest_mac)
            && list[j].iface_id@ != cfg.iface_id@
}

/// Another interface already uses the host device of `cfg`.
pub open spec fn host_conflict(list: Seq<NetworkInterfaceConfig>, cfg: NetworkInterfaceConfig) -> bool {
    exists|j: int|
        0 <= j < list.len() && (#[trigger] list[j]).host_dev_name@ == cfg.host_dev_name@
            && list[j].iface_id@ != cfg.iface_id@
}

/// The interface list after `cfg` is accepted: an interface with the same id is
/// replaced in place, a new one goes to the back.
pub open spec fn iface_inserted(list: Seq<NetworkInterfaceConfig>, cfg: NetworkInterfaceConfig) -> Seq<NetworkInterfaceConfig> {
    if has_iface(list, cfg.iface_id@) {
        list.update(index_of_iface(list, cfg.iface_id@), cfg)
    } else {
        list.push(cfg)
    }
}

/// The invariants of an interface set: ids, host devices and set MAC addresses distinct.
pub open spec fn ifaces_valid(list: Seq<NetworkInterfaceConfig>) -> bool {
    &&& forall|i: int, j: int| 0 <= i < list.len() && 0 <= j < list.len() && i != j
        ==> (#[trigger] list[i]).iface_id@ != (#[trigger] list[j]).iface_id@
    &&& forall|i: int, j: int| 0 <= i < list.len() && 0 <= j < list.len() && i != j
        ==> (#[trigger] list[i]).host_dev_name@ != (#[trigger] list[j]).host_dev_name@
    &&& forall|i: int, j: int| 0 <= i < list.len() && 0 <= j < list.len() && i != j
        && (#[trigger] list[i]).guest_mac is Some ==> !same_mac(list[i].guest_mac, (#[trigger] list[j]).guest_mac)
}

/// Accepting an interface into a valid set keeps ids, host devices and MAC addresses
/// distinct.
pub proof fn lemma_iface_insert_keeps_valid(list: Seq<NetworkInterfaceConfig>, cfg: NetworkInterfaceConfig)
    requires
        ifaces_valid(list),
        !mac_conflict(list, cfg),
        !host_conflict(list, cfg),
    ensures
        ifaces_valid(iface_inserted(list, cfg)),
{
    let r = iface_inserted(list, cfg);
    if has_iface(list, cfg.iface_id@) {
        let k = index_of_iface(list, cfg.iface_id@);
        assert forall|i: int, j: int| 0 <= i < r.len() && 0 <= j < r.len() && i != j
            implies (#[trigger] r[i]).iface_id@ != (#[trigger] r[j]).iface_id@ by {
            if i == k {
                assert(list[j].iface_id@ != list[k].iface_id@);
            } else if j == k {
                assert(list[i].iface_id@ != list[k].iface_id@);
            }
        }
        assert forall|i: int, j: int| 0 <= i < r.len() && 0 <= j < r.len() && i != j
            implies (#[trigger] r[i]).host_dev_name@ != (#[trigger] r[j]).host_dev_name@ by {
            if i == k {
                assert(list[j].iface_id@ != cfg.iface_id@);
            } else if j == k {
                assert(list[i].iface_id@ != cfg.iface_id@);
            }
        }
        assert forall|i: int, j: int| 0 <= i < r.len() && 0 <= j < r.len() && i != j
            && (#[trigger] r[i]).guest_mac is Some implies !same_mac(r[i].guest_mac, (#[trigger] r[j]).guest_mac) by {
            if i == k {
                assert(list[j].iface_id@ != cfg.iface_id@);
            } else if j == k {
                assert(list[i].iface_id@ != cfg.iface_id@);
            }
        }
    } else {
        assert forall|i: int, j: int| 0 <= i < r.len() && 0 <= j < r.len() && i != j
            implies (#[trigger] r[i]).iface_id@ != (#[trigger] r[j]).iface_id@ by {
            if i < list.len() && j < list.len() {
                assert(r[i] == list[i] && r[j] == list[j]);
            } else if i < list.len() {
                assert(r[i] == list[i]);
            } else {
                assert(r[j] == list[j]);
            }
        }
        assert forall|i: int, j: int| 0 <= i < r.len() && 0 <= j < r.len() && i != j
            implies (#[trigger] r[i]).host_dev_name@ != (#[trigger] r[j]).host_dev_name@ by {
            if i < list.len() && j < list.len() {
                assert(r[i] == list[i] && r[j] == list[j]);
            } else if i < list.len() {
                assert(r[i] == list[i]);
            } else {
                assert(r[j] == list[j]);
            }
        }
        assert forall|i: int, j: int| 0 <= i < r.len() && 0 <= j < r.len() && i != j
            && (#[trigger] r[i]).guest_mac is Some implies !same_mac(r[i].guest_mac, (#[trigger] r[j]).guest_mac) by {
            if i < list.len() && j < list.len() {
                assert(r[i] == list[i] && r[j] == list[j]);
            } else if i < list.len() {
                assert(r[i] == list[i]);
            } else {
                assert(r[j] == list[j]);
            }
        }
    }
}

/// The configured network interfaces; see `ifaces_valid` for the invariants.
pub struct NetworkInterfaceConfigs {
    if_list: Vec<NetworkInterfaceConfig>,
}

impl NetworkInterfaceConfigs {
    /// The interfaces, in insertion order.
    pub closed spec fn list(&self) -> Seq<NetworkInterfaceConfig> {
        self.if_list@
    }

    /// The invariants hold.
    pub open spec fn wf(&self) -> bool {
        ifaces_valid(self.list())
    }

    /// No interface.
    pub fn new() -> (r: NetworkInterfaceConfigs)
        ensures
            r.wf(),
            r.list() == Seq::<NetworkInterfaceConfig>::empty(),
    {
        NetworkInterfaceConfigs { if_list: Vec::new() }
    }

    /// The interfaces, in insertion order.
    pub fn if_list(&self) -> (r: &Vec<NetworkInterfaceConfig>)
        ensures
            r@ == self.list(),
    {
        &self.if_list
    }

    /// The index of the interface with id `iface_id`, if any.
    pub fn index_of(&self, iface_id: &String) -> (r: Option<usize>)
        requires
            self.wf(),
        ensures
            r is Some <==> has_iface(self.list(), iface_id@),
            r is Some ==> r->0 == index_of_iface(self.list(), iface_id@),
            r is Some ==> r->0 < self.list().len(),
    {
        let n = self.if_list.len();
        let mut i: usize = 0;
        while i < n
            invariant
                self.wf(),
                n == self.if_list@.len(),
                i <= n,
                forall|j: int| 0 <= j < i ==> (#[trigger] self.if_list@[j]).iface_id@ != iface_id@,
            decreases n - i,
        {
            if self.if_list[i].iface_id == *iface_id {
                assert(has_iface(self.list(), iface_id@));
                let ghost k = index_of_iface(self.list(), iface_id@);
                assert(self.list()[k].iface_id@ == iface_id@);
                assert(self.list()[i as int].iface_id@ == iface_id@);
                return Some(i);
            }
            i = i + 1;
        }
        None
    }

    /// Accepts `cfg`: an interface with the same id is replaced, a new one is added. A
    /// guest MAC address or a host device that another interface has is refused and
    /// leaves the set unchanged.
    pub fn insert(&mut self, cfg: NetworkInterfaceConfig) -> (r: Result<(), NetworkInterfaceError>)
        requires
            old(self).wf(),
        ensures
            final(self).wf(),
            r is Ok <==> !mac_conflict(old(self).list(), cfg) && !host_conflict(old(self).list(), cfg),
            r is Ok ==> final(self).list() == iface_inserted(old(self).list(), cfg),
            r is Err ==> final(self).list() == old(self).list(),
            mac_conflict(old(self).list(), cfg) ==> r is Err && r->Err_0 is GuestMacAddressInUse
                && r->Err_0->GuestMacAddressInUse_0@ == mac_text(cfg.guest_mac->0),
            !mac_conflict(old(self).list(), cfg) && host_conflict(old(self).list(), cfg)
                ==> r is Err && r->Err_0 is HostDeviceNameInUse
                    && r->Err_0->HostDeviceNameInUse_0@ == cfg.host_dev_name@,
    {
        let n = self.if_list.len();
        if let Some(mac) = cfg.guest_mac {
            let mut i: usize = 0;
            while i < n
                invariant
                    self.wf(),
                    *self == *old(self),
                    cfg.guest_mac == Some(mac),
                    n == self.if_list@.len(),
                    i <= n,
                    forall|j: int| 0 <= j < i ==> !(same_mac((#[trigger] self.if_list@[j]).guest_mac, cfg.guest_mac)
                        && self.if_list@[j].iface_id@ != cfg.iface_id@),
                decreases n - i,
            {
                let same_mac = match self.if_list[i].guest_mac {
                    Some(m) => m.same_as(&mac),
                    None => false,
                };
                if same_mac && !(self.if_list[i].iface_id == cfg.iface_id) {
                    assert(mac_conflict(self.list(), cfg));
                    return Err(NetworkInterfaceError::GuestMacAddressInUse(mac.as_string()));
                }
                i = i + 1;
            }
        }
        assert(!mac_conflict(self.list(), cfg));
        let mut i: usize = 0;
        while i < n
            invariant
                self.wf(),
                *self == *old(self),
                !mac_conflict(self.list(), cfg),
                n == self.if_list@.len(),
                i <= n,
                forall|j: int| 0 <= j < i ==> !((#[trigger] self.if_list@[j]).host_dev_name@ == cfg.host_dev_name@
                    && self.if_list@[j].iface_id@ != cfg.iface_id@),
            decreases n - i,
        {
            if self.if_list[i].host_dev_name == cfg.host_dev_name
                && !(self.if_list[i].iface_id == cfg.iface_id) {
                assert(host_conflict(self.list(), cfg));
                return Err(NetworkInterfaceError::HostDeviceNameInUse(cfg.host_dev_name.clone()));
            }
            i = i + 1;
        }
        proof {
            lemma_iface_insert_keeps_valid(self.list(), cfg);
        }
        match self.index_of(&cfg.iface_id) {
            Some(k) => {
                self.if_list.set(k, cfg);
            },
            None => {
                self.if_list.push(cfg);
            },
        }
        assert(self.list() =~= iface_inserted(old(self).list(), cfg));
        Ok(())
    }

    /// Applies a rate limiter update to a configured interface: each requested
    /// limiter is merged into the current one, bucket by bucket.
    pub fn update_rate_limiters(&mut self, upd: &NetworkInterfaceUpdateConfig) -> (r: Result<(), NetworkInterfaceError>)
        requires
            old(self).wf(),
        ensures
            final(self).wf(),
            r is Ok <==> has_iface(old(self).list(), upd.iface_id@),
            r is Err ==> r->Err_0 == NetworkInterfaceError::DeviceIdNotFound,
            r is Err ==> final(self).list() == old(self).list(),
            r is Ok ==> ({
                let k = index_of_iface(old(self).list(), upd.iface_id@);
                let o = old(self).list()[k];
                &&& final(self).list() == old(self).list().update(k, NetworkInterfaceConfig {
                    rx_rate_limiter: limiter_after(o.rx_rate_limiter, upd.rx_rate_limiter),
                    tx_rate_limiter: limiter_after(o.tx_rate_limiter, upd.tx_rate_limiter),
                    ..o
                })
            }),
    {
        let found = self.index_of(&upd.iface_id);
        match found {
            None => Err(NetworkInterfaceError::DeviceIdNotFound),
            Some(k) => {
                let mut c = self.if_list.remove(k);
                update_limiter(&mut c.rx_rate_limiter, &upd.rx_rate_limiter);
                update_limiter(&mut c.tx_rate_limiter, &upd.tx_rate_limiter);
                self.if_list.insert(k, c);
                proof {
                    let l = self.list();
                    let o = old(self).list();
                    assert(l =~= o.update(k as int, l[k as int]));
                    assert forall|i: int, j: int| 0 <= i < l.len() && 0 <= j < l.len() && i != j
                        implies (#[trigger] l[i]).iface_id@ != (#[trigger] l[j]).iface_id@ by {
                        assert(o[i].iface_id@ != o[j].iface_id@);
                    }
                    assert forall|i: int, j: int| 0 <= i < l.len() && 0 <= j < l.len() && i != j
                        implies (#[trigger] l[i]).host_dev_name@ != (#[trigger] l[j]).host_dev_name@ by {
                        assert(o[i].host_dev_name@ != o[j].host_dev_name@);
                    }
                    assert forall|i: int, j: int| 0 <= i < l.len() && 0 <= j < l.len() && i != j
                        && (#[trigger] l[i]).guest_mac is Some implies !same_mac(l[i].guest_mac, (#[trigger] l[j]).guest_mac) by {
                        assert(o[i].guest_mac == l[i].guest_mac);
                        assert(o[j].guest_mac == l[j].guest_mac);
                    }
                }
                Ok(())
            },
        }
    }
}

} // verus!
