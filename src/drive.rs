//! Block device configuration and the set of configured drives.

use vstd::prelude::*;
use crate::error::DriveError;
use crate::rate_limiter::RateLimiterConfig;

verus! {

/// Configuration of one block device.
#[derive(Clone, Debug, PartialEq, Eq)]
pub struct BlockDeviceConfig {
    /// Unique id of the drive.
    pub drive_id: String,
    /// Host file backing the drive.
    pub path_on_host: String,
    /// Whether the guest mounts this drive as its root file system.
    pub is_root_device: bool,
    /// Partition UUID of the root partition, when the root is not the whole device.
    pub partuuid: Option<String>,
    /// Whether the guest sees the drive read-only.
    pub is_read_only: bool,
    /// Rate limiter of the drive.
    pub rate_limiter: Option<RateLimiterConfig>,
}

impl BlockDeviceConfig {
    /// The id of the drive.
    pub fn drive_id(&self) -> (r: &String)
        ensures
            r == &self.drive_id,
    {
        &self.drive_id
    }

    /// The host file backing the drive.
    pub fn path_on_host(&self) -> (r: &String)
        ensures
            r == &self.path_on_host,
    {
        &self.path_on_host
    }

    /// Whether the drive is read-only.
    pub fn is_read_only(&self) -> (r: bool)
        ensures
            r == self.is_read_only,
    {
        self.is_read_only
    }

    /// The partition UUID of the root partition, if any.
    pub fn get_partuuid(&self) -> (r: Option<&String>)
        ensures
            r is Some <==> self.partuuid is Some,
            r is Some ==> *r->0 == self.partuuid->0,
    {
        match &self.partuuid {
            Some(p) => Some(p),
            None => None,
        }
    }
}

/// Some drive of `list` has the id `id`.
pub open spec fn has_id(list: Seq<BlockDeviceConfig>, id: Seq<char>) -> bool {
    exists|k: int| 0 <= k < list.len() && (#[trigger] list[k]).drive_id@ == id
}

/// The index of the drive with id `id` in `list`.
pub open spec fn index_of_id(list: Seq<BlockDeviceConfig>, id: Seq<char>) -> int {
    choose|k: int| 0 <= k < list.len() && (#[trigger] list[k]).drive_id@ == id
}

/// Another drive than `cfg.drive_id` already uses the backing file of `cfg`.
pub open spec fn path_conflict(list: Seq<BlockDeviceConfig>, cfg: BlockDeviceConfig) -> bool {
    exists|j: int|
        0 <= j < list.len() && (#[trigger] list[j]).path_on_host@ == cfg.path_on_host@
            && list[j].drive_id@ != cfg.drive_id@
}

/// `cfg` is a root device and another drive already is one.
pub open spec fn root_conflict(list: Seq<BlockDeviceConfig>, cfg: BlockDeviceConfig) -> bool {
    cfg.is_root_device && exists|j: int|
        0 <= j < list.len() && (#[trigger] list[j]).is_root_device && list[j].drive_id@ != cfg.drive_id@
}

/// The drive list after `cfg` is accepted: a drive with the same id is replaced in
/// place, or moved to the front when it becomes the root; a new drive goes to the
/// front when it is the root and to the back otherwise.
pub open spec fn inserted(list: Seq<BlockDeviceConfig>, cfg: BlockDeviceConfig) -> Seq<BlockDeviceConfig> {
    if has_id(list, cfg.drive_id@) {
        let k = index_of_id(list, cfg.drive_id@);
        if cfg.is_root_device && k != 0 {
            seq![cfg] + list.remove(k)
        } else {
            list.update(k, cfg)
        }
    } else if cfg.is_root_device {
        seq![cfg] + list
    } else {
        list.push(cfg)
    }
}

/// The outcome of inserting `cfg` into `list`.
pub open spec fn insert_result(list: Seq<BlockDeviceConfig>, cfg: BlockDeviceConfig) -> Result<Seq<BlockDeviceConfig>, DriveError> {
    if path_conflict(list, cfg) {
        Err(DriveError::BlockDevicePathAlreadyExists)
    } else if root_conflict(list, cfg) {
        Err(DriveError::RootBlockDeviceAlreadyAdded)
    } else {
        Ok(inserted(list, cfg))
    }
}

/// The invariants of a drive set: ids distinct, backing files distinct, at most one
/// root device, and the root device first.
pub open spec fn drives_valid(list: Seq<BlockDeviceConfig>) -> bool {
    &&& forall|i: int, j: int| 0 <= i < list.len() && 0 <= j < list.len() && i != j
        ==> (#[trigger] list[i]).drive_id@ != (#[trigger] list[j]).drive_id@
    &&& forall|i: int, j: int| 0 <= i < list.len() && 0 <= j < list.len() && i != j
        ==> (#[trigger] list[i]).path_on_host@ != (#[trigger] list[j]).path_on_host@
    &&& forall|i: int| 0 <= i < list.len() && (#[trigger] list[i]).is_root_device ==> i == 0
}

/// Inserting into a valid drive set keeps it valid: distinct ids, distinct backing
/// files, at most one root device, placed first.
pub proof fn lemma_insert_keeps_valid(list: Seq<BlockDeviceConfig>, cfg: BlockDeviceConfig)
    requires
        drives_valid(list),
        insert_result(list, cfg) is Ok,
    ensures
        drives_valid(insert_result(list, cfg)->Ok_0),
        has_id(insert_result(list, cfg)->Ok_0, cfg.drive_id@),
{
    let r = inserted(list, cfg);
    if has_id(list, cfg.drive_id@) {
        let k = index_of_id(list, cfg.drive_id@);
        if cfg.is_root_device && k != 0 {
            let rest = list.remove(k);
            assert forall|i: int| 0 <= i < rest.len() implies #[trigger] rest[i] == list[if i < k { i } else { i + 1 }] by {}
            assert(r[0] == cfg);
            assert forall|i: int| 1 <= i < r.len() implies #[trigger] r[i] == rest[i - 1] by {}
            assert forall|i: int, j: int| 0 <= i < r.len() && 0 <= j < r.len() && i != j
                implies (#[trigger] r[i]).drive_id@ != (#[trigger] r[j]).drive_id@ by {
                if i == 0 {
                    let jj = if j - 1 < k { j - 1 } else { j };
                    assert(r[j] == list[jj]);
                } else if j == 0 {
                    let ii = if i - 1 < k { i - 1 } else { i };
                    assert(r[i] == list[ii]);
                } else {
                    let ii = if i - 1 < k { i - 1 } else { i };
                    let jj = if j - 1 < k { j - 1 } else { j };
                    assert(r[i] == list[ii]);
                    assert(r[j] == list[jj]);
                }
            }
            assert forall|i: int, j: int| 0 <= i < r.len() && 0 <= j < r.len() && i != j
                implies (#[trigger] r[i]).path_on_host@ != (#[trigger] r[j]).path_on_host@ by {
                if i == 0 {
                    let jj = if j - 1 < k { j - 1 } else { j };
                    assert(r[j] == list[jj]);
                    assert(list[jj].drive_id@ != cfg.drive_id@);
                } else if j == 0 {
                    let ii = if i - 1 < k { i - 1 } else { i };
                    assert(r[i] == list[ii]);
                    assert(list[ii].drive_id@ != cfg.drive_id@);
                } else {
                    let ii = if i - 1 < k { i - 1 } else { i };
                    let jj = if j - 1 < k { j - 1 } else { j };
                    assert(r[i] == list[ii]);
                    assert(r[j] == list[jj]);
                }
            }
            assert forall|i: int| 0 <= i < r.len() && (#[trigger] r[i]).is_root_device implies i == 0 by {
                if i > 0 {
                    let ii = if i - 1 < k { i - 1 } else { i };
                    assert(r[i] == list[ii]);
                    assert(list[ii].drive_id@ != cfg.drive_id@);
                }
            }
            assert(r[0].drive_id@ == cfg.drive_id@);
        } else {
            assert forall|i: int, j: int| 0 <= i < r.len() && 0 <= j < r.len() && i != j
                implies (#[trigger] r[i]).drive_id@ != (#[trigger] r[j]).drive_id@ by {
                if i == k {
                    assert(list[j].drive_id@ != list[k].drive_id@);
                } else if j == k {
                    assert(list[i].drive_id@ != list[k].drive_id@);
                }
            }
            assert forall|i: int, j: int| 0 <= i < r.len() && 0 <= j < r.len() && i != j
                implies (#[trigger] r[i]).path_on_host@ != (#[trigger] r[j]).path_on_host@ by {
                if i == k {
                    assert(list[j].drive_id@ != cfg.drive_id@);
                } else if j == k {
                    assert(list[i].drive_id@ != cfg.drive_id@);
                }
            }
            assert forall|i: int| 0 <= i < r.len() && (#[trigger] r[i]).is_root_device implies i == 0 by {
                if i != k {
                    assert(list[i].drive_id@ != cfg.drive_id@);
                }
            }
            assert(r[k].drive_id@ == cfg.drive_id@);
        }
    } else if cfg.is_root_device {
        assert forall|i: int| 1 <= i < r.len() implies #[trigger] r[i] == list[i - 1] by {}
        assert forall|i: int, j: int| 0 <= i < r.len() && 0 <= j < r.len() && i != j
            implies (#[trigger] r[i]).drive_id@ != (#[trigger] r[j]).drive_id@ by {
            if i == 0 {
                assert(r[j] == list[j - 1]);
            } else if j == 0 {
                assert(r[i] == list[i - 1]);
            } else {
                assert(r[i] == list[i - 1]);
                assert(r[j] == list[j - 1]);
            }
        }
        assert forall|i: int, j: int| 0 <= i < r.len() && 0 <= j < r.len() && i != j
            implies (#[trigger] r[i]).path_on_host@ != (#[trigger] r[j]).path_on_host@ by {
            if i == 0 {
                assert(r[j] == list[j - 1]);
            } else if j == 0 {
                assert(r[i] == list[i - 1]);
            } else {
                assert(r[i] == list[i - 1]);
                assert(r[j] == list[j - 1]);
            }
        }
        assert forall|i: int| 0 <= i < r.len() && (#[trigger] r[i]).is_root_device implies i == 0 by {
            if i > 0 {
                assert(r[i] == list[i - 1]);
            }
        }
        assert(r[0].drive_id@ == cfg.drive_id@);
    } else {
        assert forall|i: int, j: int| 0 <= i < r.len() && 0 <= j < r.len() && i != j
            implies (#[trigger] r[i]).drive_id@ != (#[trigger] r[j]).drive_id@ by {
            if i < list.len() && j < list.len() {
                assert(r[i] == list[i]);
                assert(r[j] == list[j]);
            } else if i < list.len() {
                assert(r[i] == list[i]);
            } else {
                assert(r[j] == list[j]);
            }
        }
        assert forall|i: int, j: int| 0 <= i < r.len() && 0 <= j < r.len() && i != j
            implies (#[trigger] r[i]).path_on_host@ != (#[trigger] r[j]).path_on_host@ by {
            if i < list.len() && j < list.len() {
                assert(r[i] == list[i]);
                assert(r[j] == list[j]);
            } else if i < list.len() {
                assert(r[i] == list[i]);
            } else {
                assert(r[j] == list[j]);
            }
        }
        assert forall|i: int| 0 <= i < r.len() && (#[trigger] r[i]).is_root_device implies i == 0 by {
            if i < list.len() {
                assert(r[i] == list[i]);
            }
        }
        assert(r[list.len() as int].drive_id@ == cfg.drive_id@);
    }
}

/// A second insertion with the same drive id replaces the entry: the drive count stays
/// the same and the only entry with that id is the new configuration.
pub proof fn lemma_insert_same_id_replaces(
    list: Seq<BlockDeviceConfig>,
    first: BlockDeviceConfig,
    second: BlockDeviceConfig,
)
    requires
        drives_valid(list),
        insert_result(list, first) is Ok,
        second.drive_id@ == first.drive_id@,
        insert_result(insert_result(list, first)->Ok_0, second) is Ok,
    ensures
        ({
            let once = insert_result(list, first)->Ok_0;
            let twice = insert_result(once, second)->Ok_0;
            &&& twice.len() == once.len()
            &&& forall|j: int| 0 <= j < twice.len() ==>
                ((#[trigger] twice[j]).drive_id@ == second.drive_id@ <==> twice[j] == second)
        }),
{
    lemma_insert_keeps_valid(list, first);
    let once = insert_result(list, first)->Ok_0;
    lemma_insert_keeps_valid(once, second);
    let twice = inserted(once, second);
    let k = index_of_id(once, second.drive_id@);
    if second.is_root_device && k != 0 {
        assert(twice[0] == second);
        assert forall|j: int| 0 <= j < twice.len() implies
            ((#[trigger] twice[j]).drive_id@ == second.drive_id@ <==> twice[j] == second) by {
            if j > 0 {
                let jj = if j - 1 < k { j - 1 } else { j };
                assert(twice[j] == once[jj]);
                assert(once[jj].drive_id@ != once[k].drive_id@);
            }
        }
    } else {
        assert forall|j: int| 0 <= j < twice.len() implies
            ((#[trigger] twice[j]).drive_id@ == second.drive_id@ <==> twice[j] == second) by {
            if j != k {
                assert(once[j].drive_id@ != once[k].drive_id@);
            }
        }
    }
}

/// The configured drives; see `drives_valid` for the invariants.
pub struct BlockDeviceConfigs {
    config_list: Vec<BlockDeviceConfig>,
}

impl BlockDeviceConfigs {
    /// The drives, root device first.
    pub closed spec fn list(&self) -> Seq<BlockDeviceConfig> {
        self.config_list@
    }

    /// The invariants hold.
    pub open spec fn wf(&self) -> bool {
        drives_valid(self.list())
    }

    /// No drive.
    pub fn new() -> (r: BlockDeviceConfigs)
        ensures
            r.wf(),
            r.list() == Seq::<BlockDeviceConfig>::empty(),
    {
        BlockDeviceConfigs { config_list: Vec::new() }
    }

    /// The drives, root device first.
    pub fn config_list(&self) -> (r: &Vec<BlockDeviceConfig>)
        ensures
            r@ == self.list(),
    {
        &self.config_list
    }

    /// The index of the drive with id `drive_id`, if any.
    pub fn get_index_of_drive_id(&self, drive_id: &String) -> (r: Option<usize>)
        requires
            self.wf(),
        ensures
            r is Some <==> has_id(self.list(), drive_id@),
            r is Some ==> r->0 == index_of_id(self.list(), drive_id@),
            r is Some ==> r->0 < self.list().len(),
    {
        let n = self.config_list.len();
        let mut i: usize = 0;
        while i < n
            invariant
                self.wf(),
                n == self.config_list@.len(),
                i <= n,
                forall|j: int| 0 <= j < i ==> (#[trigger] self.config_list@[j]).drive_id@ != drive_id@,
            decreases n - i,
        {
            if self.config_list[i].drive_id == *drive_id {
                assert(has_id(self.list(), drive_id@));
                let ghost k = index_of_id(self.list(), drive_id@);
                assert(self.list()[k].drive_id@ == drive_id@);
                assert(self.list()[i as int].drive_id@ == drive_id@);
                assert(k == i as int);
                return Some(i);
            }
            i = i + 1;
        }
        None
    }

    /// A root device is configured.
    pub fn has_root_block_device(&self) -> (r: bool)
        requires
            self.wf(),
        ensures
            r <==> exists|i: int| 0 <= i < self.list().len() && (#[trigger] self.list()[i]).is_root_device,
            r ==> self.list()[0].is_root_device,
    {
        self.config_list.len() > 0 && self.config_list[0].is_root_device
    }

    /// Accepts `cfg`: a drive with the same id is replaced, a new one is added. A
    /// backing file that another drive uses, or a second root device, is refused and
    /// leaves the set unchanged.
    pub fn insert(&mut self, cfg: BlockDeviceConfig) -> (r: Result<(), DriveError>)
        requires
            old(self).wf(),
        ensures
            final(self).wf(),
            r is Ok <==> insert_result(old(self).list(), cfg) is Ok,
            r is Ok ==> insert_result(old(self).list(), cfg) == Ok::<Seq<BlockDeviceConfig>, DriveError>(final(self).list()),
            r is Err ==> insert_result(old(self).list(), cfg) == Err::<Seq<BlockDeviceConfig>, DriveError>(r->Err_0),
            r is Err ==> final(self).list() == old(self).list(),
    {
        let n = self.config_list.len();
        let mut i: usize = 0;
        while i < n
            invariant
                self.wf(),
                *self == *old(self),
                n == self.config_list@.len(),
                i <= n,
                forall|j: int| 0 <= j < i ==> !((#[trigger] self.config_list@[j]).path_on_host@ == cfg.path_on_host@
                    && self.config_list@[j].drive_id@ != cfg.drive_id@),
            decreases n - i,
        {
            if self.config_list[i].path_on_host == cfg.path_on_host
                && !(self.config_list[i].drive_id == cfg.drive_id) {
                assert(path_conflict(self.list(), cfg));
                return Err(DriveError::BlockDevicePathAlreadyExists);
            }
            i = i + 1;
        }
        assert(!path_conflict(self.list(), cfg));
        if cfg.is_root_device {
            let mut i: usize = 0;
            while i < n
                invariant
                    self.wf(),
                    *self == *old(self),
                    cfg.is_root_device,
                    !path_conflict(self.list(), cfg),
                    n == self.config_list@.len(),
                    i <= n,
                    forall|j: int| 0 <= j < i ==> !((#[trigger] self.config_list@[j]).is_root_device
                        && self.config_list@[j].drive_id@ != cfg.drive_id@),
                decreases n - i,
            {
                if self.config_list[i].is_root_device && !(self.config_list[i].drive_id == cfg.drive_id) {
                    assert(root_conflict(self.list(), cfg));
                    return Err(DriveError::RootBlockDeviceAlreadyAdded);
                }
                i = i + 1;
            }
        }
        proof {
            lemma_insert_keeps_valid(self.list(), cfg);
        }
        let found = self.get_index_of_drive_id(&cfg.drive_id);
        match found {
            Some(k) => {
                if cfg.is_root_device && k != 0 {
                    self.config_list.remove(k);
                    self.config_list.insert(0, cfg);
                } else {
                    self.config_list.set(k, cfg);
                }
            },
            None => {
                if cfg.is_root_device {
                    self.config_list.insert(0, cfg);
                } else {
                    self.config_list.push(cfg);
                }
            },
        }
        proof {
            assert(self.list() =~= inserted(old(self).list(), cfg));
        }
        Ok(())
    }

    /// Sets the backing file of the drive at `index`.
    pub fn set_path_on_host(&mut self, index: usize, path: String)
        requires
            old(self).wf(),
            index < old(self).list().len(),
            forall|j: int| 0 <= j < old(self).list().len() && j != index
                ==> (#[trigger] old(self).list()[j]).path_on_host@ != path@,
        ensures
            final(self).wf(),
            final(self).list().len() == old(self).list().len(),
            final(self).list()[index as int].path_on_host@ == path@,
            forall|j: int| 0 <= j < old(self).list().len() && j != index
                ==> #[trigger] final(self).list()[j] == old(self).list()[j],
            ({
                let o = old(self).list()[index as int];
                let f = final(self).list()[index as int];
                &&& f.drive_id == o.drive_id
                &&& f.is_root_device == o.is_root_device
                &&& f.is_read_only == o.is_read_only
                &&& f.partuuid == o.partuuid
                &&& f.rate_limiter == o.rate_limiter
            }),
    {
        let old_cfg = self.config_list.remove(index);
        let new_cfg = BlockDeviceConfig {
            drive_id: old_cfg.drive_id,
            path_on_host: path,
            is_root_device: old_cfg.is_root_device,
            partuuid: old_cfg.partuuid,
            is_read_only: old_cfg.is_read_only,
            rate_limiter: old_cfg.rate_limiter,
        };
        self.config_list.insert(index, new_cfg);
        proof {
            let l = self.list();
            let o = old(self).list();
            assert forall|j: int| 0 <= j < o.len() && j != index implies #[trigger] l[j] == o[j] by {}
            assert forall|i: int, j: int| 0 <= i < l.len() && 0 <= j < l.len() && i != j
                implies (#[trigger] l[i]).drive_id@ != (#[trigger] l[j]).drive_id@ by {
                assert(o[i].drive_id@ != o[j].drive_id@);
            }
            assert forall|i: int, j: int| 0 <= i < l.len() && 0 <= j < l.len() && i != j
                implies (#[trigger] l[i]).path_on_host@ != (#[trigger] l[j]).path_on_host@ by {
                if i != index && j != index {
                    assert(o[i].path_on_host@ != o[j].path_on_host@);
                }
            }
            assert forall|i: int| 0 <= i < l.len() && (#[trigger] l[i]).is_root_device implies i == 0 by {
                assert(o[i].is_root_device);
            }
        }
    }
}

} // verus!
