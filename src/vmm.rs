//! The VMM's control state and its request controller. Before boot the controller
//! accepts configuration actions and applies them to the resource store; after boot it
//! accepts a disjoint set of runtime actions. Actions that need the host (KVM, files,
//! the logger) are answered with a `HostTask`; the host performs it and reports back
//! through the `finish_*` and `complete_*` methods.

use vstd::prelude::*;
use crate::boot::{
    append_all, append_root_fragments, attach_block_devices, attach_ids, drive_ids, ends_with, id_entries, id_frags,
    root_frags, root_target, root_valid, rw_flag,
};
use crate::cmdline::{valid_text, Cmdline, CMDLINE_MAX_SIZE, CMDLINE_START, DEFAULT_KERNEL_CMDLINE};
use crate::drive::{has_id, index_of_id, insert_result, BlockDeviceConfig, BlockDeviceConfigs};
use crate::error::{
    BootSourceConfigError, DriveError, ErrorKind, NetworkInterfaceError, PauseMicrovmError, ResumeMicrovmError,
    StartMicrovmError, StateError, VmConfigError, VmmActionError, VsockError, drive_error_kind, start_error_kind,
};
use crate::machine_config::VmConfig;
use crate::memory::{guest_memory_layout, MemoryRegion};
use crate::mmio::{
    build_config_space, block_config_space, copy_entries, has_device, index_of_device, MmioDeviceEntry, MmioDeviceManager,
    IRQ_BASE, IRQ_MAX, MMIO_LEN, MMIO_MEM_START, TYPE_BLOCK, TYPE_NET, TYPE_VSOCK,
};
use crate::rate_limiter::limiter_after;
use crate::net::{index_of_iface, has_iface, mac_conflict, host_conflict, iface_inserted, NetworkInterfaceConfig, NetworkInterfaceConfigs, NetworkInterfaceUpdateConfig};

verus! {

/// Lifecycle state of the microVM.
#[derive(Clone, Copy, Debug, PartialEq, Eq, Structural)]
pub enum InstanceState {
    /// Not started; configuration is accepted.
    Uninitialized,
    /// The boot sequence runs.
    Starting,
    /// The guest runs.
    Running,
    /// The microVM is being restored from a snapshot.
    Resuming,
    /// The microVM is shutting down.
    Halting,
    /// The microVM stopped.
    Halted,
}

/// Information about the instance shared with the API front end.
#[derive(Clone, Debug, PartialEq, Eq)]
pub struct InstanceInfo {
    /// Id of the instance.
    pub id: String,
    /// Lifecycle state.
    pub state: InstanceState,
    /// Version of the VMM.
    pub vmm_version: String,
}

/// Where the guest kernel comes from and how it boots.
#[derive(Clone, Debug, PartialEq, Eq)]
pub struct BootSourceConfig {
    /// Host path of the kernel image.
    pub kernel_image_path: String,
    /// Kernel command line; the default one when absent.
    pub boot_args: Option<String>,
}

/// Log levels of the logger.
#[derive(Clone, Copy, Debug, PartialEq, Eq, Structural)]
pub enum LoggerLevel {
    /// Errors only.
    Error,
    /// Warnings and errors.
    Warning,
    /// Informational messages and above.
    Info,
    /// Everything.
    Debug,
}

/// Logger configuration.
#[derive(Clone, Debug, PartialEq, Eq)]
pub struct LoggerConfig {
    /// Path of the log pipe.
    pub log_fifo: String,
    /// Path of the metrics pipe.
    pub metrics_fifo: String,
    /// Log level.
    pub level: LoggerLevel,
    /// Whether messages carry their level.
    pub show_level: bool,
    /// Whether messages carry their origin.
    pub show_log_origin: bool,
}

/// Configuration of the vsock device.
#[derive(Clone, Debug, PartialEq, Eq)]
pub struct VsockDeviceConfig {
    /// Id of the device.
    pub vsock_id: String,
    /// Context id of the guest.
    pub guest_cid: u32,
    /// Host path of the Unix socket backing the device.
    pub uds_path: String,
}

/// The kernel image and its command line.
pub struct KernelConfig {
    /// Host path of the kernel image.
    pub kernel_image_path: String,
    /// The command line.
    pub cmdline: Cmdline,
    /// Guest-physical address at which the command line is staged.
    pub cmdline_addr: u64,
}

/// A control action.
#[derive(Clone, Debug, PartialEq, Eq)]
pub enum VmmAction {
    /// Set the kernel image and command line.
    ConfigureBootSource(BootSourceConfig),
    /// Configure the logger.
    ConfigureLogger(LoggerConfig),
    /// Configure the metrics sink at this path.
    ConfigureMetrics(String),
    /// Read the machine configuration.
    GetVmConfiguration,
    /// Write the metrics now.
    FlushMetrics,
    /// Add or replace a block device.
    InsertBlockDevice(BlockDeviceConfig),
    /// Add or replace a network interface.
    InsertNetworkDevice(NetworkInterfaceConfig),
    /// Set the vsock device.
    SetVsockDevice(VsockDeviceConfig),
    /// Change the machine configuration.
    SetVmConfiguration(VmConfig),
    /// Boot the microVM, with a snapshot file at this path when given.
    StartMicroVm(Option<String>),
    /// Pause the microVM and write its snapshot.
    PauseToSnapshot,
    /// Restore a microVM from the snapshot at this path.
    ResumeFromSnapshot(String),
    /// Pause the vCPUs.
    PauseVCPUs,
    /// Resume the vCPUs.
    ResumeVCPUs,
    /// Tell the guest that the backing file of this drive changed size.
    RescanBlockDevice(String),
    /// Switch the backing file of a drive: drive id, new host path.
    UpdateBlockDevicePath(String, String),
    /// Update the rate limiters of a network interface.
    UpdateNetworkInterface(NetworkInterfaceUpdateConfig),
    /// Send CTRL+ALT+DEL to the guest.
    SendCtrlAltDel,
}

/// Data returned by a successful action.
#[derive(Clone, Copy, Debug, PartialEq, Eq, Structural)]
pub enum VmmData {
    /// Nothing.
    Empty,
    /// The machine configuration.
    MachineConfiguration(VmConfig),
}

/// What the host needs to boot the microVM.
pub struct BootPlan {
    /// Snapshot file to create, if any.
    pub snapshot_path: Option<String>,
    /// The machine configuration.
    pub vm_config: VmConfig,
    /// Guest RAM regions, with file offsets from the start of the memory part.
    pub memory: Vec<MemoryRegion>,
    /// Host path of the kernel image.
    pub kernel_image_path: String,
    /// The final kernel command line.
    pub cmdline: String,
    /// Guest-physical address at which the command line is staged.
    pub cmdline_addr: u64,
    /// The virtio devices with their windows and lines, in attach order.
    pub devices: Vec<MmioDeviceEntry>,
}

/// Outside work that an action needs.
pub enum HostTask {
    /// Initialize the logger.
    InitLogger(LoggerConfig),
    /// Initialize the metrics sink at this path.
    InitMetrics(String),
    /// Write the metrics.
    FlushMetrics,
    /// Run the boot sequence, then call `finish_boot`.
    Boot(BootPlan),
    /// Pause the vCPUs to snapshot and write the image.
    PauseToSnapshot,
    /// Open the snapshot, call `begin_resume` with its header, restore, then call
    /// `finish_resume`.
    ResumeFromSnapshot(String),
    /// Press CTRL+ALT+DEL on the guest keyboard.
    SendCtrlAltDel,
    /// Open `path` (writable unless `read_only`), hand it to the block device in the
    /// window at `addr`, measure it, then call `complete_drive_update`.
    SwapDriveFile { drive_id: String, path: String, read_only: bool, addr: u64 },
    /// Measure the backing file at `path`, then call `complete_drive_update`.
    RescanDrive { drive_id: String, path: String, addr: u64 },
    /// Patch the rate limiters of the live net device.
    PatchNetRateLimiters(NetworkInterfaceUpdateConfig),
}

/// The controller's answer to an action.
pub enum ActionStep {
    /// The outcome of the action.
    Respond(Result<VmmData, VmmActionError>),
    /// Outside work, after which the action completes.
    Host(HostTask),
}

/// The write that makes a block device see its new size: the configuration space to
/// store in the device window at `addr`, followed by a config-change interrupt.
#[derive(Clone, Debug, PartialEq, Eq)]
pub struct DriveConfigUpdate {
    /// Window of the device.
    pub addr: u64,
    /// New virtio block configuration space.
    pub config_space: Vec<u8>,
}

/// The actions accepted before boot. Restoring from a snapshot is one of them: it
/// needs a fresh VMM.
pub open spec fn preboot_allowed(a: VmmAction) -> bool {
    match a {
        VmmAction::ConfigureBootSource(_) => true,
        VmmAction::ConfigureLogger(_) => true,
        VmmAction::ConfigureMetrics(_) => true,
        VmmAction::GetVmConfiguration => true,
        VmmAction::InsertBlockDevice(_) => true,
        VmmAction::InsertNetworkDevice(_) => true,
        VmmAction::SetVsockDevice(_) => true,
        VmmAction::SetVmConfiguration(_) => true,
        VmmAction::StartMicroVm(_) => true,
        VmmAction::ResumeFromSnapshot(_) => true,
        _ => false,
    }
}

/// The actions accepted after boot.
pub open spec fn runtime_allowed(a: VmmAction) -> bool {
    match a {
        VmmAction::FlushMetrics => true,
        VmmAction::GetVmConfiguration => true,
        VmmAction::UpdateBlockDevicePath(_, _) => true,
        VmmAction::UpdateNetworkInterface(_) => true,
        VmmAction::SendCtrlAltDel => true,
        VmmAction::PauseToSnapshot => true,
        VmmAction::ResumeFromSnapshot(_) => true,
        VmmAction::RescanBlockDevice(_) => true,
        _ => false,
    }
}

fn preboot_accepts(a: &VmmAction) -> (r: bool)
    ensures
        r == preboot_allowed(*a),
{
    match a {
        VmmAction::ConfigureBootSource(_) => true,
        VmmAction::ConfigureLogger(_) => true,
        VmmAction::ConfigureMetrics(_) => true,
        VmmAction::GetVmConfiguration => true,
        VmmAction::InsertBlockDevice(_) => true,
        VmmAction::InsertNetworkDevice(_) => true,
        VmmAction::SetVsockDevice(_) => true,
        VmmAction::SetVmConfiguration(_) => true,
        VmmAction::StartMicroVm(_) => true,
        VmmAction::ResumeFromSnapshot(_) => true,
        _ => false,
    }
}

fn runtime_accepts(a: &VmmAction) -> (r: bool)
    ensures
        r == runtime_allowed(*a),
{
    match a {
        VmmAction::FlushMetrics => true,
        VmmAction::GetVmConfiguration => true,
        VmmAction::UpdateBlockDevicePath(_, _) => true,
        VmmAction::UpdateNetworkInterface(_) => true,
        VmmAction::SendCtrlAltDel => true,
        VmmAction::PauseToSnapshot => true,
        VmmAction::ResumeFromSnapshot(_) => true,
        VmmAction::RescanBlockDevice(_) => true,
        _ => false,
    }
}

/// The control state of the VMM: lifecycle state, resource store and, once booted, the
/// device table.
pub struct Vmm {
    state: InstanceState,
    vm_config: VmConfig,
    kernel_config: Option<KernelConfig>,
    block_device_configs: BlockDeviceConfigs,
    network_interface_configs: NetworkInterfaceConfigs,
    vsock_device_config: Option<VsockDeviceConfig>,
    mmio_device_manager: Option<MmioDeviceManager>,
    boot_cmdline: Option<Cmdline>,
}

impl Vmm {
    /// Lifecycle state.
    pub closed spec fn spec_state(&self) -> InstanceState {
        self.state
    }

    /// Machine configuration.
    pub closed spec fn spec_vm_config(&self) -> VmConfig {
        self.vm_config
    }

    /// Configured drives.
    pub closed spec fn drives(&self) -> Seq<BlockDeviceConfig> {
        self.block_device_configs.list()
    }

    /// Configured network interfaces.
    pub closed spec fn ifaces(&self) -> Seq<NetworkInterfaceConfig> {
        self.network_interface_configs.list()
    }

    /// Text of the kernel command line, if a boot source is set.
    pub closed spec fn spec_cmdline(&self) -> Option<Seq<char>> {
        match self.kernel_config {
            Some(k) => Some(k.cmdline.text()),
            None => None,
        }
    }

    /// The device table, once booted.
    pub closed spec fn spec_devices(&self) -> Option<Seq<MmioDeviceEntry>> {
        match self.mmio_device_manager {
            Some(m) => Some(m.table()),
            None => None,
        }
    }

    /// The invariants of the store hold.
    pub closed spec fn wf(&self) -> bool {
        &&& self.vm_config.valid()
        &&& self.block_device_configs.wf()
        &&& self.network_interface_configs.wf()
        &&& (self.kernel_config matches Some(k) ==> k.cmdline.wf() && k.cmdline.cap() == CMDLINE_MAX_SIZE)
        &&& (self.mmio_device_manager matches Some(m) ==> m.wf())
        &&& (self.boot_cmdline matches Some(c) ==> c.wf() && c.cap() == CMDLINE_MAX_SIZE)
        &&& (self.state == InstanceState::Starting ==> self.boot_cmdline is Some && self.kernel_config is Some)
    }

    /// The command line being booted with, between `prepare_boot` and `finish_boot`.
    pub closed spec fn spec_boot_cmdline(&self) -> Option<Seq<char>> {
        match self.boot_cmdline {
            Some(c) => Some(c.text()),
            None => None,
        }
    }

    /// The invariants of the store, for callers: the machine configuration is valid
    /// (at least one vCPU and one MiB, one or an even number of vCPUs with
    /// hyper-threading), the drives keep distinct ids and backing files with at most one
    /// root device placed first, and the interfaces keep distinct ids, host devices and
    /// guest MAC addresses.
    pub proof fn lemma_store_invariants(&self)
        requires
            self.wf(),
        ensures
            self.spec_vm_config().valid(),
            crate::drive::drives_valid(self.drives()),
            crate::net::ifaces_valid(self.ifaces()),
    {
    }

    /// A fresh VMM: not started, default machine configuration, nothing configured.
    pub fn new() -> (r: Vmm)
        ensures
            r.wf(),
            r.spec_state() == InstanceState::Uninitialized,
            r.spec_vm_config() == VmConfig::default_config_spec(),
            r.drives().len() == 0,
            r.ifaces().len() == 0,
            r.spec_cmdline() is None,
            r.spec_devices() is None,
    {
        Vmm {
            state: InstanceState::Uninitialized,
            vm_config: VmConfig::default_config(),
            kernel_config: None,
            block_device_configs: BlockDeviceConfigs::new(),
            network_interface_configs: NetworkInterfaceConfigs::new(),
            vsock_device_config: None,
            mmio_device_manager: None,
            boot_cmdline: None,
        }
    }

    /// Lifecycle state.
    pub fn instance_state(&self) -> (r: InstanceState)
        ensures
            r == self.spec_state(),
    {
        self.state
    }

    /// Whether the microVM was started (in any state but `Uninitialized`).
    pub fn is_instance_initialized(&self) -> (r: bool)
        ensures
            r == (self.spec_state() != InstanceState::Uninitialized),
    {
        match self.state {
            InstanceState::Uninitialized => false,
            _ => true,
        }
    }

    /// Whether the guest runs.
    pub fn is_instance_running(&self) -> (r: bool)
        ensures
            r == (self.spec_state() == InstanceState::Running),
    {
        match self.state {
            InstanceState::Running => true,
            _ => false,
        }
    }

    /// Machine configuration.
    pub fn vm_config(&self) -> (r: VmConfig)
        ensures
            r == self.spec_vm_config(),
    {
        self.vm_config
    }

    /// Configured drives.
    pub fn block_device_configs(&self) -> (r: &BlockDeviceConfigs)
        ensures
            r.list() == self.drives(),
    {
        &self.block_device_configs
    }

    /// Configured network interfaces.
    pub fn network_interface_configs(&self) -> (r: &NetworkInterfaceConfigs)
        ensures
            r.list() == self.ifaces(),
    {
        &self.network_interface_configs
    }

    /// Configured vsock device.
    pub closed spec fn spec_vsock(&self) -> Option<VsockDeviceConfig> {
        self.vsock_device_config
    }

    /// Configured vsock device.
    pub fn vsock_device_config(&self) -> (r: &Option<VsockDeviceConfig>)
        ensures
            *r == self.spec_vsock(),
    {
        &self.vsock_device_config
    }

    /// Kernel command line, if a boot source is set.
    pub fn kernel_cmdline(&self) -> (r: Option<&str>)
        ensures
            r is Some <==> self.spec_cmdline() is Some,
            r is Some ==> r->0@ == self.spec_cmdline()->0,
    {
        match &self.kernel_config {
            Some(k) => Some(k.cmdline.as_str()),
            None => None,
        }
    }

    /// The device table, once booted.
    pub fn devices(&self) -> (r: Option<&Vec<MmioDeviceEntry>>)
        ensures
            r is Some <==> self.spec_devices() is Some,
            r is Some ==> r->0@ == self.spec_devices()->0,
    {
        match &self.mmio_device_manager {
            Some(m) => Some(m.get_device_info()),
            None => None,
        }
    }

    /// Sets the kernel image and builds the command line from the boot arguments, or
    /// from the default line when there are none. A line with characters outside
    /// printable ASCII, or one that does not fit, is refused.
    pub fn configure_boot_source(&mut self, cfg: BootSourceConfig) -> (r: Result<VmmData, VmmActionError>)
        requires
            old(self).wf(),
        ensures
            final(self).wf(),
            final(self).spec_state() == old(self).spec_state(),
            final(self).spec_vm_config() == old(self).spec_vm_config(),
            final(self).drives() == old(self).drives(),
            final(self).ifaces() == old(self).ifaces(),
            final(self).spec_devices() == old(self).spec_devices(),
            old(self).spec_state() != InstanceState::Uninitialized ==> r == Err::<VmmData, VmmActionError>(
                VmmActionError::BootSource(ErrorKind::User, BootSourceConfigError::UpdateNotAllowedPostBoot)),
            r is Err ==> final(self).spec_cmdline() == old(self).spec_cmdline(),
            old(self).spec_state() == InstanceState::Uninitialized ==> ({
                let line = if cfg.boot_args is Some { cfg.boot_args->0@ } else { DEFAULT_KERNEL_CMDLINE@ };
                &&& (r is Ok <==> valid_text(line) && line.len() < CMDLINE_MAX_SIZE)
                &&& r is Ok ==> r->Ok_0 == VmmData::Empty && final(self).spec_cmdline() == Some(line)
                &&& r is Err ==> r->Err_0 == VmmActionError::BootSource(ErrorKind::User,
                    BootSourceConfigError::InvalidKernelCommandLine)
            }),
    {
        if self.is_instance_initialized() {
            return Err(VmmActionError::BootSource(ErrorKind::User, BootSourceConfigError::UpdateNotAllowedPostBoot));
        }
        let mut cmdline = Cmdline::new(CMDLINE_MAX_SIZE);
        let res = match &cfg.boot_args {
            Some(a) => cmdline.insert_str(a.as_str()),
            None => cmdline.insert_str(DEFAULT_KERNEL_CMDLINE),
        };
        if res.is_err() {
            return Err(VmmActionError::BootSource(ErrorKind::User, BootSourceConfigError::InvalidKernelCommandLine));
        }
        self.kernel_config = Some(KernelConfig {
            kernel_image_path: cfg.kernel_image_path,
            cmdline,
            cmdline_addr: CMDLINE_START,
        });
        Ok(VmmData::Empty)
    }

    /// Applies a machine configuration request before boot.
    pub fn set_vm_configuration(&mut self, req: VmConfig) -> (r: Result<VmmData, VmmActionError>)
        requires
            old(self).wf(),
        ensures
            final(self).wf(),
            final(self).spec_state() == old(self).spec_state(),
            final(self).drives() == old(self).drives(),
            final(self).ifaces() == old(self).ifaces(),
            final(self).spec_cmdline() == old(self).spec_cmdline(),
            old(self).spec_state() != InstanceState::Uninitialized ==> r == Err::<VmmData, VmmActionError>(
                VmmActionError::MachineConfig(ErrorKind::User, VmConfigError::UpdateNotAllowedPostBoot)),
            r is Err ==> final(self).spec_vm_config() == old(self).spec_vm_config(),
            old(self).spec_state() == InstanceState::Uninitialized ==> match old(self).spec_vm_config().updated(req) {
                Ok(c) => r == Ok::<VmmData, VmmActionError>(VmmData::Empty) && final(self).spec_vm_config() == c,
                Err(e) => r == Err::<VmmData, VmmActionError>(VmmActionError::MachineConfig(ErrorKind::User, e)),
            },
    {
        if self.is_instance_initialized() {
            return Err(VmmActionError::from(VmConfigError::UpdateNotAllowedPostBoot));
        }
        match self.vm_config.update(&req) {
            Ok(()) => Ok(VmmData::Empty),
            Err(e) => Err(VmmActionError::from(e)),
        }
    }

    /// Adds or replaces a block device before boot.
    pub fn insert_block_device(&mut self, cfg: BlockDeviceConfig) -> (r: Result<VmmData, VmmActionError>)
        requires
            old(self).wf(),
        ensures
            final(self).wf(),
            final(self).spec_state() == old(self).spec_state(),
            final(self).spec_vm_config() == old(self).spec_vm_config(),
            final(self).ifaces() == old(self).ifaces(),
            final(self).spec_cmdline() == old(self).spec_cmdline(),
            old(self).spec_state() != InstanceState::Uninitialized ==> r == Err::<VmmData, VmmActionError>(
                VmmActionError::DriveConfig(ErrorKind::User, DriveError::UpdateNotAllowedPostBoot)),
            r is Err ==> final(self).drives() == old(self).drives(),
            crate::drive::drives_valid(final(self).drives()),
            old(self).spec_state() == InstanceState::Uninitialized ==> match insert_result(old(self).drives(), cfg) {
                Ok(l) => r == Ok::<VmmData, VmmActionError>(VmmData::Empty) && final(self).drives() == l,
                Err(e) => r == Err::<VmmData, VmmActionError>(VmmActionError::DriveConfig(ErrorKind::User, e)),
            },
    {
        if self.is_instance_initialized() {
            return Err(VmmActionError::from(DriveError::UpdateNotAllowedPostBoot));
        }
        match self.block_device_configs.insert(cfg) {
            Ok(()) => Ok(VmmData::Empty),
            Err(e) => Err(VmmActionError::from(e)),
        }
    }

    /// Adds or replaces a network interface before boot.
    pub fn insert_net_device(&mut self, cfg: NetworkInterfaceConfig) -> (r: Result<VmmData, VmmActionError>)
        requires
            old(self).wf(),
        ensures
            final(self).wf(),
            final(self).spec_state() == old(self).spec_state(),
            final(self).spec_vm_config() == old(self).spec_vm_config(),
            final(self).drives() == old(self).drives(),
            final(self).spec_cmdline() == old(self).spec_cmdline(),
            old(self).spec_state() != InstanceState::Uninitialized ==> r == Err::<VmmData, VmmActionError>(
                VmmActionError::NetworkConfig(ErrorKind::User, NetworkInterfaceError::UpdateNotAllowedPostBoot)),
            r is Err ==> final(self).ifaces() == old(self).ifaces(),
            r is Err ==> r->Err_0 is NetworkConfig,
            crate::net::ifaces_valid(final(self).ifaces()),
            old(self).spec_state() == InstanceState::Uninitialized && mac_conflict(old(self).ifaces(), cfg)
                ==> r is Err && r->Err_0->NetworkConfig_0 == ErrorKind::User
                    && r->Err_0->NetworkConfig_1 is GuestMacAddressInUse
                    && r->Err_0->NetworkConfig_1->GuestMacAddressInUse_0@ == crate::net::mac_text(cfg.guest_mac->0),
            old(self).spec_state() == InstanceState::Uninitialized && !mac_conflict(old(self).ifaces(), cfg)
                && host_conflict(old(self).ifaces(), cfg)
                ==> r is Err && r->Err_0->NetworkConfig_0 == ErrorKind::User
                    && r->Err_0->NetworkConfig_1 is HostDeviceNameInUse
                    && r->Err_0->NetworkConfig_1->HostDeviceNameInUse_0@ == cfg.host_dev_name@,
            old(self).spec_state() == InstanceState::Uninitialized ==> {
                &&& (r is Ok <==> !mac_conflict(old(self).ifaces(), cfg) && !host_conflict(old(self).ifaces(), cfg))
                &&& r is Ok ==> r->Ok_0 == VmmData::Empty && final(self).ifaces() == iface_inserted(old(self).ifaces(), cfg)
            },
    {
        if self.is_instance_initialized() {
            return Err(VmmActionError::from(NetworkInterfaceError::UpdateNotAllowedPostBoot));
        }
        match self.network_interface_configs.insert(cfg) {
            Ok(()) => Ok(VmmData::Empty),
            Err(e) => Err(VmmActionError::NetworkConfig(ErrorKind::User, e)),
        }
    }

    /// Sets the vsock device before boot.
    pub fn set_vsock_device(&mut self, cfg: VsockDeviceConfig) -> (r: Result<VmmData, VmmActionError>)
        requires
            old(self).wf(),
        ensures
            final(self).wf(),
            final(self).spec_state() == old(self).spec_state(),
            final(self).spec_vm_config() == old(self).spec_vm_config(),
            final(self).drives() == old(self).drives(),
            final(self).ifaces() == old(self).ifaces(),
            final(self).spec_cmdline() == old(self).spec_cmdline(),
            old(self).spec_state() != InstanceState::Uninitialized <==> r == Err::<VmmData, VmmActionError>(
                VmmActionError::VsockConfig(ErrorKind::User, VsockError::UpdateNotAllowedPostBoot)),
            r is Ok ==> r->Ok_0 == VmmData::Empty && final(self).spec_vsock() == Some(cfg),
            r is Err ==> final(self).spec_vsock() == old(self).spec_vsock(),
    {
        if self.is_instance_initialized() {
            return Err(VmmActionError::VsockConfig(ErrorKind::User, VsockError::UpdateNotAllowedPostBoot));
        }
        self.vsock_device_config = Some(cfg);
        Ok(VmmData::Empty)
    }
}

/// The device announcements that booting appends: one per drive, network interface and
/// vsock device, in that order, with windows and lines handed out from the start of
/// their ranges.
pub open spec fn device_frags(n_drives: nat, n_ifaces: nat, n_vsock: nat) -> Seq<Seq<char>> {
    id_frags(n_drives, MMIO_MEM_START as nat, IRQ_BASE as nat)
        + id_frags(n_ifaces, (MMIO_MEM_START + n_drives * MMIO_LEN) as nat, (IRQ_BASE + n_drives) as nat)
        + id_frags(n_vsock, (MMIO_MEM_START + (n_drives + n_ifaces) * MMIO_LEN) as nat, (IRQ_BASE + n_drives + n_ifaces) as nat)
}

/// A drive other than `id` has the backing file `path`.
pub open spec fn path_used_by_other(list: Seq<BlockDeviceConfig>, id: Seq<char>, path: Seq<char>) -> bool {
    exists|j: int| 0 <= j < list.len() && j != index_of_id(list, id) && (#[trigger] list[j]).path_on_host@ == path
}

/// Everything that booting appends to the kernel command line: the device
/// announcements, then the root file system.
pub open spec fn boot_frags(drives: Seq<BlockDeviceConfig>, n_ifaces: nat, n_vsock: nat) -> Seq<Seq<char>> {
    device_frags(drives.len(), n_ifaces, n_vsock) + root_frags(drives)
}

impl Vmm {
    /// The number of vsock devices configured (zero or one).
    pub closed spec fn n_vsock(&self) -> nat {
        if self.vsock_device_config is Some { 1 } else { 0 }
    }

    fn iface_ids(&self) -> (r: Vec<String>)
        requires
            self.wf(),
        ensures
            r@.len() == self.ifaces().len(),
            forall|i: int| 0 <= i < r@.len() ==> #[trigger] r@[i] == self.ifaces()[i].iface_id,
            forall|i: int, j: int| 0 <= i < r@.len() && 0 <= j < r@.len() && i != j
                ==> (#[trigger] r@[i])@ != (#[trigger] r@[j])@,
    {
        let list = self.network_interface_configs.if_list();
        let mut ids: Vec<String> = Vec::new();
        let n = list.len();
        let mut i: usize = 0;
        while i < n
            invariant
                self.wf(),
                list@ == self.ifaces(),
                n == list@.len(),
                i <= n,
                ids@.len() == i,
                forall|k: int| 0 <= k < i ==> #[trigger] ids@[k] == list@[k].iface_id,
            decreases n - i,
        {
            ids.push(list[i].iface_id.clone());
            i = i + 1;
        }
        proof {
            assert forall|a: int, b: int| 0 <= a < ids@.len() && 0 <= b < ids@.len() && a != b
                implies (#[trigger] ids@[a])@ != (#[trigger] ids@[b])@ by {
                assert(list@[a].iface_id@ != list@[b].iface_id@);
            }
        }
        ids
    }

    fn attach_all(&self, cmdline: &mut Cmdline, mgr: &mut MmioDeviceManager) -> (r: Result<(), StartMicrovmError>)
        requires
            self.wf(),
            old(cmdline).wf(),
            old(mgr).wf(),
            old(mgr).table().len() == 0,
            old(mgr).next_addr() == MMIO_MEM_START,
            old(mgr).next_irq() == IRQ_BASE,
            old(mgr).irq_limit() == IRQ_MAX,
        ensures
            final(cmdline).wf(),
            final(mgr).wf(),
            final(cmdline).cap() == old(cmdline).cap(),
            r is Ok ==> final(cmdline).text() == append_all(old(cmdline).text(),
                boot_frags(self.drives(), self.ifaces().len(), self.n_vsock())),
            r is Ok ==> forall|i: int| 0 <= i < self.drives().len()
                ==> has_device(final(mgr).table(), TYPE_BLOCK, (#[trigger] self.drives()[i]).drive_id@),
            self.drives().len() + self.ifaces().len() + self.n_vsock() <= IRQ_MAX - IRQ_BASE + 1
                && root_valid(self.drives())
                && append_all(old(cmdline).text(), boot_frags(self.drives(), self.ifaces().len(), self.n_vsock())).len()
                    < old(cmdline).cap()
                ==> r is Ok,
            self.drives().len() + self.ifaces().len() + self.n_vsock() <= IRQ_MAX - IRQ_BASE + 1
                && root_valid(self.drives())
                && append_all(old(cmdline).text(), device_frags(self.drives().len(), self.ifaces().len(), self.n_vsock())).len()
                    < old(cmdline).cap()
                && append_all(old(cmdline).text(), boot_frags(self.drives(), self.ifaces().len(), self.n_vsock())).len()
                    >= old(cmdline).cap()
                ==> r == Err::<(), StartMicrovmError>(
                    StartMicrovmError::KernelCmdline(crate::error::CmdlineError::CommandLineOverflow)),
            !root_valid(self.drives()) && r is Err ==> r == Err::<(), StartMicrovmError>(
                StartMicrovmError::KernelCmdline(crate::error::CmdlineError::InvalidAscii))
                || r->Err_0 is RegisterBlockDevice || r->Err_0 is RegisterNetDevice || r->Err_0 is RegisterVsockDevice,
    {
        let ghost text0 = cmdline.text();
        let ghost drives = self.drives();
        let ghost d = drives.len();
        let ghost n_if0 = self.ifaces().len();
        let ghost f0 = id_frags(d, MMIO_MEM_START as nat, IRQ_BASE as nat);
        let ghost f1 = id_frags(n_if0, (MMIO_MEM_START + d * MMIO_LEN) as nat, (IRQ_BASE + d) as nat);
        let ghost f2 = id_frags(self.n_vsock(), (MMIO_MEM_START + (d + n_if0) * MMIO_LEN) as nat, (IRQ_BASE + d + n_if0) as nat);
        let ghost f3 = root_frags(drives);
        proof {
            assert(device_frags(d, n_if0, self.n_vsock()) == f0 + f1 + f2);
            crate::boot::lemma_append_all_prefix(text0, f0, f1 + f2);
            assert(f0 + f1 + f2 =~= f0 + (f1 + f2));
            crate::boot::lemma_append_all_prefix(text0, f0 + f1, f2);
            assert(boot_frags(drives, n_if0, self.n_vsock()) == f0 + f1 + f2 + f3);
            crate::boot::lemma_append_all_prefix(text0, f0, f1 + f2 + f3);
            assert(f0 + f1 + f2 + f3 =~= f0 + (f1 + f2 + f3));
            crate::boot::lemma_append_all_prefix(text0, f0 + f1, f2 + f3);
            assert(f0 + f1 + f2 + f3 =~= (f0 + f1) + (f2 + f3));
            crate::boot::lemma_append_all_prefix(text0, f0 + f1 + f2, f3);
            crate::boot::lemma_append_all_concat(text0, f0, f1);
            crate::boot::lemma_append_all_concat(text0, f0 + f1, f2);
            crate::boot::lemma_append_all_concat(text0, f0 + f1 + f2, f3);
        }
        attach_block_devices(&self.block_device_configs, cmdline, mgr)?;
        let ghost t1 = mgr.table();
        let ghost ents = id_entries(drive_ids(drives), TYPE_BLOCK, MMIO_MEM_START as nat, IRQ_BASE as nat);
        proof {
            assert forall|i: int| 0 <= i < d implies has_device(t1, TYPE_BLOCK, (#[trigger] drives[i]).drive_id@) by {
                assert(t1[i] == ents[i]);
            }
        }
        let ids = self.iface_ids();
        proof {
            assert forall|k: int| 0 <= k < mgr.table().len() implies (#[trigger] mgr.table()[k]).type_id != TYPE_NET by {
                assert(mgr.table()[k] == ents[k]);
            }
        }
        match attach_ids(&ids, TYPE_NET, cmdline, mgr) {
            Ok(()) => {},
            Err(e) => {
                return Err(StartMicrovmError::RegisterNetDevice(e));
            },
        }
        let ghost n_if = ids@.len();
        let mut vs: Vec<String> = Vec::new();
        if let Some(v) = &self.vsock_device_config {
            vs.push(v.vsock_id.clone());
        }
        proof {
            assert forall|k: int| 0 <= k < mgr.table().len() implies (#[trigger] mgr.table()[k]).type_id != TYPE_VSOCK by {
                if k < d {
                    assert(mgr.table()[k] == ents[k]);
                } else {
                    assert(mgr.table()[k] == id_entries(ids@, TYPE_NET, (MMIO_MEM_START + d * MMIO_LEN) as nat, (IRQ_BASE + d) as nat)[k - d]);
                }
            }
        }
        match attach_ids(&vs, TYPE_VSOCK, cmdline, mgr) {
            Ok(()) => {},
            Err(e) => {
                return Err(StartMicrovmError::RegisterVsockDevice(e));
            },
        }
        proof {
            assert(vs@.len() == self.n_vsock());
            crate::boot::lemma_append_all_concat(text0, f0, f1);
            crate::boot::lemma_append_all_concat(text0, f0 + f1, f2);
            assert forall|i: int| 0 <= i < d implies has_device(mgr.table(), TYPE_BLOCK, (#[trigger] drives[i]).drive_id@) by {
                assert(mgr.table()[i] == t1[i]);
                assert(t1[i] == ents[i]);
            }
        }
        append_root_fragments(&self.block_device_configs, cmdline)?;
        proof {
            crate::boot::lemma_append_all_concat(text0, f0 + f1 + f2, f3);
        }
        Ok(())
    }

    /// The boot transition, first half: checks that the microVM was not started and
    /// has a boot source, attaches the devices (block, net, vsock, in that order) on a
    /// copy of the command line, lays out guest memory, and enters `Starting`. On
    /// error nothing changes. The host runs the boot steps and calls `finish_boot`.
    pub fn prepare_boot(&mut self, snapshot_path: Option<String>) -> (r: Result<BootPlan, VmmActionError>)
        requires
            old(self).wf(),
        ensures
            final(self).wf(),
            final(self).spec_vm_config() == old(self).spec_vm_config(),
            final(self).drives() == old(self).drives(),
            final(self).ifaces() == old(self).ifaces(),
            final(self).spec_cmdline() == old(self).spec_cmdline(),
            old(self).spec_state() != InstanceState::Uninitialized ==> r == Err::<BootPlan, VmmActionError>(
                VmmActionError::StartMicrovm(ErrorKind::User, StartMicrovmError::MicroVMInvalidState(StateError::MicroVMAlreadyRunning))),
            old(self).spec_state() == InstanceState::Uninitialized && old(self).spec_cmdline() is None
                ==> r == Err::<BootPlan, VmmActionError>(
                VmmActionError::StartMicrovm(ErrorKind::User, StartMicrovmError::MissingKernelConfig)),
            r is Err ==> final(self).spec_state() == old(self).spec_state()
                && final(self).spec_devices() == old(self).spec_devices()
                && r->Err_0 is StartMicrovm,
            old(self).spec_state() == InstanceState::Uninitialized && old(self).spec_cmdline() is Some
                && old(self).drives().len() + old(self).ifaces().len() + old(self).n_vsock() <= IRQ_MAX - IRQ_BASE + 1
                && root_valid(old(self).drives())
                && append_all(old(self).spec_cmdline()->0,
                    boot_frags(old(self).drives(), old(self).ifaces().len(), old(self).n_vsock())).len() < CMDLINE_MAX_SIZE
                && old(self).spec_vm_config().mem_size_mib->0 <= crate::memory::MAX_MEM_SIZE_MIB ==> r is Ok,
            old(self).spec_state() == InstanceState::Uninitialized && old(self).spec_cmdline() is Some
                && old(self).drives().len() + old(self).ifaces().len() + old(self).n_vsock() <= IRQ_MAX - IRQ_BASE + 1
                && root_valid(old(self).drives())
                && append_all(old(self).spec_cmdline()->0,
                    device_frags(old(self).drives().len(), old(self).ifaces().len(), old(self).n_vsock())).len() < CMDLINE_MAX_SIZE
                && append_all(old(self).spec_cmdline()->0,
                    boot_frags(old(self).drives(), old(self).ifaces().len(), old(self).n_vsock())).len() >= CMDLINE_MAX_SIZE
                ==> r == Err::<BootPlan, VmmActionError>(VmmActionError::StartMicrovm(ErrorKind::User,
                    StartMicrovmError::KernelCmdline(crate::error::CmdlineError::CommandLineOverflow))),
            r is Ok ==> {
                &&& old(self).spec_state() == InstanceState::Uninitialized
                &&& old(self).spec_cmdline() is Some
                &&& final(self).spec_state() == InstanceState::Starting
                &&& r->Ok_0.cmdline@ == append_all(old(self).spec_cmdline()->0,
                    boot_frags(old(self).drives(), old(self).ifaces().len(), old(self).n_vsock()))
                &&& final(self).spec_devices() == Some(r->Ok_0.devices@)
                &&& forall|i: int| 0 <= i < old(self).drives().len()
                    ==> has_device(r->Ok_0.devices@, TYPE_BLOCK, (#[trigger] old(self).drives()[i]).drive_id@)
                &&& r->Ok_0.vm_config == old(self).spec_vm_config()
                &&& final(self).spec_boot_cmdline() == Some(r->Ok_0.cmdline@)
                &&& (old(self).drives().len() > 0 && old(self).drives()[0].is_root_device ==> ends_with(r->Ok_0.cmdline@,
                    root_target(old(self).drives()[0]) + seq![' '] + rw_flag(old(self).drives()[0].is_read_only)))
            },
    {
        if self.is_instance_initialized() {
            return Err(VmmActionError::from(StartMicrovmError::MicroVMInvalidState(StateError::MicroVMAlreadyRunning)));
        }
        let (mut cmdline, kernel_image_path, cmdline_addr) = match &self.kernel_config {
            None => {
                return Err(VmmActionError::from(StartMicrovmError::MissingKernelConfig));
            },
            Some(k) => (k.cmdline.duplicate(), k.kernel_image_path.clone(), k.cmdline_addr),
        };
        let mut mgr = MmioDeviceManager::new(MMIO_MEM_START, (IRQ_BASE, IRQ_MAX));
        if let Err(e) = self.attach_all(&mut cmdline, &mut mgr) {
            return Err(VmmActionError::from(e));
        }
        let memory = match guest_memory_layout(self.vm_config.mem_size_mib.unwrap(), 0) {
            Ok(m) => m,
            Err(e) => {
                return Err(VmmActionError::from(StartMicrovmError::GuestMemory(e)));
            },
        };
        let text = String::from_str(cmdline.as_str());
        proof {
            let dr = self.drives();
            if dr.len() > 0 && dr[0].is_root_device {
                reveal_strlit("root=/dev/vda");
                reveal_strlit("root=PARTUUID=");
                let t = root_target(dr[0]);
                let fl = rw_flag(dr[0].is_read_only);
                assert(t.len() > 0);
                let dfr = device_frags(dr.len(), self.ifaces().len(), self.n_vsock());
                assert(boot_frags(dr, self.ifaces().len(), self.n_vsock()) =~= dfr + seq![t, fl]);
                crate::boot::lemma_ends_with_last_two(old(self).spec_cmdline()->0, dfr, t, fl);
            }
        }
        let devices = copy_entries(mgr.get_device_info());
        self.mmio_device_manager = Some(mgr);
        self.boot_cmdline = Some(cmdline);
        self.state = InstanceState::Starting;
        Ok(BootPlan {
            snapshot_path,
            vm_config: self.vm_config,
            memory,
            kernel_image_path,
            cmdline: text,
            cmdline_addr,
            devices,
        })
    }
}

impl Vmm {
    /// The boot transition, second half: on success the microVM runs; on failure it
    /// returns to pre-boot with the resource store as it was and no device table.
    pub fn finish_boot(&mut self, outcome: Result<(), StartMicrovmError>) -> (r: Result<VmmData, VmmActionError>)
        requires
            old(self).wf(),
            old(self).spec_state() == InstanceState::Starting,
        ensures
            final(self).wf(),
            final(self).spec_vm_config() == old(self).spec_vm_config(),
            final(self).drives() == old(self).drives(),
            final(self).ifaces() == old(self).ifaces(),
            outcome is Ok ==> r == Ok::<VmmData, VmmActionError>(VmmData::Empty)
                && final(self).spec_state() == InstanceState::Running
                && final(self).spec_devices() == old(self).spec_devices()
                && old(self).spec_boot_cmdline() is Some
                && final(self).spec_cmdline() == old(self).spec_boot_cmdline(),
            outcome is Err ==> final(self).spec_cmdline() == old(self).spec_cmdline(),
            final(self).spec_boot_cmdline() is None,
            outcome is Err ==> r == Err::<VmmData, VmmActionError>(VmmActionError::StartMicrovm(
                    start_error_kind(outcome->Err_0), outcome->Err_0))
                && final(self).spec_state() == InstanceState::Uninitialized
                && final(self).spec_devices() is None,
    {
        match outcome {
            Ok(()) => {
                let booted = self.boot_cmdline.take().unwrap();
                let k = self.kernel_config.take().unwrap();
                self.kernel_config = Some(KernelConfig {
                    kernel_image_path: k.kernel_image_path,
                    cmdline: booted,
                    cmdline_addr: k.cmdline_addr,
                });
                self.state = InstanceState::Running;
                Ok(VmmData::Empty)
            },
            Err(e) => {
                self.state = InstanceState::Uninitialized;
                self.mmio_device_manager = None;
                self.boot_cmdline = None;
                Err(VmmActionError::from(e))
            },
        }
    }

    /// Restoring from a snapshot, first half: refused once started, and for a snapshot
    /// whose machine shape the store cannot hold; otherwise takes the snapshot's vCPU
    /// count and memory size, starts a fresh device table and enters `Resuming`.
    pub fn begin_resume(&mut self, vcpu_count: u8, mem_size_mib: usize) -> (r: Result<(), VmmActionError>)
        requires
            old(self).wf(),
        ensures
            final(self).wf(),
            final(self).drives() == old(self).drives(),
            final(self).ifaces() == old(self).ifaces(),
            final(self).spec_cmdline() == old(self).spec_cmdline(),
            old(self).spec_state() != InstanceState::Uninitialized ==> r == Err::<(), VmmActionError>(
                VmmActionError::ResumeMicrovm(ErrorKind::User, ResumeMicrovmError::MicroVMInvalidState(StateError::MicroVMAlreadyRunning))),
            r is Err ==> final(self).spec_state() == old(self).spec_state()
                && final(self).spec_vm_config() == old(self).spec_vm_config()
                && final(self).spec_devices() == old(self).spec_devices(),
            old(self).spec_state() == InstanceState::Uninitialized ==> (r is Ok <==> {
                &&& vcpu_count >= 1
                &&& mem_size_mib >= 1
                &&& crate::machine_config::valid_vcpu_count(vcpu_count, old(self).spec_vm_config().ht_enabled->0)
            }),
            r is Ok ==> {
                &&& final(self).spec_state() == InstanceState::Resuming
                &&& final(self).spec_vm_config() == (VmConfig {
                    vcpu_count: Some(vcpu_count),
                    mem_size_mib: Some(mem_size_mib),
                    ..old(self).spec_vm_config()
                })
                &&& final(self).spec_devices() == Some(Seq::<MmioDeviceEntry>::empty())
            },
    {
        if self.is_instance_initialized() {
            return Err(VmmActionError::from(ResumeMicrovmError::MicroVMInvalidState(StateError::MicroVMAlreadyRunning)));
        }
        let ht = self.vm_config.ht_enabled.unwrap();
        if vcpu_count == 0 || mem_size_mib == 0 || (ht && vcpu_count > 1 && vcpu_count % 2 == 1) {
            return Err(VmmActionError::from(ResumeMicrovmError::OpenSnapshotFile));
        }
        self.vm_config.vcpu_count = Some(vcpu_count);
        self.vm_config.mem_size_mib = Some(mem_size_mib);
        self.mmio_device_manager = Some(MmioDeviceManager::new(MMIO_MEM_START, (IRQ_BASE, IRQ_MAX)));
        self.state = InstanceState::Resuming;
        Ok(())
    }

    /// Restoring from a snapshot, second half: on success the microVM runs. A failure
    /// is reported and the state stays `Resuming`: the host terminates the process.
    pub fn finish_resume(&mut self, outcome: Result<(), ResumeMicrovmError>) -> (r: Result<VmmData, VmmActionError>)
        requires
            old(self).wf(),
            old(self).spec_state() == InstanceState::Resuming,
        ensures
            final(self).wf(),
            final(self).spec_vm_config() == old(self).spec_vm_config(),
            final(self).drives() == old(self).drives(),
            outcome is Ok ==> r == Ok::<VmmData, VmmActionError>(VmmData::Empty)
                && final(self).spec_state() == InstanceState::Running,
            outcome is Err ==> r == Err::<VmmData, VmmActionError>(VmmActionError::ResumeMicrovm(
                    crate::error::resume_error_kind(outcome->Err_0), outcome->Err_0))
                && final(self).spec_state() == InstanceState::Resuming,
    {
        match outcome {
            Ok(()) => {
                self.state = InstanceState::Running;
                Ok(VmmData::Empty)
            },
            Err(e) => Err(VmmActionError::from(e)),
        }
    }

    fn block_device_addr(&self, drive_id: &String) -> (r: Option<u64>)
        requires
            self.wf(),
        ensures
            r is Some <==> self.spec_devices() is Some && has_device(self.spec_devices()->0, TYPE_BLOCK, drive_id@),
            r is Some ==> r->0 == self.spec_devices()->0[index_of_device(self.spec_devices()->0, TYPE_BLOCK, drive_id@)].info.addr,
    {
        match &self.mmio_device_manager {
            None => None,
            Some(m) => match m.get_device(TYPE_BLOCK, drive_id) {
                Some(info) => Some(info.addr),
                None => None,
            },
        }
    }

    /// Plans switching the backing file of a running drive. An unknown drive id, or a
    /// drive without a device, is refused.
    pub fn request_drive_swap(&self, drive_id: &String, path: String) -> (r: Result<HostTask, VmmActionError>)
        requires
            self.wf(),
        ensures
            !has_id(self.drives(), drive_id@) ==> r == Err::<HostTask, VmmActionError>(
                VmmActionError::DriveConfig(ErrorKind::User, DriveError::InvalidBlockDeviceID)),
            r is Ok <==> has_id(self.drives(), drive_id@) && self.spec_devices() is Some
                && has_device(self.spec_devices()->0, TYPE_BLOCK, drive_id@),
            r is Err ==> r->Err_0 == VmmActionError::DriveConfig(ErrorKind::User, DriveError::InvalidBlockDeviceID),
            r is Ok ==> r->Ok_0 is SwapDriveFile && ({
                let t = r->Ok_0;
                let d = self.drives()[index_of_id(self.drives(), drive_id@)];
                let devs = self.spec_devices()->0;
                &&& t->SwapDriveFile_drive_id@ == drive_id@
                &&& t->SwapDriveFile_path == path
                &&& t->SwapDriveFile_read_only == d.is_read_only
                &&& t->SwapDriveFile_addr == devs[index_of_device(devs, TYPE_BLOCK, drive_id@)].info.addr
            }),
    {
        let k = match self.block_device_configs.get_index_of_drive_id(drive_id) {
            None => {
                return Err(VmmActionError::from(DriveError::InvalidBlockDeviceID));
            },
            Some(k) => k,
        };
        let read_only = self.block_device_configs.config_list()[k].is_read_only;
        match self.block_device_addr(drive_id) {
            None => Err(VmmActionError::from(DriveError::InvalidBlockDeviceID)),
            Some(addr) => Ok(HostTask::SwapDriveFile { drive_id: drive_id.clone(), path, read_only, addr }),
        }
    }

    /// Plans telling the guest that a drive's backing file changed size: refused before
    /// boot, for an unknown drive id, and for a drive without a device.
    pub fn request_rescan(&self, drive_id: &String) -> (r: Result<HostTask, VmmActionError>)
        requires
            self.wf(),
        ensures
            self.spec_state() == InstanceState::Uninitialized ==> r == Err::<HostTask, VmmActionError>(
                VmmActionError::DriveConfig(ErrorKind::User, DriveError::OperationNotAllowedPreBoot)),
            self.spec_state() != InstanceState::Uninitialized && !has_id(self.drives(), drive_id@)
                ==> r == Err::<HostTask, VmmActionError>(
                VmmActionError::DriveConfig(ErrorKind::User, DriveError::InvalidBlockDeviceID)),
            self.spec_state() != InstanceState::Uninitialized && has_id(self.drives(), drive_id@)
                && !(self.spec_devices() is Some && has_device(self.spec_devices()->0, TYPE_BLOCK, drive_id@))
                ==> r == Err::<HostTask, VmmActionError>(
                VmmActionError::DriveConfig(ErrorKind::User, DriveError::BlockDeviceUpdateFailed)),
            r is Ok <==> self.spec_state() != InstanceState::Uninitialized && has_id(self.drives(), drive_id@)
                && self.spec_devices() is Some && has_device(self.spec_devices()->0, TYPE_BLOCK, drive_id@),
            r is Ok ==> r->Ok_0 is RescanDrive && ({
                let t = r->Ok_0;
                let d = self.drives()[index_of_id(self.drives(), drive_id@)];
                let devs = self.spec_devices()->0;
                &&& t->RescanDrive_drive_id@ == drive_id@
                &&& t->RescanDrive_path@ == d.path_on_host@
                &&& t->RescanDrive_addr == devs[index_of_device(devs, TYPE_BLOCK, drive_id@)].info.addr
            }),
    {
        if !self.is_instance_initialized() {
            return Err(VmmActionError::from(DriveError::OperationNotAllowedPreBoot));
        }
        let k = match self.block_device_configs.get_index_of_drive_id(drive_id) {
            None => {
                return Err(VmmActionError::from(DriveError::InvalidBlockDeviceID));
            },
            Some(k) => k,
        };
        let path = self.block_device_configs.config_list()[k].path_on_host.clone();
        match self.block_device_addr(drive_id) {
            None => Err(VmmActionError::from(DriveError::BlockDeviceUpdateFailed)),
            Some(addr) => Ok(HostTask::RescanDrive { drive_id: drive_id.clone(), path, addr }),
        }
    }

    /// Completes a drive swap or rescan once the host measured the backing file:
    /// records the new path (when the drive changed file) and returns the configuration
    /// space write that shows the guest the new size in whole sectors.
    pub fn complete_drive_update(
        &mut self,
        drive_id: &String,
        new_path: Option<String>,
        size: Result<u64, DriveError>,
    ) -> (r: Result<DriveConfigUpdate, VmmActionError>)
        requires
            old(self).wf(),
        ensures
            final(self).wf(),
            final(self).spec_state() == old(self).spec_state(),
            final(self).spec_vm_config() == old(self).spec_vm_config(),
            final(self).ifaces() == old(self).ifaces(),
            final(self).spec_devices() == old(self).spec_devices(),
            final(self).drives().len() == old(self).drives().len(),
            size is Err ==> r == Err::<DriveConfigUpdate, VmmActionError>(
                VmmActionError::DriveConfig(drive_error_kind(size->Err_0), size->Err_0)),
            size is Ok && !has_id(old(self).drives(), drive_id@) ==> r == Err::<DriveConfigUpdate, VmmActionError>(
                VmmActionError::DriveConfig(ErrorKind::User, DriveError::InvalidBlockDeviceID)),
            r is Err ==> final(self).drives() == old(self).drives(),
            size is Ok && has_id(old(self).drives(), drive_id@)
                && !(old(self).spec_devices() is Some && has_device(old(self).spec_devices()->0, TYPE_BLOCK, drive_id@))
                ==> r == Err::<DriveConfigUpdate, VmmActionError>(
                VmmActionError::DriveConfig(ErrorKind::User, DriveError::BlockDeviceUpdateFailed)),
            size is Ok && has_id(old(self).drives(), drive_id@)
                && old(self).spec_devices() is Some && has_device(old(self).spec_devices()->0, TYPE_BLOCK, drive_id@)
                && new_path is Some && path_used_by_other(old(self).drives(), drive_id@, new_path->0@)
                ==> r == Err::<DriveConfigUpdate, VmmActionError>(
                VmmActionError::DriveConfig(ErrorKind::User, DriveError::BlockDevicePathAlreadyExists)),
            size is Ok && has_id(old(self).drives(), drive_id@)
                && old(self).spec_devices() is Some && has_device(old(self).spec_devices()->0, TYPE_BLOCK, drive_id@)
                && (new_path is None || !path_used_by_other(old(self).drives(), drive_id@, new_path->0@))
                ==> r is Ok,
            r is Ok && new_path is Some ==> forall|j: int| 0 <= j < old(self).drives().len()
                && j != index_of_id(old(self).drives(), drive_id@) ==> #[trigger] final(self).drives()[j] == old(self).drives()[j],
            r is Ok ==> {
                &&& size is Ok
                &&& r->Ok_0.config_space@ == block_config_space(size->Ok_0)
                &&& has_id(old(self).drives(), drive_id@)
                &&& old(self).spec_devices() is Some
                &&& r->Ok_0.addr == old(self).spec_devices()->0[index_of_device(old(self).spec_devices()->0, TYPE_BLOCK, drive_id@)].info.addr
                &&& new_path is Some ==> final(self).drives()[index_of_id(old(self).drives(), drive_id@)].path_on_host@ == new_path->0@
                &&& new_path is None ==> final(self).drives() == old(self).drives()
            },
    {
        let new_size = match size {
            Err(e) => {
                return Err(VmmActionError::from(e));
            },
            Ok(s) => s,
        };
        let k = match self.block_device_configs.get_index_of_drive_id(drive_id) {
            None => {
                return Err(VmmActionError::from(DriveError::InvalidBlockDeviceID));
            },
            Some(k) => k,
        };
        let addr = match &self.mmio_device_manager {
            None => {
                return Err(VmmActionError::from(DriveError::BlockDeviceUpdateFailed));
            },
            Some(m) => match m.get_device(TYPE_BLOCK, drive_id) {
                None => {
                    return Err(VmmActionError::from(DriveError::BlockDeviceUpdateFailed));
                },
                Some(info) => info.addr,
            },
        };
        if let Some(p) = new_path {
            let list = self.block_device_configs.config_list();
            let n = list.len();
            let mut i: usize = 0;
            while i < n
                invariant
                    self.wf(),
                    *self == *old(self),
                    list@ == self.drives(),
                    size is Ok,
                    has_id(old(self).drives(), drive_id@),
                    k == index_of_id(old(self).drives(), drive_id@),
                    new_path == Some(p),
                    old(self).spec_devices() is Some && has_device(old(self).spec_devices()->0, TYPE_BLOCK, drive_id@),
                    n == list@.len(),
                    k < n,
                    i <= n,
                    forall|j: int| 0 <= j < i && j != k ==> (#[trigger] list@[j]).path_on_host@ != p@,
                decreases n - i,
            {
                if i != k && list[i].path_on_host == p {
                    assert(path_used_by_other(self.drives(), drive_id@, p@));
                    return Err(VmmActionError::from(DriveError::BlockDevicePathAlreadyExists));
                }
                i = i + 1;
            }
            self.block_device_configs.set_path_on_host(k, p);
        }
        Ok(DriveConfigUpdate { addr, config_space: build_config_space(new_size) })
    }

    /// Plans pausing the microVM to a snapshot: only a running microVM can be paused.
    pub fn request_pause_to_snapshot(&self) -> (r: Result<HostTask, VmmActionError>)
        ensures
            r is Ok <==> self.spec_state() == InstanceState::Running,
            r is Ok ==> r->Ok_0 is PauseToSnapshot,
            r is Err ==> r->Err_0 == VmmActionError::PauseMicrovm(ErrorKind::User,
                PauseMicrovmError::MicroVMInvalidState(StateError::MicroVMIsNotRunning)),
    {
        if self.is_instance_running() {
            Ok(HostTask::PauseToSnapshot)
        } else {
            Err(VmmActionError::from(PauseMicrovmError::MicroVMInvalidState(StateError::MicroVMIsNotRunning)))
        }
    }

    /// Updates the stored rate limiters of a network interface; after boot the host
    /// then patches the live device.
    pub fn update_net_device(&mut self, upd: NetworkInterfaceUpdateConfig) -> (r: Result<VmmData, VmmActionError>)
        requires
            old(self).wf(),
        ensures
            final(self).wf(),
            final(self).spec_state() == old(self).spec_state(),
            final(self).spec_vm_config() == old(self).spec_vm_config(),
            final(self).drives() == old(self).drives(),
            r is Ok <==> has_iface(old(self).ifaces(), upd.iface_id@),
            r is Err ==> r->Err_0 == VmmActionError::NetworkConfig(ErrorKind::User, NetworkInterfaceError::DeviceIdNotFound)
                && final(self).ifaces() == old(self).ifaces(),
            r is Ok ==> r->Ok_0 == VmmData::Empty,
            r is Ok ==> ({
                let k = index_of_iface(old(self).ifaces(), upd.iface_id@);
                let o = old(self).ifaces()[k];
                final(self).ifaces() == old(self).ifaces().update(k, NetworkInterfaceConfig {
                    rx_rate_limiter: limiter_after(o.rx_rate_limiter, upd.rx_rate_limiter),
                    tx_rate_limiter: limiter_after(o.tx_rate_limiter, upd.tx_rate_limiter),
                    ..o
                })
            }),
    {
        match self.network_interface_configs.update_rate_limiters(&upd) {
            Ok(()) => Ok(VmmData::Empty),
            Err(e) => Err(VmmActionError::from(e)),
        }
    }

    /// Answers a control action. Before boot only configuration actions, the boot and
    /// the restore from a snapshot are accepted; after boot only the runtime actions
    /// (metrics, machine configuration, drive path and rescan, interface limiters,
    /// CTRL+ALT+DEL, pause to snapshot). Pausing and resuming the vCPUs alone is in
    /// neither set, so `PauseVCPUs` and `ResumeVCPUs` are refused in both phases.
    pub fn handle_request(&mut self, action: VmmAction) -> (r: ActionStep)
        requires
            old(self).wf(),
        ensures
            final(self).wf(),
            old(self).spec_state() == InstanceState::Uninitialized && !preboot_allowed(action)
                ==> r == ActionStep::Respond(Err(VmmActionError::OperationNotSupportedPreBoot))
                    && *final(self) == *old(self),
            old(self).spec_state() != InstanceState::Uninitialized && !runtime_allowed(action)
                ==> r == ActionStep::Respond(Err(VmmActionError::OperationNotSupportedPostBoot))
                    && *final(self) == *old(self),
            action is GetVmConfiguration ==> r == ActionStep::Respond(Ok(VmmData::MachineConfiguration(old(self).spec_vm_config())))
                && *final(self) == *old(self),
            old(self).spec_state() == InstanceState::Uninitialized && action is SetVmConfiguration ==>
                match old(self).spec_vm_config().updated(action->SetVmConfiguration_0) {
                    Ok(c) => r == ActionStep::Respond(Ok(VmmData::Empty)) && final(self).spec_vm_config() == c,
                    Err(e) => r == ActionStep::Respond(Err(VmmActionError::MachineConfig(ErrorKind::User, e)))
                        && final(self).spec_vm_config() == old(self).spec_vm_config(),
                },
            old(self).spec_state() == InstanceState::Uninitialized && action is InsertBlockDevice ==>
                match insert_result(old(self).drives(), action->InsertBlockDevice_0) {
                    Ok(l) => r == ActionStep::Respond(Ok(VmmData::Empty)) && final(self).drives() == l,
                    Err(e) => r == ActionStep::Respond(Err(VmmActionError::DriveConfig(ErrorKind::User, e)))
                        && final(self).drives() == old(self).drives(),
                },
            old(self).spec_state() != InstanceState::Uninitialized && action is UpdateBlockDevicePath
                && !has_id(old(self).drives(), action->UpdateBlockDevicePath_0@)
                ==> r == ActionStep::Respond(Err(VmmActionError::DriveConfig(ErrorKind::User, DriveError::InvalidBlockDeviceID))),
            old(self).spec_state() != InstanceState::Uninitialized && action is UpdateBlockDevicePath
                && !(old(self).spec_devices() is Some
                    && has_device(old(self).spec_devices()->0, TYPE_BLOCK, action->UpdateBlockDevicePath_0@))
                ==> r == ActionStep::Respond(Err(VmmActionError::DriveConfig(ErrorKind::User, DriveError::InvalidBlockDeviceID))),
            old(self).spec_state() != InstanceState::Uninitialized && action is ResumeFromSnapshot
                ==> r == ActionStep::Respond(Err(VmmActionError::ResumeMicrovm(ErrorKind::User,
                    ResumeMicrovmError::MicroVMInvalidState(StateError::MicroVMAlreadyRunning)))),
            old(self).spec_state() == InstanceState::Uninitialized && action is StartMicroVm ==> ({
                &&& (r is Host ==> final(self).spec_state() == InstanceState::Starting && r->Host_0 is Boot)
                &&& (r is Respond ==> final(self).spec_state() == InstanceState::Uninitialized)
                &&& final(self).spec_vm_config() == old(self).spec_vm_config()
                &&& final(self).drives() == old(self).drives()
                &&& final(self).ifaces() == old(self).ifaces()
                &&& final(self).spec_cmdline() == old(self).spec_cmdline()
                &&& (r is Respond ==> final(self).spec_devices() == old(self).spec_devices())
                &&& (old(self).spec_cmdline() is None ==> r == ActionStep::Respond(Err(
                    VmmActionError::StartMicrovm(ErrorKind::User, StartMicrovmError::MissingKernelConfig))))
            }),
            old(self).spec_state() == InstanceState::Uninitialized && action is ResumeFromSnapshot
                ==> r == ActionStep::Host(HostTask::ResumeFromSnapshot(action->ResumeFromSnapshot_0)) && *final(self) == *old(self),
            old(self).spec_state() == InstanceState::Uninitialized && action is ConfigureLogger
                ==> r == ActionStep::Host(HostTask::InitLogger(action->ConfigureLogger_0)) && *final(self) == *old(self),
            old(self).spec_state() == InstanceState::Uninitialized && action is ConfigureMetrics
                ==> r == ActionStep::Host(HostTask::InitMetrics(action->ConfigureMetrics_0)) && *final(self) == *old(self),
            old(self).spec_state() == InstanceState::Uninitialized && action is InsertNetworkDevice ==> {
                let cfg = action->InsertNetworkDevice_0;
                &&& r is Respond
                &&& (r->Respond_0 is Ok <==> !mac_conflict(old(self).ifaces(), cfg) && !host_conflict(old(self).ifaces(), cfg))
                &&& (r->Respond_0 is Ok ==> final(self).ifaces() == iface_inserted(old(self).ifaces(), cfg))
                &&& (r->Respond_0 is Err ==> final(self).ifaces() == old(self).ifaces())
            },
            old(self).spec_state() != InstanceState::Uninitialized && action is FlushMetrics
                ==> r == ActionStep::Host(HostTask::FlushMetrics) && *final(self) == *old(self),
            old(self).spec_state() != InstanceState::Uninitialized && action is SendCtrlAltDel
                ==> r == ActionStep::Host(HostTask::SendCtrlAltDel) && *final(self) == *old(self),
            old(self).spec_state() != InstanceState::Uninitialized && action is PauseToSnapshot ==> {
                &&& (r is Host <==> old(self).spec_state() == InstanceState::Running)
                &&& (r is Respond ==> r == ActionStep::Respond(Err(VmmActionError::PauseMicrovm(ErrorKind::User,
                    PauseMicrovmError::MicroVMInvalidState(StateError::MicroVMIsNotRunning)))))
            },
            old(self).spec_state() != InstanceState::Uninitialized && action is UpdateNetworkInterface ==> {
                let upd = action->UpdateNetworkInterface_0;
                &&& (r is Host <==> has_iface(old(self).ifaces(), upd.iface_id@))
                &&& (r is Respond ==> r == ActionStep::Respond(Err(VmmActionError::NetworkConfig(ErrorKind::User,
                    NetworkInterfaceError::DeviceIdNotFound))))
            },
    {
        if !self.is_instance_initialized() {
            if !preboot_accepts(&action) {
                return ActionStep::Respond(Err(VmmActionError::OperationNotSupportedPreBoot));
            }
            match action {
                VmmAction::ConfigureBootSource(cfg) => ActionStep::Respond(self.configure_boot_source(cfg)),
                VmmAction::ConfigureLogger(cfg) => ActionStep::Host(HostTask::InitLogger(cfg)),
                VmmAction::ConfigureMetrics(path) => ActionStep::Host(HostTask::InitMetrics(path)),
                VmmAction::GetVmConfiguration => ActionStep::Respond(Ok(VmmData::MachineConfiguration(self.vm_config))),
                VmmAction::InsertBlockDevice(cfg) => ActionStep::Respond(self.insert_block_device(cfg)),
                VmmAction::InsertNetworkDevice(cfg) => ActionStep::Respond(self.insert_net_device(cfg)),
                VmmAction::SetVsockDevice(cfg) => ActionStep::Respond(self.set_vsock_device(cfg)),
                VmmAction::SetVmConfiguration(cfg) => ActionStep::Respond(self.set_vm_configuration(cfg)),
                VmmAction::StartMicroVm(path) => match self.prepare_boot(path) {
                    Ok(plan) => ActionStep::Host(HostTask::Boot(plan)),
                    Err(e) => ActionStep::Respond(Err(e)),
                },
                VmmAction::ResumeFromSnapshot(path) => ActionStep::Host(HostTask::ResumeFromSnapshot(path)),
                _ => ActionStep::Respond(Err(VmmActionError::OperationNotSupportedPreBoot)),
            }
        } else {
            if !runtime_accepts(&action) {
                return ActionStep::Respond(Err(VmmActionError::OperationNotSupportedPostBoot));
            }
            match action {
                VmmAction::FlushMetrics => ActionStep::Host(HostTask::FlushMetrics),
                VmmAction::GetVmConfiguration => ActionStep::Respond(Ok(VmmData::MachineConfiguration(self.vm_config))),
                VmmAction::UpdateBlockDevicePath(drive_id, path) => match self.request_drive_swap(&drive_id, path) {
                    Ok(t) => ActionStep::Host(t),
                    Err(e) => ActionStep::Respond(Err(e)),
                },
                VmmAction::UpdateNetworkInterface(upd) => {
                    let id = upd.iface_id.clone();
                    let rx = upd.rx_rate_limiter;
                    let tx = upd.tx_rate_limiter;
                    match self.update_net_device(upd) {
                        Ok(_) => ActionStep::Host(HostTask::PatchNetRateLimiters(NetworkInterfaceUpdateConfig {
                            iface_id: id,
                            rx_rate_limiter: rx,
                            tx_rate_limiter: tx,
                        })),
                        Err(e) => ActionStep::Respond(Err(e)),
                    }
                },
                VmmAction::SendCtrlAltDel => ActionStep::Host(HostTask::SendCtrlAltDel),
                VmmAction::PauseToSnapshot => match self.request_pause_to_snapshot() {
                    Ok(t) => ActionStep::Host(t),
                    Err(e) => ActionStep::Respond(Err(e)),
                },
                VmmAction::ResumeFromSnapshot(_) => ActionStep::Respond(Err(VmmActionError::from(
                    ResumeMicrovmError::MicroVMInvalidState(StateError::MicroVMAlreadyRunning)))),
                VmmAction::RescanBlockDevice(drive_id) => match self.request_rescan(&drive_id) {
                    Ok(t) => ActionStep::Host(t),
                    Err(e) => ActionStep::Respond(Err(e)),
                },
                _ => ActionStep::Respond(Err(VmmActionError::OperationNotSupportedPostBoot)),
            }
        }
    }
}

/// Booting names the root file system on the kernel command line exactly once when a
/// root device is configured, and never otherwise: of all the fragments that booting
/// appends (drives, network interfaces, vsock, root), exactly that many start with
/// `root=`.
pub proof fn lemma_boot_root_fragment(drives: Seq<BlockDeviceConfig>, n_ifaces: nat, n_vsock: nat)
    requires
        crate::drive::drives_valid(drives),
    ensures
        crate::boot::count_root_frags(boot_frags(drives, n_ifaces, n_vsock))
            == if exists|i: int| 0 <= i < drives.len() && (#[trigger] drives[i]).is_root_device { 1nat } else { 0nat },
{
    let d = drives.len();
    let f0 = id_frags(d, MMIO_MEM_START as nat, IRQ_BASE as nat);
    let f1 = id_frags(n_ifaces, (MMIO_MEM_START + d * MMIO_LEN) as nat, (IRQ_BASE + d) as nat);
    let f2 = id_frags(n_vsock, (MMIO_MEM_START + (d + n_ifaces) * MMIO_LEN) as nat, (IRQ_BASE + d + n_ifaces) as nat);
    crate::boot::lemma_count_id_frags(d, MMIO_MEM_START as nat, IRQ_BASE as nat);
    crate::boot::lemma_count_id_frags(n_ifaces, (MMIO_MEM_START + d * MMIO_LEN) as nat, (IRQ_BASE + d) as nat);
    crate::boot::lemma_count_id_frags(n_vsock, (MMIO_MEM_START + (d + n_ifaces) * MMIO_LEN) as nat, (IRQ_BASE + d + n_ifaces) as nat);
    crate::boot::lemma_count_concat(f0, f1);
    crate::boot::lemma_count_concat(f0 + f1, f2);
    crate::boot::lemma_one_root_fragment(drives, f0 + f1 + f2);
}

} // verus!
