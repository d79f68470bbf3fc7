//! The error taxonomy of control actions: each error has a category (the variant of
//! `VmmActionError`) and a kind (`User` or `Internal`).

use vstd::prelude::*;

verus! {

/// Types of errors associated with VMM actions.
#[derive(Clone, Copy, Debug, PartialEq, Eq, Structural)]
pub enum ErrorKind {
    /// Bad configuration or a request that does not fit the current state.
    User,
    /// Host misconfiguration, resource exhaustion or a logic error.
    Internal,
}

/// Errors of the `ConfigureBootSource` action.
#[derive(Clone, Copy, Debug, PartialEq, Eq, Structural)]
pub enum BootSourceConfigError {
    /// The kernel image cannot be opened.
    InvalidKernelPath,
    /// The kernel command line does not fit or holds invalid characters.
    InvalidKernelCommandLine,
    /// The boot source cannot change once the microVM started.
    UpdateNotAllowedPostBoot,
}

/// Errors of the block device actions.
#[derive(Clone, Copy, Debug, PartialEq, Eq, Structural)]
pub enum DriveError {
    /// The backing file cannot be opened.
    CannotOpenBlockDevice,
    /// No drive has the given id.
    InvalidBlockDeviceID,
    /// The backing file path is not valid.
    InvalidBlockDevicePath,
    /// Another drive already uses this backing file.
    BlockDevicePathAlreadyExists,
    /// The device has no event handler yet.
    EpollHandlerNotFound,
    /// The live device could not be updated.
    BlockDeviceUpdateFailed,
    /// The operation needs a running microVM.
    OperationNotAllowedPreBoot,
    /// The operation is not allowed once the microVM started.
    UpdateNotAllowedPostBoot,
    /// Another drive is already the root device.
    RootBlockDeviceAlreadyAdded,
}

/// Errors of the machine configuration actions.
#[derive(Clone, Copy, Debug, PartialEq, Eq, Structural)]
pub enum VmConfigError {
    /// The vCPU count is zero, or odd and above one with hyper-threading.
    InvalidVcpuCount,
    /// The memory size is zero.
    InvalidMemorySize,
    /// The configuration cannot change once the microVM started.
    UpdateNotAllowedPostBoot,
}

/// Errors met while opening a tap device.
#[derive(Clone, Copy, Debug, PartialEq, Eq, Structural)]
pub enum TapError {
    /// The tun clone device cannot be opened.
    OpenTun,
    /// The tap interface cannot be created.
    CreateTap,
    /// The interface name is not valid.
    InvalidIfname,
    /// An ioctl on the tap failed.
    IoctlError,
    /// A socket helper failed.
    NetUtil,
}

/// Errors of the network interface actions.
#[derive(Clone, Debug, PartialEq, Eq)]
pub enum NetworkInterfaceError {
    /// Another interface already has this guest MAC address.
    GuestMacAddressInUse(String),
    /// Another interface already uses this host device.
    HostDeviceNameInUse(String),
    /// No interface has the given id.
    DeviceIdNotFound,
    /// The tap device cannot be opened.
    OpenTap(TapError),
    /// The device has no event handler yet.
    EpollHandlerNotFound,
    /// The rate limiters of the live device could not be updated.
    RateLimiterUpdateFailed,
    /// The operation is not allowed once the microVM started.
    UpdateNotAllowedPostBoot,
}

/// Errors of the vsock device action.
#[derive(Clone, Copy, Debug, PartialEq, Eq, Structural)]
pub enum VsockError {
    /// The operation is not allowed once the microVM started.
    UpdateNotAllowedPostBoot,
}

/// Errors of the logger and metrics actions.
#[derive(Clone, Debug, PartialEq, Eq)]
pub enum LoggerConfigError {
    /// The logger could not be initialized.
    InitializationFailure(String),
    /// The metrics could not be flushed.
    FlushMetrics(String),
}

/// The microVM is not in a state that allows the action.
#[derive(Clone, Copy, Debug, PartialEq, Eq, Structural)]
pub enum StateError {
    /// The microVM was already started.
    MicroVMAlreadyRunning,
    /// The microVM was not started.
    MicroVMIsNotRunning,
    /// Some vCPU is not in the expected state.
    VcpusInvalidState,
}

/// Errors of the kernel command line buffer.
#[derive(Clone, Copy, Debug, PartialEq, Eq, Structural)]
pub enum CmdlineError {
    /// A character outside printable ASCII.
    InvalidAscii,
    /// A key holds a space.
    HasSpace,
    /// A key holds an equals sign.
    HasEquals,
    /// The text does not fit in the bounded buffer.
    CommandLineOverflow,
    /// The command line could not be copied into guest memory.
    CommandLineCopy,
}

/// Errors of the guest memory layout.
#[derive(Clone, Copy, Debug, PartialEq, Eq, Structural)]
pub enum GuestMemoryError {
    /// The memory size is not known.
    MemoryNotInitialized,
    /// The layout has no region.
    NoMemoryRegions,
    /// The regions do not fit in the address space or in the slot budget.
    MemoryRegionOverlap,
}

/// Errors of the MMIO device manager.
#[derive(Clone, Copy, Debug, PartialEq, Eq, Structural)]
pub enum MmioError {
    /// The reserved interrupt range is used up.
    IrqsExhausted,
    /// The next MMIO window would overflow the address space.
    AddressOverflow,
    /// The device fragment does not fit in the kernel command line.
    Cmdline(CmdlineError),
    /// A device with this type and id is already registered.
    DuplicateDevice,
}

/// Errors of the `StartMicroVm` action.
#[derive(Clone, Copy, Debug, PartialEq, Eq, Structural)]
pub enum StartMicrovmError {
    /// The block device cannot be created.
    CreateBlockDevice,
    /// The net device cannot be created.
    CreateNetDevice,
    /// The vsock device cannot be created.
    CreateVsockDevice,
    /// The kernel command line cannot take a fragment.
    KernelCmdline(CmdlineError),
    /// The kernel image cannot be loaded.
    KernelLoader,
    /// The command line cannot be staged in guest memory.
    LoadCommandline(CmdlineError),
    /// No boot source was configured.
    MissingKernelConfig,
    /// A network interface has no tap device.
    NetDeviceNotConfigured,
    /// A block device backing file cannot be opened.
    OpenBlockDevice,
    /// The vCPU count is not configured.
    VcpusNotConfigured,
    /// The vsock device cannot be registered.
    RegisterVsockDevice(MmioError),
    /// The snapshot backing file cannot be created.
    SnapshotBackingFile,
    /// The platform configuration cannot be written.
    ConfigureSystem,
    /// The VM cannot be configured.
    ConfigureVm,
    /// A rate limiter cannot be created.
    CreateRateLimiter,
    /// The device manager is missing.
    DeviceManager,
    /// An event fd cannot be created.
    EventFd,
    /// The guest memory cannot be set up.
    GuestMemory(GuestMemoryError),
    /// The legacy devices cannot be attached.
    LegacyIOBus,
    /// The block device cannot be registered.
    RegisterBlockDevice(MmioError),
    /// An event cannot be registered with the demultiplexer.
    RegisterEvent,
    /// An MMIO device cannot be registered.
    RegisterMMIODevice(MmioError),
    /// The net device cannot be registered.
    RegisterNetDevice(MmioError),
    /// The seccomp filters cannot be installed.
    SeccompFilters,
    /// A vCPU cannot be signalled.
    SignalVcpu,
    /// A vCPU cannot be created.
    Vcpu,
    /// A vCPU cannot be configured.
    VcpuConfigure,
    /// The vCPUs were already created.
    VcpusAlreadyPresent,
    /// A vCPU thread cannot be spawned.
    VcpuSpawn,
    /// The microVM is not in a state that allows starting it.
    MicroVMInvalidState(StateError),
}

/// Errors of the `PauseToSnapshot` and `PauseVCPUs` actions.
#[derive(Clone, Copy, Debug, PartialEq, Eq, Structural)]
pub enum PauseMicrovmError {
    /// The microVM is not in a state that allows pausing it.
    MicroVMInvalidState(StateError),
    /// The snapshot file cannot be opened.
    OpenSnapshotFile,
    /// Some vCPU did not answer the pause command in time.
    VcpuPause,
    /// No snapshot image is attached to the microVM.
    InvalidSnapshot,
    /// The MMIO device state cannot be saved.
    SaveMmioDeviceState,
    /// The VM-wide state cannot be saved.
    SaveVmState,
    /// A vCPU reported a failure to save its state.
    SaveVcpuState,
    /// The vCPUs cannot be stopped.
    StopVcpus,
    /// The guest memory cannot be flushed.
    SyncMemory,
    /// A vCPU cannot be signalled.
    SignalVcpu,
    /// A vCPU state cannot be written to the image.
    SerializeVcpu,
    /// The snapshot header cannot be written.
    SyncHeader,
}

/// Errors of the `ResumeFromSnapshot` and `ResumeVCPUs` actions.
#[derive(Clone, Copy, Debug, PartialEq, Eq, Structural)]
pub enum ResumeMicrovmError {
    /// The microVM is not in a state that allows resuming it.
    MicroVMInvalidState(StateError),
    /// The snapshot file cannot be opened or is not valid.
    OpenSnapshotFile,
    /// Some vCPU did not answer the resume command in time.
    VcpuResume,
    /// A vCPU state cannot be read from the image.
    DeserializeVcpu,
    /// The VM-wide state cannot be restored.
    RestoreVmState,
    /// Some vCPU did not acknowledge its restored state.
    RestoreVcpuState,
    /// A vCPU cannot be signalled.
    SignalVcpu,
    /// A boot step failed while resuming.
    StartMicroVm(StartMicrovmError),
}

/// Errors of the keyboard controller used for CTRL+ALT+DEL.
#[derive(Clone, Copy, Debug, PartialEq, Eq, Structural)]
pub enum I8042DeviceError {
    /// The guest disabled the keyboard interrupt.
    KbdInterruptDisabled,
    /// The keyboard buffer is full.
    InternalBufferFull,
}

/// Wrapper for all errors associated with VMM actions.
#[derive(Clone, Debug, PartialEq, Eq)]
pub enum VmmActionError {
    /// `ConfigureBootSource` failed.
    BootSource(ErrorKind, BootSourceConfigError),
    /// `InsertBlockDevice`, `RescanBlockDevice` or `UpdateBlockDevicePath` failed.
    DriveConfig(ErrorKind, DriveError),
    /// `ConfigureLogger`, `ConfigureMetrics` or `FlushMetrics` failed.
    Logger(ErrorKind, LoggerConfigError),
    /// `SetVmConfiguration` failed.
    MachineConfig(ErrorKind, VmConfigError),
    /// `InsertNetworkDevice` or `UpdateNetworkInterface` failed.
    NetworkConfig(ErrorKind, NetworkInterfaceError),
    /// `PauseToSnapshot` or `PauseVCPUs` failed.
    PauseMicrovm(ErrorKind, PauseMicrovmError),
    /// `ResumeFromSnapshot` or `ResumeVCPUs` failed.
    ResumeMicrovm(ErrorKind, ResumeMicrovmError),
    /// `StartMicroVm` failed.
    StartMicrovm(ErrorKind, StartMicrovmError),
    /// `SendCtrlAltDel` failed.
    SendCtrlAltDel(ErrorKind, I8042DeviceError),
    /// `SetVsockDevice` failed.
    VsockConfig(ErrorKind, VsockError),
    /// The action is not accepted before boot.
    OperationNotSupportedPreBoot,
    /// The action is not accepted after boot.
    OperationNotSupportedPostBoot,
}

/// KVM capabilities the VMM needs.
#[derive(Clone, Copy, Debug, PartialEq, Eq, Structural)]
pub enum Cap {
    /// In-kernel interrupt controller.
    Irqchip,
    /// Event fds for guest writes.
    Ioeventfd,
    /// Event fds for guest interrupts.
    Irqfd,
    /// Forcing an immediate exit from the run call.
    ImmediateExit,
    /// Setting the TSS address.
    SetTssAddr,
    /// User memory regions.
    UserMemory,
    /// MSR feature queries.
    MsrFeatures,
    /// vCPU event state.
    VcpuEvents,
    /// Debug registers.
    Debugregs,
    /// XSAVE state.
    Xsave,
    /// Extended control registers.
    Xcrs,
}

/// Errors of the VMM's own machinery: host misconfiguration or resource exhaustion,
/// never direct user input.
#[derive(Clone, Copy, Debug, PartialEq, Eq, Structural)]
pub enum Error {
    /// No message could be received from the API.
    ApiChannel,
    /// A legacy device could not be created.
    CreateLegacyDevice,
    /// An operation on the event demultiplexer failed.
    EpollFd,
    /// An event fd could not be read.
    EventFd,
    /// An event arrived for a device whose handler is not known yet.
    DeviceEventHandlerNotFound,
    /// A device handler is not of the expected kind.
    DeviceEventHandlerInvalidDowncast,
    /// The KVM device cannot be opened.
    Kvm,
    /// The host reports this KVM API version instead of the supported one.
    KvmApiVersion(i32),
    /// The host lacks this KVM capability.
    KvmCap(Cap),
    /// Waiting on the demultiplexer failed.
    Poll,
    /// Writing to the serial console failed.
    Serial,
    /// The metrics timer cannot be created.
    TimerFd,
    /// The VM cannot be created.
    Vm,
}

/// Every drive error is the caller's doing.
pub open spec fn drive_error_kind(e: DriveError) -> ErrorKind {
    ErrorKind::User
}

/// Every machine configuration error is the caller's doing.
pub open spec fn vm_config_error_kind(e: VmConfigError) -> ErrorKind {
    ErrorKind::User
}

/// Kind of a network interface error: conflicts and unknown ids are the caller's doing,
/// failures of the live device are internal; a tap error depends on its cause.
pub open spec fn net_error_kind(e: NetworkInterfaceError) -> ErrorKind {
    match e {
        NetworkInterfaceError::EpollHandlerNotFound => ErrorKind::Internal,
        NetworkInterfaceError::RateLimiterUpdateFailed => ErrorKind::Internal,
        NetworkInterfaceError::OpenTap(t) => match t {
            TapError::IoctlError => ErrorKind::Internal,
            TapError::NetUtil => ErrorKind::Internal,
            _ => ErrorKind::User,
        },
        _ => ErrorKind::User,
    }
}

/// Kind of a state error: a wrong lifecycle state is the caller's doing, a vCPU
/// out of step is internal.
pub open spec fn state_error_kind(e: StateError) -> ErrorKind {
    match e {
        StateError::VcpusInvalidState => ErrorKind::Internal,
        _ => ErrorKind::User,
    }
}

/// Kind of a pause error.
pub open spec fn pause_error_kind(e: PauseMicrovmError) -> ErrorKind {
    match e {
        PauseMicrovmError::MicroVMInvalidState(s) => state_error_kind(s),
        PauseMicrovmError::OpenSnapshotFile => ErrorKind::User,
        PauseMicrovmError::VcpuPause => ErrorKind::User,
        _ => ErrorKind::Internal,
    }
}

/// Kind of a resume error.
pub open spec fn resume_error_kind(e: ResumeMicrovmError) -> ErrorKind {
    match e {
        ResumeMicrovmError::MicroVMInvalidState(s) => state_error_kind(s),
        ResumeMicrovmError::OpenSnapshotFile => ErrorKind::User,
        ResumeMicrovmError::VcpuResume => ErrorKind::User,
        _ => ErrorKind::Internal,
    }
}

/// Kind of a device registration error: a full command line is the caller's doing
/// (too many devices or too long boot arguments), the rest is internal.
pub open spec fn mmio_error_kind(e: MmioError) -> ErrorKind {
    if e == MmioError::Cmdline(CmdlineError::CommandLineOverflow) {
        ErrorKind::User
    } else {
        ErrorKind::Internal
    }
}

fn mmio_kind(e: MmioError) -> (r: ErrorKind)
    ensures
        r == mmio_error_kind(e),
{
    match e {
        MmioError::Cmdline(CmdlineError::CommandLineOverflow) => ErrorKind::User,
        _ => ErrorKind::Internal,
    }
}

/// Kind of a start error: bad configuration is the caller's doing, a failing host
/// resource is internal. Of the command line errors only an overflow is the caller's
/// doing.
pub open spec fn start_error_kind(e: StartMicrovmError) -> ErrorKind {
    match e {
        StartMicrovmError::CreateBlockDevice => ErrorKind::User,
        StartMicrovmError::CreateNetDevice => ErrorKind::User,
        StartMicrovmError::CreateVsockDevice => ErrorKind::User,
        StartMicrovmError::KernelCmdline(_) => ErrorKind::User,
        StartMicrovmError::KernelLoader => ErrorKind::User,
        StartMicrovmError::MissingKernelConfig => ErrorKind::User,
        StartMicrovmError::NetDeviceNotConfigured => ErrorKind::User,
        StartMicrovmError::OpenBlockDevice => ErrorKind::User,
        StartMicrovmError::VcpusNotConfigured => ErrorKind::User,
        StartMicrovmError::LoadCommandline(c) => if c == CmdlineError::CommandLineOverflow {
            ErrorKind::User
        } else {
            ErrorKind::Internal
        },
        StartMicrovmError::MicroVMInvalidState(s) => state_error_kind(s),
        StartMicrovmError::RegisterBlockDevice(m) => mmio_error_kind(m),
        StartMicrovmError::RegisterNetDevice(m) => mmio_error_kind(m),
        StartMicrovmError::RegisterVsockDevice(m) => mmio_error_kind(m),
        StartMicrovmError::RegisterMMIODevice(m) => mmio_error_kind(m),
        _ => ErrorKind::Internal,
    }
}

fn state_kind(e: StateError) -> (r: ErrorKind)
    ensures
        r == state_error_kind(e),
{
    match e {
        StateError::VcpusInvalidState => ErrorKind::Internal,
        _ => ErrorKind::User,
    }
}

impl From<DriveError> for VmmActionError {
    fn from(e: DriveError) -> (r: VmmActionError)
        ensures
            r == VmmActionError::DriveConfig(drive_error_kind(e), e),
    {
        VmmActionError::DriveConfig(ErrorKind::User, e)
    }
}

impl vstd::std_specs::convert::FromSpecImpl<DriveError> for VmmActionError {
    open spec fn obeys_from_spec() -> bool {
        true
    }

    open spec fn from_spec(e: DriveError) -> VmmActionError {
        VmmActionError::DriveConfig(drive_error_kind(e), e)
    }
}

impl From<VmConfigError> for VmmActionError {
    fn from(e: VmConfigError) -> (r: VmmActionError)
        ensures
            r == VmmActionError::MachineConfig(vm_config_error_kind(e), e),
    {
        VmmActionError::MachineConfig(ErrorKind::User, e)
    }
}

impl vstd::std_specs::convert::FromSpecImpl<VmConfigError> for VmmActionError {
    open spec fn obeys_from_spec() -> bool {
        true
    }

    open spec fn from_spec(e: VmConfigError) -> VmmActionError {
        VmmActionError::MachineConfig(vm_config_error_kind(e), e)
    }
}

impl From<NetworkInterfaceError> for VmmActionError {
    fn from(e: NetworkInterfaceError) -> (r: VmmActionError)
        ensures
            r == VmmActionError::NetworkConfig(net_error_kind(e), e),
    {
        let kind = match &e {
            NetworkInterfaceError::EpollHandlerNotFound => ErrorKind::Internal,
            NetworkInterfaceError::RateLimiterUpdateFailed => ErrorKind::Internal,
            NetworkInterfaceError::OpenTap(t) => match t {
                TapError::IoctlError => ErrorKind::Internal,
                TapError::NetUtil => ErrorKind::Internal,
                _ => ErrorKind::User,
            },
            _ => ErrorKind::User,
        };
        VmmActionError::NetworkConfig(kind, e)
    }
}

impl vstd::std_specs::convert::FromSpecImpl<NetworkInterfaceError> for VmmActionError {
    open spec fn obeys_from_spec() -> bool {
        true
    }

    open spec fn from_spec(e: NetworkInterfaceError) -> VmmActionError {
        VmmActionError::NetworkConfig(net_error_kind(e), e)
    }
}

impl From<PauseMicrovmError> for VmmActionError {
    fn from(e: PauseMicrovmError) -> (r: VmmActionError)
        ensures
            r == VmmActionError::PauseMicrovm(pause_error_kind(e), e),
    {
        let kind = match e {
            PauseMicrovmError::MicroVMInvalidState(s) => state_kind(s),
            PauseMicrovmError::OpenSnapshotFile => ErrorKind::User,
            PauseMicrovmError::VcpuPause => ErrorKind::User,
            _ => ErrorKind::Internal,
        };
        VmmActionError::PauseMicrovm(kind, e)
    }
}

impl vstd::std_specs::convert::FromSpecImpl<PauseMicrovmError> for VmmActionError {
    open spec fn obeys_from_spec() -> bool {
        true
    }

    open spec fn from_spec(e: PauseMicrovmError) -> VmmActionError {
        VmmActionError::PauseMicrovm(pause_error_kind(e), e)
    }
}

impl From<ResumeMicrovmError> for VmmActionError {
    fn from(e: ResumeMicrovmError) -> (r: VmmActionError)
        ensures
            r == VmmActionError::ResumeMicrovm(resume_error_kind(e), e),
    {
        let kind = match e {
            ResumeMicrovmError::MicroVMInvalidState(s) => state_kind(s),
            ResumeMicrovmError::OpenSnapshotFile => ErrorKind::User,
            ResumeMicrovmError::VcpuResume => ErrorKind::User,
            _ => ErrorKind::Internal,
        };
        VmmActionError::ResumeMicrovm(kind, e)
    }
}

impl vstd::std_specs::convert::FromSpecImpl<ResumeMicrovmError> for VmmActionError {
    open spec fn obeys_from_spec() -> bool {
        true
    }

    open spec fn from_spec(e: ResumeMicrovmError) -> VmmActionError {
        VmmActionError::ResumeMicrovm(resume_error_kind(e), e)
    }
}

impl From<StartMicrovmError> for VmmActionError {
    fn from(e: StartMicrovmError) -> (r: VmmActionError)
        ensures
            r == VmmActionError::StartMicrovm(start_error_kind(e), e),
    {
        let kind = match e {
            StartMicrovmError::CreateBlockDevice => ErrorKind::User,
            StartMicrovmError::CreateNetDevice => ErrorKind::User,
            StartMicrovmError::CreateVsockDevice => ErrorKind::User,
            StartMicrovmError::KernelCmdline(_) => ErrorKind::User,
            StartMicrovmError::KernelLoader => ErrorKind::User,
            StartMicrovmError::MissingKernelConfig => ErrorKind::User,
            StartMicrovmError::NetDeviceNotConfigured => ErrorKind::User,
            StartMicrovmError::OpenBlockDevice => ErrorKind::User,
            StartMicrovmError::VcpusNotConfigured => ErrorKind::User,
            StartMicrovmError::LoadCommandline(c) => match c {
                CmdlineError::CommandLineOverflow => ErrorKind::User,
                _ => ErrorKind::Internal,
            },
            StartMicrovmError::MicroVMInvalidState(s) => state_kind(s),
            StartMicrovmError::RegisterBlockDevice(m) => mmio_kind(m),
            StartMicrovmError::RegisterNetDevice(m) => mmio_kind(m),
            StartMicrovmError::RegisterVsockDevice(m) => mmio_kind(m),
            StartMicrovmError::RegisterMMIODevice(m) => mmio_kind(m),
            _ => ErrorKind::Internal,
        };
        VmmActionError::StartMicrovm(kind, e)
    }
}

impl vstd::std_specs::convert::FromSpecImpl<StartMicrovmError> for VmmActionError {
    open spec fn obeys_from_spec() -> bool {
        true
    }

    open spec fn from_spec(e: StartMicrovmError) -> VmmActionError {
        VmmActionError::StartMicrovm(start_error_kind(e), e)
    }
}

impl VmmActionError {
    /// The kind recorded in the error; an operation refused in the current phase
    /// is the caller's doing.
    pub open spec fn spec_kind(self) -> ErrorKind {
        match self {
            VmmActionError::BootSource(k, _) => k,
            VmmActionError::DriveConfig(k, _) => k,
            VmmActionError::Logger(k, _) => k,
            VmmActionError::MachineConfig(k, _) => k,
            VmmActionError::NetworkConfig(k, _) => k,
            VmmActionError::PauseMicrovm(k, _) => k,
            VmmActionError::ResumeMicrovm(k, _) => k,
            VmmActionError::StartMicrovm(k, _) => k,
            VmmActionError::SendCtrlAltDel(k, _) => k,
            VmmActionError::VsockConfig(k, _) => k,
            VmmActionError::OperationNotSupportedPreBoot => ErrorKind::User,
            VmmActionError::OperationNotSupportedPostBoot => ErrorKind::User,
        }
    }

    /// Returns the error kind.
    pub fn kind(&self) -> (r: ErrorKind)
        ensures
            r == self.spec_kind(),
    {
        match self {
            VmmActionError::BootSource(k, _) => *k,
            VmmActionError::DriveConfig(k, _) => *k,
            VmmActionError::Logger(k, _) => *k,
            VmmActionError::MachineConfig(k, _) => *k,
            VmmActionError::NetworkConfig(k, _) => *k,
            VmmActionError::PauseMicrovm(k, _) => *k,
            VmmActionError::ResumeMicrovm(k, _) => *k,
            VmmActionError::StartMicrovm(k, _) => *k,
            VmmActionError::SendCtrlAltDel(k, _) => *k,
            VmmActionError::VsockConfig(k, _) => *k,
            VmmActionError::OperationNotSupportedPreBoot => ErrorKind::User,
            VmmActionError::OperationNotSupportedPostBoot => ErrorKind::User,
        }
    }
}

} // verus!
