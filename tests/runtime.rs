use vmm::api::{check_id_chars, checked_id, method_to_error, Error as ApiError, Method, StatusCode};
use vmm::dispatch::{decide, stdin_read_outcome, DispatchTable, EpollDispatch, LoopAction};
use vmm::error::{
    Cap, CmdlineError, DriveError, Error, ErrorKind, GuestMemoryError, MmioError, NetworkInterfaceError,
    PauseMicrovmError, ResumeMicrovmError, StartMicrovmError, StateError, TapError, VmConfigError, VmmActionError,
};
use vmm::kvm_context::{required_capabilities, KvmContext, KVM_API_VERSION};
use vmm::memory::{arch_memory_regions, count_ones, dirty_page_count, guest_memory_layout, FIRST_ADDR_PAST_32BITS};
use vmm::cpuid::{BrandStringTransformer, CpuidEntry, CpuidTransformer, VmSpec};
use vmm::mmio::{build_config_space, MmioDeviceManager, IRQ_BASE, IRQ_MAX, MMIO_MEM_START, TYPE_BLOCK};
use vmm::numfmt::{format_dec, format_hex02, format_hex08};
use vmm::cmdline::Cmdline;
use vmm::timestamp::{elapsed_us, time_us_from_nanos, TimestampUs};
use vmm::vcpu::{
    check_deserialize_responses, check_resume_responses, handle_command, handle_exit, snapshot_exit_code,
    RunAction, VcpuCommand, VcpuExit, VcpuReply, VcpuResponse, VcpuState,
};
use vmm::vmm::VmmData;

fn error_kind<T>(err: T) -> ErrorKind
where
    VmmActionError: From<T>,
{
    VmmActionError::from(err).kind()
}

#[test]
fn test_drive_error_conversion() {
    assert_eq!(error_kind(DriveError::CannotOpenBlockDevice), ErrorKind::User);
    assert_eq!(error_kind(DriveError::InvalidBlockDevicePath), ErrorKind::User);
    assert_eq!(error_kind(DriveError::BlockDevicePathAlreadyExists), ErrorKind::User);
    assert_eq!(error_kind(DriveError::BlockDeviceUpdateFailed), ErrorKind::User);
    assert_eq!(error_kind(DriveError::OperationNotAllowedPreBoot), ErrorKind::User);
    assert_eq!(error_kind(DriveError::UpdateNotAllowedPostBoot), ErrorKind::User);
    assert_eq!(error_kind(DriveError::RootBlockDeviceAlreadyAdded), ErrorKind::User);
}

#[test]
fn test_vmconfig_error_conversion() {
    assert_eq!(error_kind(VmConfigError::InvalidVcpuCount), ErrorKind::User);
    assert_eq!(error_kind(VmConfigError::InvalidMemorySize), ErrorKind::User);
    assert_eq!(error_kind(VmConfigError::UpdateNotAllowedPostBoot), ErrorKind::User);
}

#[test]
fn test_network_interface_error_conversion() {
    assert_eq!(error_kind(NetworkInterfaceError::GuestMacAddressInUse(String::new())), ErrorKind::User);
    assert_eq!(error_kind(NetworkInterfaceError::EpollHandlerNotFound), ErrorKind::Internal);
    assert_eq!(error_kind(NetworkInterfaceError::HostDeviceNameInUse(String::new())), ErrorKind::User);
    assert_eq!(error_kind(NetworkInterfaceError::DeviceIdNotFound), ErrorKind::User);
    assert_eq!(error_kind(NetworkInterfaceError::OpenTap(TapError::OpenTun)), ErrorKind::User);
    assert_eq!(error_kind(NetworkInterfaceError::OpenTap(TapError::CreateTap)), ErrorKind::User);
    assert_eq!(error_kind(NetworkInterfaceError::OpenTap(TapError::IoctlError)), ErrorKind::Internal);
    assert_eq!(error_kind(NetworkInterfaceError::OpenTap(TapError::NetUtil)), ErrorKind::Internal);
    assert_eq!(error_kind(NetworkInterfaceError::OpenTap(TapError::InvalidIfname)), ErrorKind::User);
    assert_eq!(error_kind(NetworkInterfaceError::RateLimiterUpdateFailed), ErrorKind::Internal);
    assert_eq!(error_kind(NetworkInterfaceError::UpdateNotAllowedPostBoot), ErrorKind::User);
}

#[test]
fn test_start_microvm_error_conversion_cl() {
    assert_eq!(error_kind(StartMicrovmError::ConfigureSystem), ErrorKind::Internal);
    assert_eq!(error_kind(StartMicrovmError::ConfigureVm), ErrorKind::Internal);
    assert_eq!(error_kind(StartMicrovmError::CreateBlockDevice), ErrorKind::User);
    assert_eq!(error_kind(StartMicrovmError::CreateNetDevice), ErrorKind::User);
    assert_eq!(error_kind(StartMicrovmError::CreateRateLimiter), ErrorKind::Internal);
    assert_eq!(error_kind(StartMicrovmError::CreateVsockDevice), ErrorKind::User);
    assert_eq!(error_kind(StartMicrovmError::DeviceManager), ErrorKind::Internal);
    assert_eq!(error_kind(StartMicrovmError::EventFd), ErrorKind::Internal);
    assert_eq!(error_kind(StartMicrovmError::GuestMemory(GuestMemoryError::NoMemoryRegions)), ErrorKind::Internal);
    assert_eq!(error_kind(StartMicrovmError::KernelCmdline(CmdlineError::CommandLineOverflow)), ErrorKind::User);
    assert_eq!(error_kind(StartMicrovmError::KernelLoader), ErrorKind::User);
    assert_eq!(error_kind(StartMicrovmError::LegacyIOBus), ErrorKind::Internal);
    assert_eq!(error_kind(StartMicrovmError::LoadCommandline(CmdlineError::CommandLineOverflow)), ErrorKind::User);
    assert_eq!(error_kind(StartMicrovmError::LoadCommandline(CmdlineError::CommandLineCopy)), ErrorKind::Internal);
    assert_eq!(error_kind(StartMicrovmError::SnapshotBackingFile), ErrorKind::Internal);
    assert_eq!(error_kind(StartMicrovmError::MicroVMInvalidState(StateError::MicroVMAlreadyRunning)), ErrorKind::User);
    assert_eq!(error_kind(StartMicrovmError::MicroVMInvalidState(StateError::VcpusInvalidState)), ErrorKind::Internal);
}

#[test]
fn test_start_microvm_error_conversion_mv() {
    assert_eq!(error_kind(StartMicrovmError::MissingKernelConfig), ErrorKind::User);
    assert_eq!(error_kind(StartMicrovmError::NetDeviceNotConfigured), ErrorKind::User);
    assert_eq!(error_kind(StartMicrovmError::OpenBlockDevice), ErrorKind::User);
    assert_eq!(error_kind(StartMicrovmError::RegisterBlockDevice(MmioError::IrqsExhausted)), ErrorKind::Internal);
    assert_eq!(error_kind(StartMicrovmError::RegisterEvent), ErrorKind::Internal);
    assert_eq!(error_kind(StartMicrovmError::RegisterNetDevice(MmioError::IrqsExhausted)), ErrorKind::Internal);
    assert_eq!(error_kind(StartMicrovmError::SeccompFilters), ErrorKind::Internal);
    assert_eq!(error_kind(StartMicrovmError::Vcpu), ErrorKind::Internal);
    assert_eq!(error_kind(StartMicrovmError::VcpuConfigure), ErrorKind::Internal);
    assert_eq!(error_kind(StartMicrovmError::VcpusAlreadyPresent), ErrorKind::Internal);
    assert_eq!(error_kind(StartMicrovmError::VcpusNotConfigured), ErrorKind::User);
    assert_eq!(error_kind(StartMicrovmError::VcpuSpawn), ErrorKind::Internal);
    assert_eq!(error_kind(PauseMicrovmError::MicroVMInvalidState(StateError::MicroVMIsNotRunning)), ErrorKind::User);
    assert_eq!(error_kind(PauseMicrovmError::VcpuPause), ErrorKind::User);
    assert_eq!(error_kind(PauseMicrovmError::SaveVcpuState), ErrorKind::Internal);
    assert_eq!(error_kind(ResumeMicrovmError::OpenSnapshotFile), ErrorKind::User);
    assert_eq!(error_kind(ResumeMicrovmError::RestoreVcpuState), ErrorKind::Internal);
    assert_eq!(VmmActionError::OperationNotSupportedPreBoot.kind(), ErrorKind::User);
    assert_eq!(VmmActionError::OperationNotSupportedPostBoot.kind(), ErrorKind::User);
}

#[test]
fn test_checked_id() {
    assert!(checked_id("dummy").is_ok());
    assert!(checked_id("dummy_1").is_ok());
    assert_eq!(checked_id(""), Err(ApiError::EmptyID));
    assert_eq!(checked_id("dummy!!"), Err(ApiError::InvalidID));
    assert_eq!(checked_id("drive-1"), Err(ApiError::InvalidID));
    assert_eq!(checked_id("dürüm"), Ok("dürüm"));
}

#[test]
fn id_check_on_given_flags() {
    assert_eq!(check_id_chars("ab_", &vec![true, true, false]), Ok(()));
    assert_eq!(check_id_chars("ab!", &vec![true, true, false]), Err(ApiError::InvalidID));
    assert_eq!(check_id_chars("ab", &vec![true, false]), Err(ApiError::InvalidID));
    assert_eq!(check_id_chars("", &vec![]), Err(ApiError::EmptyID));
}

#[test]
fn snapshot_exit_codes() {
    assert_eq!(snapshot_exit_code(true, true), Some(0));
    assert_eq!(snapshot_exit_code(true, false), None);
    assert_eq!(snapshot_exit_code(false, true), None);
    assert_eq!(snapshot_exit_code(false, false), Some(151));
}

#[test]
fn test_invalid_methods() {
    assert_eq!(method_to_error(Method::Get), Err(ApiError::Generic(StatusCode::BadRequest, "GET request cannot have a body.".to_string())));
    assert_eq!(method_to_error(Method::Put), Err(ApiError::Generic(StatusCode::BadRequest, "Empty PUT request.".to_string())));
    assert_eq!(method_to_error(Method::Patch), Err(ApiError::Generic(StatusCode::BadRequest, "Empty PATCH request.".to_string())));
}

#[test]
fn test_device_handler() {
    let mut ep = DispatchTable::new();
    let (base, handler) = ep.allocate_tokens(1);
    assert_eq!(base, 1);
    assert_eq!(handler, 0);
    assert_eq!(ep.dispatch(1), Some(EpollDispatch::DeviceHandler(0, 0)));
    let base = ep.allocate_virtio_tokens(TYPE_BLOCK, &"0".to_string(), 2).unwrap();
    assert_eq!(base, 2);
    assert_eq!(ep.get_handler_id(TYPE_BLOCK, &"0".to_string()), Ok(1));
    assert_eq!(ep.get_handler_id(TYPE_BLOCK, &"1".to_string()), Err(Error::DeviceEventHandlerNotFound));
    assert!(ep.allocate_virtio_tokens(TYPE_BLOCK, &"0".to_string(), 2).is_err());
}

#[test]
fn new_epoll_context_test() {
    let ep = DispatchTable::new();
    assert_eq!(ep.next_index(), 1);
    assert_eq!(ep.dispatch(0), None);
}

#[test]
fn enable_disable_stdin_test() {
    let mut ep = DispatchTable::new();
    ep.enable_stdin_event();
    assert_eq!(ep.dispatch(ep.stdin_index() as u64), Some(EpollDispatch::Stdin));
    ep.disable_stdin_event();
    assert_eq!(ep.dispatch(ep.stdin_index() as u64), None);
    ep.enable_stdin_event();
    assert_eq!(ep.dispatch(0), Some(EpollDispatch::Stdin));
    ep.disable_stdin_event();
    assert_eq!(ep.next_index(), 1);
}

#[test]
fn add_event_test() {
    let mut ep = DispatchTable::new();
    assert_eq!(ep.add_event(EpollDispatch::Exit), 1);
}

#[test]
fn epoll_event_test() {
    let mut ep = DispatchTable::new();
    let idx = ep.add_event(EpollDispatch::Exit);
    assert_eq!(ep.dispatch(idx as u64), Some(EpollDispatch::Exit));
    assert_eq!(decide(ep.dispatch(idx as u64)), LoopAction::Stop(0));
    assert_eq!(decide(ep.dispatch(10)), LoopAction::Ignore);
    assert_eq!(decide(Some(EpollDispatch::DeviceHandler(3, 1))), LoopAction::Deliver(3, 1));
    assert_eq!(decide(Some(EpollDispatch::VmmActionRequest)), LoopAction::ServeApi);
    assert_eq!(stdin_read_outcome(Some(0)), None);
    assert_eq!(stdin_read_outcome(None), None);
    assert_eq!(stdin_read_outcome(Some(17)), Some(17));
}

#[test]
fn test_kvm_context() {
    let all = required_capabilities();
    let c = KvmContext::new(KVM_API_VERSION, &all, 32).ok().unwrap();
    assert_eq!(c.max_memslots(), 32);
    assert_eq!(KvmContext::new(11, &all, 32).err(), Some(Error::KvmApiVersion(11)));
    let without_irqfd: Vec<Cap> = all.iter().copied().filter(|c| *c != Cap::Irqfd && *c != Cap::Xsave).collect();
    assert_eq!(KvmContext::new(KVM_API_VERSION, &without_irqfd, 32).err(), Some(Error::KvmCap(Cap::Irqfd)));
}

#[test]
fn vcpu_command_protocol() {
    assert_eq!(handle_command(VcpuState::Created, VcpuCommand::Configure), (VcpuState::Paused, VcpuReply::Silent));
    assert_eq!(handle_command(VcpuState::Paused, VcpuCommand::Resume), (VcpuState::Running, VcpuReply::Resumed));
    assert_eq!(handle_command(VcpuState::Running, VcpuCommand::Pause), (VcpuState::Paused, VcpuReply::Paused));
    assert_eq!(handle_command(VcpuState::Running, VcpuCommand::PauseToSnapshot), (VcpuState::Paused, VcpuReply::SaveState));
    assert_eq!(handle_command(VcpuState::Paused, VcpuCommand::Deserialize), (VcpuState::Paused, VcpuReply::Deserialized));
    assert_eq!(handle_command(VcpuState::Running, VcpuCommand::Exit), (VcpuState::Exited, VcpuReply::Silent));
    assert_eq!(handle_command(VcpuState::Paused, VcpuCommand::Pause), (VcpuState::Paused, VcpuReply::NotAllowed));
    assert_eq!(handle_exit(VcpuExit::Hlt), (RunAction::Pause, VcpuState::Paused));
    assert_eq!(handle_exit(VcpuExit::Shutdown), (RunAction::ExitVm(0), VcpuState::Exited));
    assert_eq!(handle_exit(VcpuExit::Unhandled), (RunAction::ExitVm(2), VcpuState::Exited));
    assert_eq!(handle_exit(VcpuExit::Intr), (RunAction::CheckCommands, VcpuState::Running));
    assert_eq!(handle_exit(VcpuExit::IoOut), (RunAction::DispatchIo, VcpuState::Running));
}

#[test]
fn vcpu_fan_out_answers() {
    let paused = vec![Some(VcpuResponse::Paused), Some(VcpuResponse::Paused)];
    let resumed = vec![Some(VcpuResponse::Resumed)];
    assert_eq!(check_resume_responses(&resumed), Ok(VmmData::Empty));
    assert_eq!(
        check_resume_responses(&vec![Some(VcpuResponse::Resumed), None]),
        Err(VmmActionError::ResumeMicrovm(ErrorKind::User, ResumeMicrovmError::VcpuResume))
    );
    assert!(check_resume_responses(&paused).is_err());
    assert!(check_deserialize_responses(&vec![Some(VcpuResponse::Deserialized)]).is_ok());
    assert_eq!(check_deserialize_responses(&vec![Some(VcpuResponse::NotAllowed)]), Err(ResumeMicrovmError::RestoreVcpuState));
}

#[test]
fn number_rendering() {
    assert_eq!(format_dec(0), "0");
    assert_eq!(format_dec(1234567890), "1234567890");
    assert_eq!(format_hex08(0xd000_0000), "d0000000");
    assert_eq!(format_hex08(0x1000), "00001000");
    assert_eq!(format_hex08(0x1_0000_0000), "100000000");
    assert_eq!(format_hex02(0x0a), "0a");
    assert_eq!(format_hex02(0xff), "ff");
}

#[test]
fn cmdline_bounds() {
    let mut c = Cmdline::new(10);
    assert!(c.insert_str("12345").is_ok());
    assert_eq!(c.insert_str("1234"), Err(CmdlineError::CommandLineOverflow));
    assert_eq!(c.as_str(), "12345");
    assert!(c.insert_str("123").is_ok());
    assert_eq!(c.as_str(), "12345 123");
    assert_eq!(c.insert_str("x"), Err(CmdlineError::CommandLineOverflow));
    let mut c = Cmdline::new(100);
    assert_eq!(c.insert_str("tab\there"), Err(CmdlineError::InvalidAscii));
    assert_eq!(c.insert("a b", "c"), Err(CmdlineError::HasSpace));
    assert_eq!(c.insert("a=b", "c"), Err(CmdlineError::HasEquals));
    assert!(c.insert("console", "ttyS0").is_ok());
    assert_eq!(c.as_str(), "console=ttyS0");
    assert_eq!(c.len(), 13);
}

#[test]
fn mmio_allocation() {
    let mut mgr = MmioDeviceManager::new(MMIO_MEM_START, (IRQ_BASE, IRQ_MAX));
    let mut c = Cmdline::new(4096);
    let mut addrs = vec![];
    for i in 0..(IRQ_MAX - IRQ_BASE + 1) {
        addrs.push(mgr.register_virtio_device(&mut c, TYPE_BLOCK, &format!("d{}", i)).unwrap());
    }
    assert_eq!(addrs[0], 0xd000_0000);
    assert_eq!(addrs[1], 0xd000_1000);
    let before = c.as_str().to_string();
    assert_eq!(mgr.register_virtio_device(&mut c, TYPE_BLOCK, &"extra".to_string()), Err(MmioError::IrqsExhausted));
    assert_eq!(c.as_str(), before);
    assert!(before.starts_with("virtio_mmio.device=4K@0xd0000000:5 virtio_mmio.device=4K@0xd0001000:6"));
    assert_eq!(mgr.get_device(TYPE_BLOCK, &"d1".to_string()).unwrap().irq, 6);

    let mut mgr = MmioDeviceManager::new(MMIO_MEM_START, (IRQ_BASE, IRQ_MAX));
    let mut small = Cmdline::new(20);
    assert_eq!(
        mgr.register_virtio_device(&mut small, TYPE_BLOCK, &"d".to_string()),
        Err(MmioError::Cmdline(CmdlineError::CommandLineOverflow))
    );
    assert!(mgr.get_device_info().is_empty());
    let mut c = Cmdline::new(4096);
    mgr.register_virtio_device(&mut c, TYPE_BLOCK, &"d".to_string()).unwrap();
    assert_eq!(mgr.register_virtio_device(&mut c, TYPE_BLOCK, &"d".to_string()), Err(MmioError::DuplicateDevice));
}

#[test]
fn block_config_space() {
    assert_eq!(build_config_space(0), vec![0; 8]);
    assert_eq!(build_config_space(511), vec![0; 8]);
    assert_eq!(build_config_space(1 << 30), vec![0, 0, 0x20, 0, 0, 0, 0, 0]);
}

#[test]
fn memory_layout() {
    assert_eq!(arch_memory_regions(128 << 20), vec![(0, 128 << 20)]);
    assert_eq!(arch_memory_regions(MMIO_MEM_START), vec![(0, MMIO_MEM_START)]);
    assert_eq!(
        arch_memory_regions(4 << 30),
        vec![(0, MMIO_MEM_START), (FIRST_ADDR_PAST_32BITS, (4 << 30) - MMIO_MEM_START)]
    );
    let r = guest_memory_layout(4096, 1000).unwrap();
    assert_eq!(r.len(), 2);
    assert_eq!(r[0].file_offset, 1000);
    assert_eq!(r[1].file_offset, 1000 + MMIO_MEM_START);
    assert_eq!(guest_memory_layout(0, 0).err(), Some(GuestMemoryError::NoMemoryRegions));
}

#[test]
fn timestamps() {
    assert_eq!(time_us_from_nanos(Some(1_000_000_444)), 1_000_000);
    assert_eq!(time_us_from_nanos(Some(-5)), 0);
    assert_eq!(time_us_from_nanos(None), 0);
    let t0 = TimestampUs { time_us: 100, cputime_us: 50 };
    let t1 = TimestampUs { time_us: 350, cputime_us: 40 };
    assert_eq!(elapsed_us(&t0, &t1), (250, 0));
    assert_eq!(TimestampUs::default(), TimestampUs { time_us: 0, cputime_us: 0 });
}

#[test]
fn dirty_pages_counted() {
    assert_eq!(count_ones(0), 0);
    assert_eq!(count_ones(0b1011), 3);
    assert_eq!(count_ones(u64::MAX), 64);
    assert_eq!(dirty_page_count(&vec![vec![0b1, 0b11], vec![], vec![u64::MAX]]), 67);
    assert_eq!(dirty_page_count(&vec![]), 0);
}

#[test]
fn cpuid_brand_string_leaves() {
    let brand = b"Intel(R) Xeon(R) Processor".to_vec();
    let spec = VmSpec::new(*b"GenuineIntel", &brand, 0, 2, false);
    assert_eq!(spec.cpu_vendor_id(), b"GenuineIntel");
    let leaf = |function: u32| CpuidEntry { function, index: 0, flags: 0, eax: 1, ebx: 2, ecx: 3, edx: 4 };
    let mut entries = vec![leaf(0x1), leaf(0x8000_0002), leaf(0x8000_0003), leaf(0x8000_0004), leaf(0x8000_0005)];
    BrandStringTransformer {}.process_cpuid(&mut entries, &spec).unwrap();
    assert_eq!(entries.len(), 5);
    assert_eq!(entries[0], leaf(0x1));
    assert_eq!(entries[4], leaf(0x8000_0005));
    assert_eq!(entries[1].eax, u32::from_le_bytes(*b"Inte"));
    assert_eq!(entries[1].ebx, u32::from_le_bytes(*b"l(R)"));
    assert_eq!(entries[2].eax, u32::from_le_bytes(*b" Pro"));
    assert_eq!(entries[2].ebx, u32::from_le_bytes(*b"cess"));
    assert_eq!(entries[2].ecx, u32::from_le_bytes([b'o', b'r', 0, 0]));
    assert_eq!(entries[3].edx, 0);
    // Flags of a brand leaf and non-brand leaves are untouched.
    assert_eq!(entries[1].flags, 0);
    assert_eq!(entries[1].function, 0x8000_0002);
}

#[test]
fn cmdline_overflow_is_user_error() {
    assert_eq!(
        error_kind(StartMicrovmError::RegisterBlockDevice(MmioError::Cmdline(CmdlineError::CommandLineOverflow))),
        ErrorKind::User
    );
    assert_eq!(error_kind(StartMicrovmError::RegisterNetDevice(MmioError::AddressOverflow)), ErrorKind::Internal);
    assert_eq!(error_kind(StartMicrovmError::RegisterVsockDevice(MmioError::IrqsExhausted)), ErrorKind::Internal);
}
