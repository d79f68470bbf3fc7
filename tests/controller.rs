use vmm::drive::BlockDeviceConfig;
use vmm::error::{DriveError, ErrorKind, PauseMicrovmError, ResumeMicrovmError, StateError, VmmActionError};
use vmm::machine_config::VmConfig;
use vmm::cmdline::Cmdline;
use vmm::mmio::{build_config_space, MmioDeviceManager, TYPE_BLOCK, TYPE_NET};
use vmm::net::NetworkInterfaceConfig;
use vmm::vmm::{ActionStep, BootSourceConfig, HostTask, InstanceState, Vmm, VmmAction, VmmData};

fn drive(id: &str, path: &str, root: bool, partuuid: Option<&str>, ro: bool) -> BlockDeviceConfig {
    BlockDeviceConfig {
        drive_id: id.to_string(),
        path_on_host: path.to_string(),
        is_root_device: root,
        partuuid: partuuid.map(|p| p.to_string()),
        is_read_only: ro,
        rate_limiter: None,
    }
}

fn netif(id: &str, host: &str) -> NetworkInterfaceConfig {
    NetworkInterfaceConfig {
        iface_id: id.to_string(),
        host_dev_name: host.to_string(),
        guest_mac: None,
        rx_rate_limiter: None,
        tx_rate_limiter: None,
        allow_mmds_requests: false,
    }
}

fn boot_source() -> BootSourceConfig {
    BootSourceConfig { kernel_image_path: "/tmp/vmlinux".to_string(), boot_args: None }
}

fn respond(step: ActionStep) -> Result<VmmData, VmmActionError> {
    match step {
        ActionStep::Respond(r) => r,
        ActionStep::Host(_) => panic!("expected an answer"),
    }
}

fn boot_through_controller(vmm: &mut Vmm) -> String {
    match vmm.handle_request(VmmAction::StartMicroVm(None)) {
        ActionStep::Host(HostTask::Boot(plan)) => {
            assert_eq!(vmm.instance_state(), InstanceState::Starting);
            assert!(vmm.finish_boot(Ok(())).is_ok());
            plan.cmdline
        },
        _ => panic!("expected a boot plan"),
    }
}

#[test]
fn test_attach_block_devices() {
    // Case 1: the root device has no PARTUUID.
    let mut vmm = Vmm::new();
    vmm.configure_boot_source(boot_source()).unwrap();
    vmm.insert_block_device(drive("root", "/tmp/blk", true, None, false)).unwrap();
    let plan = vmm.prepare_boot(None).ok().unwrap();
    assert!(plan.cmdline.contains("root=/dev/vda rw"));

    // Case 2: the root device is given by PARTUUID.
    let mut vmm = Vmm::new();
    vmm.configure_boot_source(boot_source()).unwrap();
    vmm.insert_block_device(drive("root", "/tmp/blk", true, Some("0eaa91a0-01"), false)).unwrap();
    let plan = vmm.prepare_boot(None).ok().unwrap();
    assert!(plan.cmdline.contains("root=PARTUUID=0eaa91a0-01 rw"));

    // Case 3: no root device.
    let mut vmm = Vmm::new();
    vmm.configure_boot_source(boot_source()).unwrap();
    vmm.insert_block_device(drive("not_root", "/tmp/blk", false, Some("0eaa91a0-01"), false)).unwrap();
    let plan = vmm.prepare_boot(None).ok().unwrap();
    assert!(!plan.cmdline.contains("root=PARTUUID="));
    assert!(!plan.cmdline.contains("root=/dev/vda"));
    assert!(plan.devices.iter().any(|d| d.type_id == TYPE_BLOCK && d.device_id == "not_root"));
}

#[test]
fn read_only_root_is_mounted_ro() {
    let mut vmm = Vmm::new();
    vmm.configure_boot_source(boot_source()).unwrap();
    vmm.insert_block_device(drive("root", "/tmp/blk", true, None, true)).unwrap();
    let plan = vmm.prepare_boot(None).ok().unwrap();
    assert!(plan.cmdline.contains("root=/dev/vda ro"));
}

#[test]
fn boot_cmdline_exact() {
    let mut vmm = Vmm::new();
    vmm.configure_boot_source(BootSourceConfig {
        kernel_image_path: "/tmp/vmlinux".to_string(),
        boot_args: Some("console=ttyS0".to_string()),
    })
    .unwrap();
    vmm.insert_block_device(drive("rootfs", "/tmp/rootfs", true, None, false)).unwrap();
    vmm.insert_block_device(drive("scratch", "/tmp/scratch", false, None, true)).unwrap();
    vmm.insert_net_device(netif("eth0", "tap0")).unwrap();
    let plan = vmm.prepare_boot(None).ok().unwrap();
    assert_eq!(
        plan.cmdline,
        "console=ttyS0 virtio_mmio.device=4K@0xd0000000:5 virtio_mmio.device=4K@0xd0001000:6 \
         virtio_mmio.device=4K@0xd0002000:7 root=/dev/vda rw"
    );
    assert_eq!(plan.devices.len(), 3);
    assert_eq!(plan.devices[0].device_id, "rootfs");
    assert_eq!(plan.devices[0].info.addr, 0xd000_0000);
    assert_eq!(plan.devices[0].info.irq, 5);
    assert_eq!(plan.devices[1].device_id, "scratch");
    assert_eq!(plan.devices[2].type_id, TYPE_NET);
    assert_eq!(plan.devices[2].info.addr, 0xd000_2000);
    assert_eq!(plan.memory.len(), 1);
    assert_eq!(plan.memory[0].size, 128 << 20);
}

#[test]
fn boot_scenario_root_rw() {
    // ConfigureBootSource, InsertBlockDevice(root, rw), SetVmConfiguration, StartMicroVm.
    let mut vmm = Vmm::new();
    assert!(respond(vmm.handle_request(VmmAction::ConfigureBootSource(boot_source()))).is_ok());
    assert!(respond(vmm.handle_request(VmmAction::InsertBlockDevice(drive("root", "/tmp/rootfs", true, None, false)))).is_ok());
    let cfg = VmConfig { vcpu_count: Some(1), mem_size_mib: Some(128), ht_enabled: Some(false), cpu_template: None };
    assert!(respond(vmm.handle_request(VmmAction::SetVmConfiguration(cfg))).is_ok());
    let cmdline = boot_through_controller(&mut vmm);
    assert_eq!(vmm.instance_state(), InstanceState::Running);
    // The root fragments come after the device announcement.
    assert!(cmdline.ends_with("virtio_mmio.device=4K@0xd0000000:5 root=/dev/vda rw"));
    // The booted command line is the one the VMM keeps.
    assert_eq!(vmm.kernel_cmdline(), Some(cmdline.as_str()));
    assert!(vmm.kernel_cmdline().unwrap().ends_with("root=/dev/vda rw"));
}

#[test]
fn boot_scenario_second_root_rejected() {
    let mut vmm = Vmm::new();
    assert!(respond(vmm.handle_request(VmmAction::InsertBlockDevice(drive("root", "/tmp/r1", true, None, false)))).is_ok());
    assert_eq!(
        respond(vmm.handle_request(VmmAction::InsertBlockDevice(drive("root2", "/tmp/r2", true, None, false)))),
        Err(VmmActionError::DriveConfig(ErrorKind::User, DriveError::RootBlockDeviceAlreadyAdded))
    );
}

#[test]
fn boot_scenario_ht_three_vcpus() {
    let mut vmm = Vmm::new();
    let cfg = VmConfig { vcpu_count: Some(3), mem_size_mib: None, ht_enabled: Some(true), cpu_template: None };
    assert_eq!(
        respond(vmm.handle_request(VmmAction::SetVmConfiguration(cfg))),
        Err(VmmActionError::MachineConfig(ErrorKind::User, vmm::error::VmConfigError::InvalidVcpuCount))
    );
    assert_eq!(respond(vmm.handle_request(VmmAction::GetVmConfiguration)), Ok(VmmData::MachineConfiguration(VmConfig {
        vcpu_count: Some(1),
        mem_size_mib: Some(128),
        ht_enabled: Some(false),
        cpu_template: None,
    })));
}

#[test]
fn insert_after_boot_not_supported() {
    let mut vmm = Vmm::new();
    vmm.configure_boot_source(boot_source()).unwrap();
    boot_through_controller(&mut vmm);
    assert_eq!(
        respond(vmm.handle_request(VmmAction::InsertBlockDevice(drive("d", "/tmp/d", false, None, false)))),
        Err(VmmActionError::OperationNotSupportedPostBoot)
    );
    assert_eq!(respond(vmm.handle_request(VmmAction::StartMicroVm(None))), Err(VmmActionError::OperationNotSupportedPostBoot));
}

#[test]
fn runtime_actions_not_supported_before_boot() {
    let mut vmm = Vmm::new();
    for a in [
        VmmAction::FlushMetrics,
        VmmAction::SendCtrlAltDel,
        VmmAction::PauseToSnapshot,
        VmmAction::RescanBlockDevice("d".to_string()),
        VmmAction::UpdateBlockDevicePath("d".to_string(), "/tmp/x".to_string()),
    ] {
        assert_eq!(respond(vmm.handle_request(a)), Err(VmmActionError::OperationNotSupportedPreBoot));
    }
}

#[test]
fn update_path_unknown_drive() {
    let mut vmm = Vmm::new();
    vmm.configure_boot_source(boot_source()).unwrap();
    boot_through_controller(&mut vmm);
    assert_eq!(
        respond(vmm.handle_request(VmmAction::UpdateBlockDevicePath("nope".to_string(), "/tmp/x".to_string()))),
        Err(VmmActionError::DriveConfig(ErrorKind::User, DriveError::InvalidBlockDeviceID))
    );
}

#[test]
fn test_block_device_rescan() {
    let mut vmm = Vmm::new();
    vmm.configure_boot_source(boot_source()).unwrap();
    vmm.insert_block_device(drive("root", "/tmp/root", true, None, false)).unwrap();
    vmm.insert_block_device(drive("not_root", "/tmp/scratch", false, None, true)).unwrap();

    // Rescan is not allowed before boot.
    assert_eq!(
        vmm.request_rescan(&"not_root".to_string()).err(),
        Some(VmmActionError::DriveConfig(ErrorKind::User, DriveError::OperationNotAllowedPreBoot))
    );

    boot_through_controller(&mut vmm);

    // A valid rescan.
    match vmm.handle_request(VmmAction::RescanBlockDevice("not_root".to_string())) {
        ActionStep::Host(HostTask::RescanDrive { drive_id, path, addr }) => {
            assert_eq!(drive_id, "not_root");
            assert_eq!(path, "/tmp/scratch");
            assert_eq!(addr, 0xd000_1000);
        },
        _ => panic!("expected a rescan"),
    }
    // A size that is not a multiple of the sector size: the remainder is not visible.
    let update = vmm.complete_drive_update(&"not_root".to_string(), None, Ok(10 * 512 + 1)).unwrap();
    assert_eq!(update.addr, 0xd000_1000);
    assert_eq!(update.config_space, vec![10, 0, 0, 0, 0, 0, 0, 0]);

    // A file that cannot be measured.
    assert_eq!(
        vmm.complete_drive_update(&"not_root".to_string(), None, Err(DriveError::BlockDeviceUpdateFailed)),
        Err(VmmActionError::DriveConfig(ErrorKind::User, DriveError::BlockDeviceUpdateFailed))
    );

    // An unknown id.
    assert_eq!(
        respond(vmm.handle_request(VmmAction::RescanBlockDevice("foo".to_string()))),
        Err(VmmActionError::DriveConfig(ErrorKind::User, DriveError::InvalidBlockDeviceID))
    );
}

#[test]
fn update_block_device_path_after_boot() {
    let mut vmm = Vmm::new();
    vmm.configure_boot_source(boot_source()).unwrap();
    vmm.insert_block_device(drive("root", "/tmp/root", true, None, false)).unwrap();
    vmm.insert_block_device(drive("data", "/tmp/data", false, None, true)).unwrap();
    boot_through_controller(&mut vmm);
    match vmm.handle_request(VmmAction::UpdateBlockDevicePath("data".to_string(), "/tmp/new".to_string())) {
        ActionStep::Host(HostTask::SwapDriveFile { drive_id, path, read_only, addr }) => {
            assert_eq!(drive_id, "data");
            assert_eq!(path, "/tmp/new");
            assert!(read_only);
            assert_eq!(addr, 0xd000_1000);
        },
        _ => panic!("expected a swap"),
    }
    let update = vmm.complete_drive_update(&"data".to_string(), Some("/tmp/new".to_string()), Ok(4096)).unwrap();
    assert_eq!(update.config_space, build_config_space(4096));
    assert_eq!(vmm.block_device_configs().config_list()[1].path_on_host, "/tmp/new");
    // The new file of another drive is refused.
    assert_eq!(
        vmm.complete_drive_update(&"root".to_string(), Some("/tmp/new".to_string()), Ok(4096)).err(),
        Some(VmmActionError::DriveConfig(ErrorKind::User, DriveError::BlockDevicePathAlreadyExists))
    );
}

#[test]
fn resume_scenario_state_transitions() {
    let mut vmm = Vmm::new();
    assert_eq!(vmm.instance_state(), InstanceState::Uninitialized);
    match vmm.handle_request(VmmAction::ResumeFromSnapshot("/tmp/s".to_string())) {
        ActionStep::Host(HostTask::ResumeFromSnapshot(p)) => assert_eq!(p, "/tmp/s"),
        _ => panic!("expected a restore"),
    }
    vmm.begin_resume(2, 256).unwrap();
    assert_eq!(vmm.instance_state(), InstanceState::Resuming);
    assert_eq!(vmm.vm_config().vcpu_count, Some(2));
    assert_eq!(vmm.vm_config().mem_size_mib, Some(256));
    assert!(vmm.finish_resume(Ok(())).is_ok());
    assert_eq!(vmm.instance_state(), InstanceState::Running);

    // Not again once running.
    assert_eq!(
        respond(vmm.handle_request(VmmAction::ResumeFromSnapshot("/tmp/s".to_string()))),
        Err(VmmActionError::ResumeMicrovm(ErrorKind::User, ResumeMicrovmError::MicroVMInvalidState(StateError::MicroVMAlreadyRunning)))
    );
}

#[test]
fn pause_to_snapshot_needs_running() {
    let mut vmm = Vmm::new();
    assert_eq!(
        vmm.request_pause_to_snapshot().err(),
        Some(VmmActionError::PauseMicrovm(ErrorKind::User, PauseMicrovmError::MicroVMInvalidState(StateError::MicroVMIsNotRunning)))
    );
    vmm.configure_boot_source(boot_source()).unwrap();
    boot_through_controller(&mut vmm);
    assert!(matches!(vmm.handle_request(VmmAction::PauseToSnapshot), ActionStep::Host(HostTask::PauseToSnapshot)));
}

#[test]
fn boot_fails_without_free_lines() {
    let mut vmm = Vmm::new();
    vmm.configure_boot_source(boot_source()).unwrap();
    for i in 0..20 {
        vmm.insert_block_device(drive(&format!("d{}", i), &format!("/tmp/d{}", i), false, None, false)).unwrap();
    }
    assert_eq!(
        vmm.prepare_boot(None).err(),
        Some(VmmActionError::StartMicrovm(
            ErrorKind::Internal,
            vmm::error::StartMicrovmError::RegisterBlockDevice(vmm::error::MmioError::IrqsExhausted)
        ))
    );
    assert_eq!(vmm.instance_state(), InstanceState::Uninitialized);
    assert!(vmm.devices().is_none());
}

#[test]
fn boot_fails_when_cmdline_full() {
    let mut vmm = Vmm::new();
    let long = "x".repeat(vmm::cmdline::CMDLINE_MAX_SIZE - 20);
    vmm.configure_boot_source(BootSourceConfig { kernel_image_path: "/tmp/vmlinux".to_string(), boot_args: Some(long) })
        .unwrap();
    vmm.insert_block_device(drive("root", "/tmp/r", true, None, false)).unwrap();
    assert_eq!(
        vmm.prepare_boot(None).err(),
        Some(VmmActionError::StartMicrovm(
            ErrorKind::User,
            vmm::error::StartMicrovmError::RegisterBlockDevice(vmm::error::MmioError::Cmdline(
                vmm::error::CmdlineError::CommandLineOverflow
            ))
        ))
    );
}

#[test]
fn test_microvm_start() {
    let mut vmm = Vmm::new();
    vmm.configure_boot_source(boot_source()).unwrap();
    let plan = vmm.prepare_boot(None).ok().unwrap();
    assert_eq!(plan.cmdline, vmm::cmdline::DEFAULT_KERNEL_CMDLINE);
    assert_eq!(plan.vm_config.vcpu_count, Some(1));
    assert!(vmm.finish_boot(Ok(())).is_ok());
    assert!(vmm.is_instance_running());
}

#[test]
fn test_attach_net_devices() {
    let mut mgr = MmioDeviceManager::new(vmm::mmio::MMIO_MEM_START, (vmm::mmio::IRQ_BASE, vmm::mmio::IRQ_MAX));
    let mut c = Cmdline::new(vmm::cmdline::CMDLINE_MAX_SIZE);
    let ids = vec!["netif".to_string()];
    assert!(vmm::boot::attach_ids(&ids, TYPE_NET, &mut c, &mut mgr).is_ok());
    // Attaching the same interface a second time fails.
    assert_eq!(
        vmm::boot::attach_ids(&ids, TYPE_NET, &mut c, &mut mgr),
        Err(vmm::error::MmioError::DuplicateDevice)
    );
}

#[test]
fn drive_update_errors() {
    let mut vmm = Vmm::new();
    vmm.insert_block_device(drive("d", "/tmp/d", false, None, false)).unwrap();
    vmm.insert_block_device(drive("e", "/tmp/e", false, None, false)).unwrap();
    // No device yet.
    assert_eq!(
        vmm.complete_drive_update(&"d".to_string(), None, Ok(512)).err(),
        Some(VmmActionError::DriveConfig(ErrorKind::User, DriveError::BlockDeviceUpdateFailed))
    );
    assert_eq!(
        vmm.complete_drive_update(&"x".to_string(), None, Ok(512)).err(),
        Some(VmmActionError::DriveConfig(ErrorKind::User, DriveError::InvalidBlockDeviceID))
    );
    let mut vmm2 = Vmm::new();
    vmm2.configure_boot_source(boot_source()).unwrap();
    vmm2.insert_block_device(drive("d", "/tmp/d", false, None, false)).unwrap();
    vmm2.insert_block_device(drive("e", "/tmp/e", false, None, false)).unwrap();
    boot_through_controller(&mut vmm2);
    assert_eq!(
        vmm2.complete_drive_update(&"d".to_string(), Some("/tmp/e".to_string()), Ok(512)).err(),
        Some(VmmActionError::DriveConfig(ErrorKind::User, DriveError::BlockDevicePathAlreadyExists))
    );
    // Its own path is fine.
    assert!(vmm2.complete_drive_update(&"d".to_string(), Some("/tmp/d".to_string()), Ok(512)).is_ok());
}

#[test]
fn boot_fails_when_root_fragment_does_not_fit() {
    let mut vmm = Vmm::new();
    let long = "x".repeat(vmm::cmdline::CMDLINE_MAX_SIZE - 40);
    vmm.configure_boot_source(BootSourceConfig { kernel_image_path: "/tmp/vmlinux".to_string(), boot_args: Some(long) })
        .unwrap();
    vmm.insert_block_device(drive("root", "/tmp/r", true, None, false)).unwrap();
    assert_eq!(
        vmm.prepare_boot(None).err(),
        Some(VmmActionError::StartMicrovm(
            ErrorKind::User,
            vmm::error::StartMicrovmError::KernelCmdline(vmm::error::CmdlineError::CommandLineOverflow)
        ))
    );
    assert_eq!(vmm.instance_state(), InstanceState::Uninitialized);
}
