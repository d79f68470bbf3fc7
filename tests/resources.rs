use vmm::drive::BlockDeviceConfig;
use vmm::error::{
    BootSourceConfigError, DriveError, ErrorKind, NetworkInterfaceError, StateError, VmConfigError, VmmActionError,
    VsockError,
};
use vmm::machine_config::{CpuFeaturesTemplate, VmConfig};
use vmm::net::{MacAddr, NetworkInterfaceConfig, NetworkInterfaceUpdateConfig};
use vmm::rate_limiter::{RateLimiterConfig, TokenBucketConfig};
use vmm::vmm::{BootSourceConfig, InstanceState, Vmm, VsockDeviceConfig};

fn drive(id: &str, path: &str, root: bool, partuuid: Option<&str>, ro: bool) -> BlockDeviceConfig {
    BlockDeviceConfig {
        drive_id: id.to_string(),
        path_on_host: path.to_string(),
        is_root_device: root,
        partuuid: partuuid.map(|p| p.to_string()),
        is_read_only: ro,
        rate_limiter: None,
    }
}

fn netif(id: &str, host: &str, mac: Option<MacAddr>) -> NetworkInterfaceConfig {
    NetworkInterfaceConfig {
        iface_id: id.to_string(),
        host_dev_name: host.to_string(),
        guest_mac: mac,
        rx_rate_limiter: None,
        tx_rate_limiter: None,
        allow_mmds_requests: false,
    }
}

fn boot_source(args: Option<&str>) -> BootSourceConfig {
    BootSourceConfig { kernel_image_path: "/tmp/vmlinux".to_string(), boot_args: args.map(|a| a.to_string()) }
}

/// A VMM that went through a successful boot.
fn running_vmm() -> Vmm {
    let mut vmm = Vmm::new();
    vmm.configure_boot_source(boot_source(None)).unwrap();
    vmm.prepare_boot(None).ok().unwrap();
    vmm.finish_boot(Ok(())).unwrap();
    vmm
}

#[test]
fn test_insert_block_device() {
    let mut vmm = Vmm::new();
    let root_block_device = drive("root", "/tmp/f1", true, None, false);
    assert!(vmm.insert_block_device(root_block_device.clone()).is_ok());
    assert!(vmm.block_device_configs().config_list().contains(&root_block_device));

    // Updating a block device.
    let root_block_device = drive("root", "/tmp/f1", true, None, true);
    assert!(vmm.insert_block_device(root_block_device.clone()).is_ok());
    assert!(vmm.block_device_configs().config_list().contains(&root_block_device));

    // A second drive with the same path fails.
    assert!(vmm.insert_block_device(drive("dummy_dev", "/tmp/f1", false, None, true)).is_err());

    // A second drive is fine.
    assert!(vmm.insert_block_device(drive("non_root", "/tmp/f2", false, None, false)).is_ok());

    // Making the second drive root fails: there would be two root devices.
    assert!(vmm.insert_block_device(drive("non_root", "/tmp/f2", true, None, false)).is_err());

    // No update after boot.
    let mut vmm = running_vmm();
    assert!(vmm.insert_block_device(drive("root", "/tmp/f2", false, None, true)).is_err());
}

#[test]
fn insert_block_device_error_kinds() {
    let mut vmm = Vmm::new();
    vmm.insert_block_device(drive("root", "/tmp/f1", true, None, false)).unwrap();
    assert_eq!(
        vmm.insert_block_device(drive("other", "/tmp/f1", false, None, false)),
        Err(VmmActionError::DriveConfig(ErrorKind::User, DriveError::BlockDevicePathAlreadyExists))
    );
    assert_eq!(
        vmm.insert_block_device(drive("root2", "/tmp/f3", true, None, false)),
        Err(VmmActionError::DriveConfig(ErrorKind::User, DriveError::RootBlockDeviceAlreadyAdded))
    );
    let mut vmm = running_vmm();
    assert_eq!(
        vmm.insert_block_device(drive("d", "/tmp/f4", false, None, false)),
        Err(VmmActionError::DriveConfig(ErrorKind::User, DriveError::UpdateNotAllowedPostBoot))
    );
}

#[test]
fn root_device_goes_first() {
    let mut vmm = Vmm::new();
    vmm.insert_block_device(drive("a", "/tmp/a", false, None, false)).unwrap();
    vmm.insert_block_device(drive("b", "/tmp/b", false, None, false)).unwrap();
    vmm.insert_block_device(drive("b", "/tmp/b", true, None, false)).unwrap();
    let ids: Vec<String> = vmm.block_device_configs().config_list().iter().map(|d| d.drive_id.clone()).collect();
    assert_eq!(ids, vec!["b".to_string(), "a".to_string()]);
    assert!(vmm.block_device_configs().has_root_block_device());
}

#[test]
fn second_insert_same_id_replaces() {
    let mut vmm = Vmm::new();
    vmm.insert_block_device(drive("d", "/tmp/a", false, None, false)).unwrap();
    vmm.insert_block_device(drive("d", "/tmp/b", false, None, true)).unwrap();
    let list = vmm.block_device_configs().config_list();
    assert_eq!(list.len(), 1);
    assert_eq!(list[0].path_on_host, "/tmp/b");
    assert!(list[0].is_read_only);
}

#[test]
fn test_insert_net_device() {
    let mut vmm = Vmm::new();
    assert!(vmm.insert_net_device(netif("netif", "hostname1", None)).is_ok());

    let mac = MacAddr::from_bytes([0x01, 0x23, 0x45, 0x67, 0x89, 0x0A]);
    assert!(vmm.insert_net_device(netif("netif", "hostname2", Some(mac))).is_ok());

    // A new interface with the same MAC fails.
    assert!(vmm.insert_net_device(netif("netif2", "hostname3", Some(mac))).is_err());

    // No update after boot.
    let mut vmm = running_vmm();
    assert!(vmm.insert_net_device(netif("netif", "hostname2", None)).is_err());
}

#[test]
fn insert_net_device_conflicts() {
    let mut vmm = Vmm::new();
    let mac = MacAddr::from_bytes([0x01, 0x23, 0x45, 0x67, 0x89, 0x0A]);
    vmm.insert_net_device(netif("a", "tap0", Some(mac))).unwrap();
    assert_eq!(
        vmm.insert_net_device(netif("b", "tap1", Some(mac))),
        Err(VmmActionError::NetworkConfig(
            ErrorKind::User,
            NetworkInterfaceError::GuestMacAddressInUse("01:23:45:67:89:0a".to_string())
        ))
    );
    assert_eq!(
        vmm.insert_net_device(netif("b", "tap0", None)),
        Err(VmmActionError::NetworkConfig(ErrorKind::User, NetworkInterfaceError::HostDeviceNameInUse("tap0".to_string())))
    );
    assert!(vmm.insert_net_device(netif("b", "tap1", None)).is_ok());
    assert_eq!(vmm.network_interface_configs().if_list().len(), 2);
}

#[test]
fn test_update_net_device() {
    let mut vmm = Vmm::new();
    let tbc_1mtps = TokenBucketConfig { size: 1024 * 1024, one_time_burst: None, refill_time: 1000 };
    let tbc_2mtps = TokenBucketConfig { size: 2 * 1024 * 1024, one_time_burst: None, refill_time: 1000 };
    let mut cfg = netif("1", "hostname4", None);
    cfg.rx_rate_limiter = Some(RateLimiterConfig { bandwidth: Some(tbc_1mtps), ops: None });
    vmm.insert_net_device(cfg).unwrap();

    vmm.update_net_device(NetworkInterfaceUpdateConfig {
        iface_id: "1".to_string(),
        rx_rate_limiter: Some(RateLimiterConfig { bandwidth: None, ops: Some(tbc_2mtps) }),
        tx_rate_limiter: Some(RateLimiterConfig { bandwidth: None, ops: Some(tbc_2mtps) }),
    })
    .unwrap();

    let nic_1 = &vmm.network_interface_configs().if_list()[0];
    // The RX bandwidth is unaffected.
    assert_eq!(nic_1.rx_rate_limiter.unwrap().bandwidth.unwrap(), tbc_1mtps);
    // The RX ops are set to 2mtps.
    assert_eq!(nic_1.rx_rate_limiter.unwrap().ops.unwrap(), tbc_2mtps);
    // The TX bandwidth stays unlimited.
    assert_eq!(nic_1.tx_rate_limiter.unwrap().bandwidth, None);
    // The TX ops are set to 2mtps.
    assert_eq!(nic_1.tx_rate_limiter.unwrap().ops.unwrap(), tbc_2mtps);

    assert_eq!(
        vmm.update_net_device(NetworkInterfaceUpdateConfig {
            iface_id: "2".to_string(),
            rx_rate_limiter: None,
            tx_rate_limiter: None,
        }),
        Err(VmmActionError::NetworkConfig(ErrorKind::User, NetworkInterfaceError::DeviceIdNotFound))
    );
}

#[test]
fn test_machine_configuration() {
    let mut vmm = Vmm::new();

    // Defaults.
    assert_eq!(vmm.vm_config().vcpu_count, Some(1));
    assert_eq!(vmm.vm_config().mem_size_mib, Some(128));
    assert_eq!(vmm.vm_config().ht_enabled, Some(false));
    assert!(vmm.vm_config().cpu_template.is_none());

    // 1. Without hyper-threading.
    let machine_config = VmConfig { vcpu_count: Some(3), mem_size_mib: None, ht_enabled: None, cpu_template: None };
    assert!(vmm.set_vm_configuration(machine_config).is_ok());
    assert_eq!(vmm.vm_config().vcpu_count, Some(3));
    assert_eq!(vmm.vm_config().mem_size_mib, Some(128));
    assert_eq!(vmm.vm_config().ht_enabled, Some(false));

    let machine_config = VmConfig { vcpu_count: None, mem_size_mib: Some(256), ht_enabled: None, cpu_template: None };
    assert!(vmm.set_vm_configuration(machine_config).is_ok());
    assert_eq!(vmm.vm_config().vcpu_count, Some(3));
    assert_eq!(vmm.vm_config().mem_size_mib, Some(256));
    assert_eq!(vmm.vm_config().ht_enabled, Some(false));

    let machine_config = VmConfig { vcpu_count: Some(0), mem_size_mib: None, ht_enabled: None, cpu_template: None };
    assert!(vmm.set_vm_configuration(machine_config).is_err());
    assert_eq!(vmm.vm_config().vcpu_count, Some(3));

    let machine_config = VmConfig {
        vcpu_count: Some(1),
        mem_size_mib: Some(0),
        ht_enabled: Some(false),
        cpu_template: Some(CpuFeaturesTemplate::T2),
    };
    assert!(vmm.set_vm_configuration(machine_config).is_err());
    assert_eq!(vmm.vm_config().vcpu_count, Some(3));
    assert_eq!(vmm.vm_config().mem_size_mib, Some(256));
    assert_eq!(vmm.vm_config().ht_enabled, Some(false));
    assert!(vmm.vm_config().cpu_template.is_none());

    // 2. With hyper-threading: not with an odd vCPU count.
    let machine_config = VmConfig { vcpu_count: None, mem_size_mib: None, ht_enabled: Some(true), cpu_template: None };
    assert!(vmm.set_vm_configuration(machine_config).is_err());
    assert_eq!(vmm.vm_config().ht_enabled, Some(false));
    let machine_config = VmConfig {
        vcpu_count: Some(2),
        mem_size_mib: None,
        ht_enabled: Some(true),
        cpu_template: Some(CpuFeaturesTemplate::T2),
    };
    assert!(vmm.set_vm_configuration(machine_config).is_ok());
    assert_eq!(vmm.vm_config().vcpu_count, Some(2));
    assert_eq!(vmm.vm_config().ht_enabled, Some(true));
    assert_eq!(vmm.vm_config().cpu_template, Some(CpuFeaturesTemplate::T2));

    // 3. No update after boot.
    let mut vmm = running_vmm();
    let machine_config = VmConfig {
        vcpu_count: Some(2),
        mem_size_mib: None,
        ht_enabled: Some(true),
        cpu_template: Some(CpuFeaturesTemplate::T2),
    };
    assert!(vmm.set_vm_configuration(machine_config).is_err());
}

#[test]
fn zero_vcpus_and_zero_memory_rejected() {
    let mut vmm = Vmm::new();
    assert_eq!(
        vmm.set_vm_configuration(VmConfig { vcpu_count: Some(0), mem_size_mib: None, ht_enabled: None, cpu_template: None }),
        Err(VmmActionError::MachineConfig(ErrorKind::User, VmConfigError::InvalidVcpuCount))
    );
    assert_eq!(
        vmm.set_vm_configuration(VmConfig { vcpu_count: None, mem_size_mib: Some(0), ht_enabled: None, cpu_template: None }),
        Err(VmmActionError::MachineConfig(ErrorKind::User, VmConfigError::InvalidMemorySize))
    );
    assert_eq!(vmm.vm_config().vcpu_count, Some(1));
    assert_eq!(vmm.vm_config().mem_size_mib, Some(128));
}

#[test]
fn ht_with_three_vcpus_rejected() {
    let mut vmm = Vmm::new();
    let before = vmm.vm_config();
    assert_eq!(
        vmm.set_vm_configuration(VmConfig { vcpu_count: Some(3), mem_size_mib: None, ht_enabled: Some(true), cpu_template: None }),
        Err(VmmActionError::MachineConfig(ErrorKind::User, VmConfigError::InvalidVcpuCount))
    );
    assert_eq!(vmm.vm_config(), before);
}

#[test]
fn test_configure_boot_source() {
    let mut vmm = Vmm::new();

    // A command line that does not fit.
    let invalid_cmdline = String::from_utf8(vec![b'X'; vmm::cmdline::CMDLINE_MAX_SIZE + 1]).unwrap();
    assert_eq!(
        vmm.configure_boot_source(boot_source(Some(&invalid_cmdline))),
        Err(VmmActionError::BootSource(ErrorKind::User, BootSourceConfigError::InvalidKernelCommandLine))
    );

    // Valid configurations.
    assert!(vmm.configure_boot_source(boot_source(None)).is_ok());
    assert_eq!(vmm.kernel_cmdline(), Some(vmm::cmdline::DEFAULT_KERNEL_CMDLINE));
    assert!(vmm.configure_boot_source(boot_source(Some("reboot=k"))).is_ok());
    assert_eq!(vmm.kernel_cmdline(), Some("reboot=k"));

    // Not after boot.
    let mut vmm = running_vmm();
    assert_eq!(
        vmm.configure_boot_source(boot_source(None)),
        Err(VmmActionError::BootSource(ErrorKind::User, BootSourceConfigError::UpdateNotAllowedPostBoot))
    );
}

#[test]
fn vsock_device_before_and_after_boot() {
    let cfg = VsockDeviceConfig { vsock_id: "vsock".to_string(), guest_cid: 3, uds_path: "/tmp/v.sock".to_string() };
    let mut vmm = Vmm::new();
    assert!(vmm.set_vsock_device(cfg.clone()).is_ok());
    assert_eq!(vmm.vsock_device_config(), &Some(cfg.clone()));
    let mut vmm = running_vmm();
    assert_eq!(
        vmm.set_vsock_device(cfg),
        Err(VmmActionError::VsockConfig(ErrorKind::User, VsockError::UpdateNotAllowedPostBoot))
    );
}

#[test]
fn test_instance_state() {
    let mut vmm = Vmm::new();
    assert!(!vmm.is_instance_initialized());
    assert!(!vmm.is_instance_running());
    assert_eq!(vmm.instance_state(), InstanceState::Uninitialized);

    vmm.configure_boot_source(boot_source(None)).unwrap();
    vmm.prepare_boot(None).ok().unwrap();
    assert!(vmm.is_instance_initialized());
    assert!(!vmm.is_instance_running());
    assert_eq!(vmm.instance_state(), InstanceState::Starting);

    vmm.finish_boot(Ok(())).unwrap();
    assert!(vmm.is_instance_initialized());
    assert!(vmm.is_instance_running());
}

#[test]
fn test_check_health() {
    let mut vmm = Vmm::new();
    assert_eq!(
        vmm.prepare_boot(None).err(),
        Some(VmmActionError::StartMicrovm(ErrorKind::User, vmm::error::StartMicrovmError::MissingKernelConfig))
    );
    assert_eq!(vmm.instance_state(), InstanceState::Uninitialized);
    vmm.configure_boot_source(boot_source(None)).unwrap();
    assert!(vmm.prepare_boot(None).is_ok());
}

#[test]
fn start_twice_rejected() {
    let mut vmm = running_vmm();
    assert_eq!(
        vmm.prepare_boot(None).err(),
        Some(VmmActionError::StartMicrovm(
            ErrorKind::User,
            vmm::error::StartMicrovmError::MicroVMInvalidState(StateError::MicroVMAlreadyRunning)
        ))
    );
}

#[test]
fn failed_boot_returns_to_preboot() {
    let mut vmm = Vmm::new();
    vmm.configure_boot_source(boot_source(None)).unwrap();
    vmm.insert_block_device(drive("root", "/tmp/r", true, None, false)).unwrap();
    vmm.prepare_boot(None).ok().unwrap();
    let r = vmm.finish_boot(Err(vmm::error::StartMicrovmError::KernelLoader));
    assert_eq!(r, Err(VmmActionError::StartMicrovm(ErrorKind::User, vmm::error::StartMicrovmError::KernelLoader)));
    assert_eq!(vmm.instance_state(), InstanceState::Uninitialized);
    assert!(vmm.devices().is_none());
    // The resource store is intact: the command line has no device fragments.
    assert_eq!(vmm.kernel_cmdline(), Some(vmm::cmdline::DEFAULT_KERNEL_CMDLINE));
    assert_eq!(vmm.block_device_configs().config_list().len(), 1);
}
