//! Virtual machine configurations, PCI addresses and handed-over descriptors.
use cube_shim::pci::{looks_like_address, PciBdf, PciDeviceInfo};
use cube_shim::vm_config::{
    Arch, ConsoleOutputMode, DeviceNames, Disk, Fs, FsConfig, HypConfig, Interface, LogLevel,
    NetConfig, Pmem, Qos, RateLimiterConfig, TokenBucketConfig, VmConfig, VsockConfig,
    DEFAULT_AGENT_PATH, IMAGE_PATH,
};
use cube_shim::vm_fds::{extract_vm_fds, install_vm_fds, PendingVmFds};

const OS_IMAGE_ID: &str = "os-image";
const AGENT_ID: &str = "agent";
const DISK_PREFIX: &str = "disk";
const NET_PREFIX: &str = "net";

fn names() -> DeviceNames<'static> {
    DeviceNames {
        os_image_id: OS_IMAGE_ID,
        agent_id: AGENT_ID,
        net_prefix: NET_PREFIX,
        disk_prefix: DISK_PREFIX,
    }
}

fn default_config() -> VmConfig {
    VmConfig::default(&names(), Arch::X86_64)
}

fn strings(values: &[&str]) -> Vec<String> {
    values.iter().map(|value| value.to_string()).collect()
}

fn net(fds: Option<Vec<i32>>) -> NetConfig {
    NetConfig {
        id: None,
        tap: None,
        mac: "02:00:00:00:00:01".to_string(),
        mtu: None,
        rate_limiter_config: None,
        fds,
    }
}

fn fds_of(nets: &Option<Vec<NetConfig>>) -> Vec<Option<Vec<i32>>> {
    nets.as_ref()
        .unwrap()
        .iter()
        .map(|net| net.fds.clone())
        .collect()
}

#[test]
fn utils_config_dft() {
    let config = default_config();

    assert!(config.pmems.is_some());
    let pmem = config.pmems.as_ref().unwrap();
    assert_eq!(pmem.len(), 2);
    assert_eq!(pmem[0].file, IMAGE_PATH);
    assert_eq!(pmem[0].id.as_deref(), Some(OS_IMAGE_ID));
    assert!(pmem[0].discard_writes);
    assert_eq!(pmem[1].file, DEFAULT_AGENT_PATH);
    assert_eq!(pmem[1].id.as_deref(), Some(AGENT_ID));
    assert!(pmem[1].discard_writes);
    assert_eq!(config.console.mode, ConsoleOutputMode::Tty);
    assert_eq!(config.rng.src, "/dev/urandom");

    let params = strings(&[
        "root=/dev/pmem0",
        "rootflags=dax,errors=remount-ro ro",
        "rootfstype=ext4",
        "panic=1",
        "no_timer_check",
        "noreplace-smp",
        "printk.devkmsg=on",
        "console=hvc0",
        "net.ifnames=0",
        "audit=0",
        "LANG=C",
        "raid=noautodetect",
        "earlyprintk=ttyS0",
        "agent.debug_console",
        "agent.debug_console_vport=1026",
        "mitigations=off",
    ]);
    assert_eq!(config.cmdlines, params);
}

#[test]
fn default_command_line_follows_the_architecture() {
    let config = VmConfig::default(&names(), Arch::Aarch64);
    let params = strings(&[
        "root=/dev/pmem0",
        "rootflags=dax,errors=remount-ro ro",
        "rootfstype=ext4",
        "panic=1",
        "printk.devkmsg=on",
        "console=ttyAMA0,115200",
        "net.ifnames=0",
        "audit=0",
        "LANG=C",
        "raid=noautodetect",
        "earlyprintk=ttyS0",
        "agent.debug_console",
        "agent.debug_console_vport=1026",
        "mitigations=off",
    ]);
    assert_eq!(config.cmdlines, params);
    let other = VmConfig::default(&names(), Arch::Other);
    assert!(other.cmdlines.contains(&"console=hvc0".to_string()));
    assert!(!other.cmdlines.contains(&"no_timer_check".to_string()));
}

#[test]
fn builtin_pmems_order_and_ids() {
    let pmems = VmConfig::builtin_pmems("/os.img", "/agent.ext4", &names());
    assert_eq!(pmems.len(), 2);
    assert_eq!(pmems[0].file, "/os.img");
    assert_eq!(pmems[0].id.as_deref(), Some(OS_IMAGE_ID));
    assert_eq!(pmems[1].file, "/agent.ext4");
    assert_eq!(pmems[1].id.as_deref(), Some(AGENT_ID));
}

#[test]
fn guest_boot_trace_console_settings_survive_conversion() {
    let mut config = default_config();
    let serial_path = "/tmp/sandbox.serial.log".to_string();
    let console_path = "/tmp/sandbox.console.log".to_string();

    config.enable_guest_boot_trace(serial_path.clone(), console_path.clone());
    let hypervisor_config = config.to_vm_config();

    assert_eq!(hypervisor_config.serial.mode, ConsoleOutputMode::File);
    assert_eq!(hypervisor_config.serial.file, Some(serial_path));
    assert_eq!(hypervisor_config.console.mode, ConsoleOutputMode::File);
    assert_eq!(hypervisor_config.console.file, Some(console_path));
}

#[test]
fn utils_config_func() {
    let mut config = default_config();

    config.add_cmdline("ut_test".to_string());
    assert_eq!(
        config.cmdlines[config.cmdlines.len() - 1],
        "ut_test".to_string()
    );

    config.set_vcpus(999);
    assert_eq!(config.vcpus, 999);

    config.set_memory(999, true);
    assert_eq!(config.memory_size, 999);
    assert!(config.dirty_log);

    assert!(config.disks.is_some());
    let disk = Disk {
        path: "ut_test".to_string(),
        rate_limiter_config: None,
    };
    config.add_disks(&vec![disk], &names());
    let disks = config.disks.as_ref().unwrap();
    let disk = &disks[disks.len() - 1];
    assert_eq!(disk.path, Some("ut_test".to_string()));
    assert_eq!(
        disk.id,
        Some(format!("{}-{}", DISK_PREFIX, disks.len() - 1))
    );

    assert!(config.vsock.is_none());
    let vsock = VsockConfig {
        cid: 3,
        socket: "ut_test".to_string(),
        id: None,
    };
    config.add_vsock(vsock);
    assert_eq!(
        config.vsock,
        Some(VsockConfig {
            cid: 3,
            socket: "ut_test".to_string(),
            id: None,
        })
    );
}

#[test]
fn s0_cni_link_properties_are_propagated() {
    let mut config = default_config();
    let interfaces = vec![Interface {
        name: Some("cbtap0".to_string()),
        mac: "02:00:00:00:00:01".to_string(),
        mac_valid: true,
        mtu: 1450,
        qos: None,
    }];

    config.add_nets(&interfaces, &names()).unwrap();
    let configured_net = &config.nets.as_ref().unwrap()[0];
    assert_eq!(configured_net.mac, "02:00:00:00:00:01");
    assert_eq!(configured_net.mtu, Some(1450));
}

#[test]
fn test_check_cmdline_conflicts() {
    let mut config = default_config();

    let extra_params = strings(&["new_param=value", "another_flag"]);
    let conflicts = config.check_cmdline_conflicts(&extra_params);
    assert!(conflicts.is_empty(), "no conflict expected");

    let extra_params = strings(&["root=/dev/pmem0"]);
    let conflicts = config.check_cmdline_conflicts(&extra_params);
    assert!(!conflicts.is_empty(), "the same parameter conflicts");
    assert!(conflicts[0].contains("root=/dev/pmem0"));

    let extra_params = strings(&["root=/dev/sda1"]);
    let conflicts = config.check_cmdline_conflicts(&extra_params);
    assert!(!conflicts.is_empty(), "the same key conflicts");
    assert!(conflicts[0].contains("root"));

    config.add_cmdline("test_param=value1".to_string());
    let extra_params = strings(&["test_param=value2"]);
    let conflicts = config.check_cmdline_conflicts(&extra_params);
    assert!(!conflicts.is_empty(), "an added parameter conflicts");
    assert!(conflicts[0].contains("test_param"));

    config.add_cmdline("some_flag".to_string());
    let extra_params = strings(&["some_flag"]);
    let conflicts = config.check_cmdline_conflicts(&extra_params);
    assert!(!conflicts.is_empty(), "the same flag conflicts");

    let extra_params = strings(&["root=/dev/sda1", "console=ttyS0", "panic=0"]);
    let conflicts = config.check_cmdline_conflicts(&extra_params);
    assert_eq!(conflicts.len(), 3, "three conflicts expected");
}

#[test]
fn bad_interfaces_are_refused() {
    let mut config = default_config();
    let mut interface = Interface {
        name: None,
        mac: "not-a-mac".to_string(),
        mac_valid: false,
        mtu: 1500,
        qos: None,
    };
    let before = config.nets.as_ref().unwrap().len();
    assert!(config.add_nets(&vec![interface], &names()).is_err());
    interface = Interface {
        name: None,
        mac: "02:00:00:00:00:01".to_string(),
        mac_valid: true,
        mtu: 70_000,
        qos: None,
    };
    assert!(config.add_nets(&vec![interface], &names()).is_err());
    assert_eq!(config.nets.as_ref().unwrap().len(), before);
}

#[test]
fn machine_configuration_holds_what_was_set() {
    let mut config = default_config();
    config.set_vcpus(4);
    config.set_memory(512, false);
    config.set_kernel("/boot/vmlinux".to_string());
    config.add_pmems(&vec![Pmem {
        file: "/data.img".to_string(),
        size: Some(1 << 20),
        discard_writes: false,
        id: "data".to_string(),
    }]);
    config.add_fs(&Fs {
        backendfs_config: Some("/shared".to_string()),
        rate_limiter_config: Some(RateLimiterConfig {
            bandwidth: Some(TokenBucketConfig {
                size: 1,
                one_time_burst: None,
                refill_time: 2,
            }),
            ops: None,
        }),
    });
    config.add_virtiofs(vec![FsConfig {
        id: Some("extra".to_string()),
        tag: "tag".to_string(),
        backendfs_config: None,
        rate_limiter_config: None,
        num_queues: 1,
        queue_size: 128,
    }]);
    config.enable_ivshmem("/dev/shm/x".to_string(), 4096);
    let machine = config.to_vm_config();
    assert_eq!(machine.boot_vcpus, 4);
    assert_eq!(machine.memory_size, 512 * 1024 * 1024);
    assert_eq!(machine.kernel, "/boot/vmlinux");
    assert_eq!(machine.pmem.as_ref().unwrap().len(), 3);
    assert_eq!(machine.pmem.as_ref().unwrap()[2].id.as_deref(), Some("data"));
    assert_eq!(machine.fs.as_ref().unwrap().len(), 2);
    assert_eq!(machine.ivshmem.as_ref().unwrap().size, 4096);
    assert!(machine.cmdline.starts_with("root=/dev/pmem0 rootflags="));
}

#[test]
fn limits_of_an_interface_become_token_buckets() {
    let mut config = default_config();
    let interface = Interface {
        name: Some("tap0".to_string()),
        mac: "02:00:00:00:00:01".to_string(),
        mac_valid: true,
        mtu: 1500,
        qos: Some(Qos {
            bw_size: 10,
            bw_one_time_burst: 0,
            bw_refill_time: 100,
            ops_size: 20,
            ops_one_time_burst: 5,
            ops_refill_time: 200,
        }),
    };
    config.add_nets(&vec![interface], &names()).unwrap();
    let nets = config.nets.as_ref().unwrap();
    let net = &nets[nets.len() - 1];
    assert_eq!(net.id, Some(format!("{}-{}", NET_PREFIX, nets.len() - 1)));
    assert_eq!(net.tap.as_deref(), Some("tap0"));
    let limits = net.rate_limiter_config.as_ref().unwrap();
    assert_eq!(limits.bandwidth.as_ref().unwrap().size, 10);
    assert_eq!(limits.ops.as_ref().unwrap().refill_time, 200);
}

#[test]
fn hypervisor_configuration_is_handed_on() {
    let config = HypConfig {
        debug: true,
        log_level: LogLevel::Debug,
        sandbox_id: "sandbox".to_string(),
        ch_http_api: Some("/run/api.sock".to_string()),
    };
    let vmm = config.to_vmm_config();
    assert_eq!(vmm.sandbox_id, "sandbox");
    assert_eq!(vmm.log_level, LogLevel::Debug);
    assert_eq!(vmm.http_path.as_deref(), Some("/run/api.sock"));
}

#[test]
fn pci_addresses_keep_their_parts() {
    let bdf = PciBdf::new(0x1234, 0xab, 0x1f, 0x7);
    assert_eq!(bdf.segment(), 0x1234);
    assert_eq!(bdf.bus(), 0xab);
    assert_eq!(bdf.device(), 0x1f);
    assert_eq!(bdf.function(), 0x7);
    assert_eq!(bdf.to_string(), "1234:ab:1f.7");
    assert_eq!(PciBdf::from("1234:ab:1f.7"), bdf);
    assert!(looks_like_address("1234:ab:1f.7"));
    assert!(looks_like_address("zzzz:ab:1f.7"));
    assert!(looks_like_address("ab:1f.z"));
    assert!(!looks_like_address("ab:1f.7"));
    assert!(!looks_like_address("1234:ab:1f"));
    let parsed = PciBdf::from_str("1234:ab:1f.7").unwrap();
    assert_eq!(parsed.to_string(), "1234:ab:1f.7");
    assert_eq!(PciBdf::new(0, 0, 5, 0).to_string(), "0000:00:05.0");
    let info = PciDeviceInfo {
        id: "disk-0".to_string(),
        bdf: parsed,
    };
    assert_eq!(info.id, "disk-0");
    assert_eq!(info.bdf.device(), 0x1f);
}

#[test]
fn pci_address_digits_are_checked() {
    assert!(PciBdf::from_str("zzzz:00:05.0").is_err());
    assert!(PciBdf::from_str("0000:zz:05.0").is_err());
    assert!(PciBdf::from_str("0000:00:05.9").is_ok());
}

#[test]
fn vm_fd_slots_reject_missing_rights() {
    let mut nets = Some(vec![net(Some(vec![0]))]);
    let error = install_vm_fds(&mut nets, &vec![]).unwrap_err();
    assert!(error.contains("expected 1 descriptors"));
}

#[test]
fn vm_fd_slots_reject_duplicate_and_out_of_range_slots() {
    let mut nets = Some(vec![net(Some(vec![0, 0]))]);
    assert!(install_vm_fds(&mut nets, &vec![10, 11])
        .unwrap_err()
        .contains("duplicate"));
    let mut nets = Some(vec![net(Some(vec![0, 2]))]);
    assert!(install_vm_fds(&mut nets, &vec![10, 11])
        .unwrap_err()
        .contains("exceeds 2 rights"));
    let mut nets = Some(vec![net(Some(vec![0, -1]))]);
    assert_eq!(
        install_vm_fds(&mut nets, &vec![10, 11]).unwrap_err(),
        "negative CreateVm FD slot -1"
    );
}

#[test]
fn extracted_descriptors_are_put_back() {
    let mut nets = Some(vec![
        net(Some(vec![40, 41])),
        net(None),
        net(Some(vec![42])),
    ]);
    let descriptors = extract_vm_fds(&mut nets);
    assert_eq!(descriptors, vec![40, 41, 42]);
    assert_eq!(
        fds_of(&nets),
        vec![Some(vec![0, 1]), None, Some(vec![2])]
    );
    install_vm_fds(&mut nets, &vec![70, 71, 72]).unwrap();
    assert_eq!(
        fds_of(&nets),
        vec![Some(vec![70, 71]), None, Some(vec![72])]
    );
}

#[test]
fn vm_fd_stays_open_until_boot_completes() {
    let mut pending = PendingVmFds::new();
    let mut nets = Some(vec![net(Some(vec![0]))]);
    pending.install(&mut nets, vec![33]).unwrap();
    assert_eq!(fds_of(&nets), vec![Some(vec![33])]);
    assert_eq!(pending.descriptors, Some(vec![33]));
    let mut again = Some(vec![net(Some(vec![0]))]);
    assert!(pending
        .install(&mut again, vec![34])
        .unwrap_err()
        .contains("already pending"));
    assert_eq!(pending.descriptors, Some(vec![33]));
    pending.complete_boot();
    assert_eq!(pending.descriptors, None);
}

#[test]
fn vm_fd_delete_releases_pending_and_allows_create_again() {
    let mut pending = PendingVmFds::new();
    let mut nets = Some(vec![net(Some(vec![0]))]);
    pending.install(&mut nets, vec![33]).unwrap();
    pending.abort();
    assert_eq!(pending.descriptors, None);
    let mut again = Some(vec![net(Some(vec![0]))]);
    pending.install(&mut again, vec![34]).unwrap();
    assert_eq!(pending.descriptors, Some(vec![34]));
    assert_eq!(fds_of(&again), vec![Some(vec![34])]);
}
