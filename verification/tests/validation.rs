use vmm_service::cmdline::build_cmdline;
use vmm_service::config::check_mem_size;
use vmm_service::config::handle_cpu_topology;
use vmm_service::config::merge_vm_configuration;
use vmm_service::config::topology_total;
use vmm_service::config::CpuTopology;
use vmm_service::config::VmConfigInfo;
use vmm_service::device::BlockDeviceConfigInfo;
use vmm_service::device::BlockDeviceConfigUpdateInfo;
use vmm_service::device::BootSourceConfig;
use vmm_service::device::FsDeviceConfigInfo;
use vmm_service::device::FsDeviceConfigUpdateInfo;
use vmm_service::device::VirtioNetDeviceConfigInfo;
use vmm_service::device::VirtioNetDeviceConfigUpdateInfo;
use vmm_service::device::VsockDeviceConfigInfo;
use vmm_service::error::BlockDeviceError;
use vmm_service::error::BootSourceConfigError;
use vmm_service::error::CmdlineFault;
use vmm_service::error::FsDeviceError;
use vmm_service::error::IoFailure;
use vmm_service::error::StopMicrovmError;
use vmm_service::error::VirtioNetDeviceError;
use vmm_service::error::VmConfigError;
use vmm_service::error::VmmActionError;
use vmm_service::error::VsockDeviceError;
use vmm_service::message::format_decimal;
use vmm_service::message::format_hex;
use vmm_service::service::install_boot_source_with;
use vmm_service::service::Awaited;
use vmm_service::service::Completion;
use vmm_service::service::Delegation;
use vmm_service::service::Polled;
use vmm_service::service::Step;
use vmm_service::service::VmmAction;
use vmm_service::service::VmmData;
use vmm_service::service::VmmService;
use vmm_service::vm::DeviceOpContext;
use vmm_service::vm::InstanceState;
use vmm_service::vm::UpcallState;
use vmm_service::vm::Vm;
use vmm_service::vm::Vmm;

fn topology(threads: u8, cores: u8, dies: u8, sockets: u8) -> CpuTopology {
    CpuTopology {
        threads_per_core: threads,
        cores_per_die: cores,
        dies_per_socket: dies,
        sockets,
    }
}

fn machine(state: InstanceState, upcall: UpcallState) -> Vmm {
    let mut vm = Vm::new(String::from("vm-7"));
    vm.instance_state = state;
    vm.upcall = upcall;
    Vmm::new(Some(vm))
}

fn config_fault(e: VmConfigError) -> VmmActionError {
    VmmActionError::MachineConfig(e)
}

#[test]
fn threads_per_core_is_checked_before_everything_else() {
    for threads in [0u8, 3, 4, 255] {
        for cores in [0u8, 1, 128, 255] {
            let t = topology(threads, cores, 255, 255);
            assert_eq!(
                handle_cpu_topology(&t, 1),
                Err(config_fault(VmConfigError::InvalidThreadsPerCore(threads)))
            );
        }
    }
}

#[test]
fn products_above_the_ceiling_are_refused() {
    let over = [
        topology(2, 128, 1, 1),
        topology(1, 255, 1, 1),
        topology(1, 1, 16, 16),
        topology(1, 0, 16, 16),
        topology(2, 2, 8, 8),
        topology(2, 255, 255, 255),
    ];
    for t in over {
        assert_eq!(
            handle_cpu_topology(&t, 1),
            Err(config_fault(VmConfigError::VcpuCountExceedsMaximum))
        );
    }
}

#[test]
fn topologies_up_to_the_ceiling_are_accepted() {
    let t = topology(2, 127, 1, 1);
    assert_eq!(handle_cpu_topology(&t, 254), Ok(&t));
    assert_eq!(topology_total(&t), 254);
    let t = topology(1, 2, 3, 4);
    assert_eq!(handle_cpu_topology(&t, 24), Ok(&t));
    assert_eq!(topology_total(&t), 24);
    assert_eq!(
        handle_cpu_topology(&t, 25),
        Err(config_fault(VmConfigError::InvalidCpuTopology(24)))
    );
    let none = topology(1, 0, 1, 1);
    assert_eq!(handle_cpu_topology(&none, 0), Ok(&none));
}

#[test]
fn memory_size_boundaries() {
    assert_eq!(check_mem_size(0), Err(VmConfigError::InvalidMemorySize(0)));
    assert_eq!(check_mem_size(1), Err(VmConfigError::InvalidMemorySize(1)));
    assert_eq!(check_mem_size(2), Ok(()));
    assert_eq!(check_mem_size(3), Err(VmConfigError::InvalidMemorySize(3)));
    assert_eq!(check_mem_size(128), Ok(()));
    assert_eq!(check_mem_size(0x10_0000 - 1), Err(VmConfigError::InvalidMemorySize(0xf_ffff)));
    assert_eq!(check_mem_size(0x10_0000), Ok(()));
    assert_eq!(
        check_mem_size(0x10_0002),
        Err(VmConfigError::InvalidMemorySize(0x10_0002))
    );
}

#[test]
fn merged_configuration_takes_the_topology_count() {
    let current = VmConfigInfo::default();
    let request = VmConfigInfo {
        vcpu_count: 16,
        max_vcpu_count: 32,
        cpu_topology: topology(1, 128, 1, 1),
        mem_size_mib: 4096,
        ..Default::default()
    };
    let merged = merge_vm_configuration(&current, request, "vm-7").unwrap();
    assert_eq!(
        merged,
        VmConfigInfo {
            vcpu_count: 16,
            max_vcpu_count: 128,
            cpu_pm: String::from("on"),
            cpu_topology: topology(1, 128, 1, 1),
            vpmu_feature: 0,
            mem_type: String::from("shmem"),
            mem_file_path: String::new(),
            mem_size_mib: 4096,
            serial_path: Some(String::from("/run/dragonball/vm-7_com1")),
        }
    );
}

#[test]
fn topology_is_synthesized_where_none_is_named() {
    let current = VmConfigInfo::default();
    let request = VmConfigInfo {
        vcpu_count: 4,
        max_vcpu_count: 8,
        serial_path: Some(String::from("/tmp/serial")),
        ..Default::default()
    };
    let merged = merge_vm_configuration(&current, request, "a").unwrap();
    assert_eq!(merged.cpu_topology, topology(1, 8, 1, 1));
    assert_eq!(merged.max_vcpu_count, 8);
    assert_eq!(merged.serial_path, Some(String::from("/tmp/serial")));

    let request = VmConfigInfo {
        vcpu_count: 6,
        max_vcpu_count: 6,
        ..Default::default()
    };
    let again = merge_vm_configuration(&merged, request, "a").unwrap();
    assert_eq!(again.cpu_topology, topology(1, 6, 1, 1));
    assert_eq!(again.max_vcpu_count, 6);
    assert_eq!(again.serial_path, Some(String::from("/tmp/serial")));

    let named = VmConfigInfo {
        vcpu_count: 6,
        max_vcpu_count: 6,
        cpu_topology: topology(1, 8, 1, 1),
        ..Default::default()
    };
    let kept = merge_vm_configuration(&again, named, "a").unwrap();
    assert_eq!(kept.cpu_topology, topology(1, 8, 1, 1));
    assert_eq!(kept.max_vcpu_count, 8);

    let too_many = VmConfigInfo {
        vcpu_count: 255,
        max_vcpu_count: 255,
        ..Default::default()
    };
    assert_eq!(
        merge_vm_configuration(&current, too_many, "a"),
        Err(config_fault(VmConfigError::VcpuCountExceedsMaximum))
    );
}

#[test]
fn huge_pages_need_a_backing_file() {
    let current = VmConfigInfo::default();
    let request = VmConfigInfo {
        mem_type: String::from("hugetlbfs"),
        mem_file_path: String::from("/dev/hugepages"),
        ..Default::default()
    };
    let merged = merge_vm_configuration(&current, request, "a").unwrap();
    assert_eq!(merged.mem_type, "hugetlbfs");
    assert_eq!(merged.mem_file_path, "/dev/hugepages");
    let request = VmConfigInfo {
        mem_type: String::from("hugetlbfs"),
        ..Default::default()
    };
    assert_eq!(
        merge_vm_configuration(&current, request, "a"),
        Err(config_fault(VmConfigError::InvalidMemFilePath(String::new())))
    );
}

#[test]
fn set_configuration_twice_stores_the_same() {
    let mut vmm = machine(InstanceState::Uninitialized, UpcallState::Missing);
    let mut service = VmmService::new();
    let request = VmConfigInfo {
        vcpu_count: 2,
        max_vcpu_count: 4,
        cpu_topology: topology(1, 4, 1, 1),
        mem_size_mib: 256,
        ..Default::default()
    };
    assert_eq!(
        service.set_vm_configuration(&mut vmm, request.clone()),
        Ok(VmmData::Empty)
    );
    let first = vmm.vm.as_ref().unwrap().vm_config.clone();
    assert_eq!(first.cpu_topology, topology(1, 4, 1, 1));
    assert_eq!(first.max_vcpu_count, 4);
    assert_eq!(service.machine_config(), &first);
    assert_eq!(
        service.set_vm_configuration(&mut vmm, request),
        Ok(VmmData::Empty)
    );
    assert_eq!(vmm.vm.as_ref().unwrap().vm_config, first);
    assert_eq!(service.machine_config(), &first);
}

#[test]
fn failed_set_configuration_changes_nothing() {
    let mut vmm = machine(InstanceState::Uninitialized, UpcallState::Missing);
    let mut service = VmmService::new();
    let good = VmConfigInfo {
        vcpu_count: 2,
        max_vcpu_count: 2,
        mem_size_mib: 512,
        ..Default::default()
    };
    assert!(service.set_vm_configuration(&mut vmm, good).is_ok());
    let before = vmm.vm.as_ref().unwrap().vm_config.clone();
    let bad = VmConfigInfo {
        vcpu_count: 8,
        max_vcpu_count: 8,
        cpu_topology: topology(2, 4, 1, 1),
        mem_size_mib: 0x10_0001,
        ..Default::default()
    };
    assert_eq!(
        service.set_vm_configuration(&mut vmm, bad),
        Err(config_fault(VmConfigError::InvalidMemorySize(0x10_0001)))
    );
    assert_eq!(vmm.vm.as_ref().unwrap().vm_config, before);
    assert_eq!(service.machine_config(), &before);
    let step = service.run_vmm_action(&mut vmm, Polled::Request(VmmAction::GetVmConfiguration));
    assert_eq!(
        step,
        Step::Respond(Ok(VmmData::MachineConfiguration(Box::new(before))))
    );
}

#[test]
fn actions_without_a_machine_are_refused() {
    let mut vmm = Vmm::new(None);
    let mut service = VmmService::new();
    let actions = vec![
        VmmAction::ConfigureBootSource(BootSourceConfig::default()),
        VmmAction::StartMicroVm,
        VmmAction::SetVmConfiguration(VmConfigInfo::default()),
        VmmAction::InsertVsockDevice(VsockDeviceConfigInfo::default()),
        VmmAction::InsertBlockDevice(BlockDeviceConfigInfo::default()),
        VmmAction::RemoveBlockDevice(String::from("1")),
        VmmAction::UpdateBlockDevice(BlockDeviceConfigUpdateInfo::default()),
        VmmAction::InsertNetworkDevice(VirtioNetDeviceConfigInfo::default()),
        VmmAction::UpdateNetworkInterface(VirtioNetDeviceConfigUpdateInfo::default()),
        VmmAction::InsertFsDevice(FsDeviceConfigInfo::default()),
        VmmAction::UpdateFsDevice(FsDeviceConfigUpdateInfo::default()),
    ];
    for action in actions {
        assert_eq!(
            service.run_vmm_action(&mut vmm, Polled::Request(action)),
            Step::Respond(Err(VmmActionError::InvalidVMID))
        );
    }
    assert_eq!(
        VmmActionError::InvalidVMID.message(),
        "the virtual machine instance ID is invalid"
    );
    assert_eq!(
        service.run_vmm_action(&mut vmm, Polled::Request(VmmAction::ShutdownMicroVm)),
        Step::Respond(Ok(VmmData::Empty))
    );
    assert!(vmm.exit_evt_triggered);
}

#[test]
fn reserved_guest_cids_are_refused() {
    let mut vmm = machine(InstanceState::Uninitialized, UpcallState::Missing);
    let mut service = VmmService::new();
    for cid in [0u32, 1, 2] {
        let config = VsockDeviceConfigInfo {
            guest_cid: cid,
            ..Default::default()
        };
        assert_eq!(
            service.run_vmm_action(&mut vmm, Polled::Request(VmmAction::InsertVsockDevice(config))),
            Step::Respond(Err(VmmActionError::Vsock(
                VsockDeviceError::GuestCIDInvalid(cid)
            )))
        );
    }
    for cid in [3u32, 4, u32::MAX] {
        let config = VsockDeviceConfigInfo {
            guest_cid: cid,
            ..Default::default()
        };
        assert_eq!(
            service.run_vmm_action(
                &mut vmm,
                Polled::Request(VmmAction::InsertVsockDevice(config.clone()))
            ),
            Step::Delegate(Delegation::InsertVsockDevice(
                DeviceOpContext {
                    hotplug: false,
                    with_epoll_manager: false
                },
                config
            ))
        );
        assert_eq!(service.awaited(), Awaited::Vsock);
        assert_eq!(
            service.complete_vmm_action(
                &mut vmm,
                Completion::Vsock(Err(VsockDeviceError::DeviceManager(String::from("busy"))))
            ),
            Err(VmmActionError::Vsock(VsockDeviceError::DeviceManager(
                String::from("busy")
            )))
        );
        assert_eq!(service.awaited(), Awaited::Nothing);
    }
}

#[test]
fn hot_plugging_follows_the_upcall_channel() {
    let mut service = VmmService::new();
    let insert = || VmmAction::InsertBlockDevice(BlockDeviceConfigInfo::default());

    let mut vmm = machine(InstanceState::Running, UpcallState::NotReady);
    let refused = Step::Respond(Err(VmmActionError::UpcallNotReady));
    assert_eq!(service.run_vmm_action(&mut vmm, Polled::Request(insert())), refused);
    assert_eq!(
        service.run_vmm_action(
            &mut vmm,
            Polled::Request(VmmAction::InsertNetworkDevice(
                VirtioNetDeviceConfigInfo::default()
            ))
        ),
        refused
    );
    assert_eq!(
        VmmActionError::UpcallNotReady.message(),
        "Upcall not ready, can't hotplug device."
    );
    assert_eq!(
        service.run_vmm_action(
            &mut vmm,
            Polled::Request(VmmAction::RemoveBlockDevice(String::from("1")))
        ),
        Step::Respond(Err(VmmActionError::Block(
            BlockDeviceError::UpdateNotAllowedPostBoot
        )))
    );

    let mut vmm = machine(InstanceState::Running, UpcallState::Ready);
    assert_eq!(
        service.run_vmm_action(&mut vmm, Polled::Request(insert())),
        Step::Delegate(Delegation::InsertBlockDevice(
            DeviceOpContext {
                hotplug: true,
                with_epoll_manager: true
            },
            BlockDeviceConfigInfo::default()
        ))
    );
    assert_eq!(
        service.complete_vmm_action(&mut vmm, Completion::Block(Ok(()))),
        Ok(VmmData::Empty)
    );
    assert_eq!(
        service.run_vmm_action(
            &mut vmm,
            Polled::Request(VmmAction::InsertFsDevice(FsDeviceConfigInfo::default()))
        ),
        Step::Delegate(Delegation::InsertFsDevice(
            DeviceOpContext {
                hotplug: true,
                with_epoll_manager: false
            },
            FsDeviceConfigInfo::default()
        ))
    );
    assert_eq!(
        service.complete_vmm_action(
            &mut vmm,
            Completion::FsDevice(Err(FsDeviceError::DeviceManager(String::from("full"))))
        ),
        Err(VmmActionError::FsDevice(FsDeviceError::DeviceManager(
            String::from("full")
        )))
    );

    let mut vmm = machine(InstanceState::Running, UpcallState::Unsupported);
    assert_eq!(
        service.run_vmm_action(
            &mut vmm,
            Polled::Request(VmmAction::InsertNetworkDevice(
                VirtioNetDeviceConfigInfo::default()
            ))
        ),
        Step::Respond(Err(VmmActionError::VirtioNet(
            VirtioNetDeviceError::UpdateNotAllowedPostBoot
        )))
    );
}

#[test]
fn limits_are_only_changed_on_a_running_machine() {
    let mut vmm = machine(InstanceState::Uninitialized, UpcallState::Missing);
    let mut service = VmmService::new();
    assert_eq!(
        service.run_vmm_action(
            &mut vmm,
            Polled::Request(VmmAction::UpdateBlockDevice(
                BlockDeviceConfigUpdateInfo::default()
            ))
        ),
        Step::Respond(Err(VmmActionError::Block(
            BlockDeviceError::MicroVMNotRunning
        )))
    );
    assert_eq!(
        service.run_vmm_action(
            &mut vmm,
            Polled::Request(VmmAction::UpdateNetworkInterface(
                VirtioNetDeviceConfigUpdateInfo::default()
            ))
        ),
        Step::Respond(Err(VmmActionError::VirtioNet(
            VirtioNetDeviceError::MicroVMNotRunning
        )))
    );
    assert_eq!(
        service.run_vmm_action(
            &mut vmm,
            Polled::Request(VmmAction::UpdateFsDevice(FsDeviceConfigUpdateInfo::default()))
        ),
        Step::Respond(Err(VmmActionError::FsDevice(
            FsDeviceError::MicroVMNotRunning
        )))
    );
    let mut vmm = machine(InstanceState::Running, UpcallState::Missing);
    assert_eq!(
        service.run_vmm_action(
            &mut vmm,
            Polled::Request(VmmAction::UpdateFsDevice(FsDeviceConfigUpdateInfo::default()))
        ),
        Step::Delegate(Delegation::UpdateFsDevice(
            FsDeviceConfigUpdateInfo::default()
        ))
    );
    assert_eq!(
        service.complete_vmm_action(&mut vmm, Completion::FsDevice(Ok(()))),
        Ok(VmmData::Empty)
    );
}

#[test]
fn command_line_is_validated_and_bounded() {
    let line = build_cmdline(7, "foobar").unwrap();
    assert_eq!(Vec::<u8>::from(line), b"foobar".to_vec());
    assert_eq!(build_cmdline(6, "foobar").unwrap_err(), CmdlineFault::TooLarge);
    assert!(build_cmdline(1, "").is_ok());
    assert_eq!(build_cmdline(1, "a").unwrap_err(), CmdlineFault::TooLarge);
    assert_eq!(
        build_cmdline(100, "foo\tbar").unwrap_err(),
        CmdlineFault::InvalidAscii
    );
    assert_eq!(
        build_cmdline(3, "foo\u{0}bar").unwrap_err(),
        CmdlineFault::InvalidAscii
    );
    assert!(build_cmdline(100, " ~").is_ok());
}

#[test]
fn boot_source_faults_come_in_order() {
    let not_found = || IoFailure {
        raw_os_error: Some(2),
        description: String::from("No such file or directory (os error 2)"),
    };
    let config = || BootSourceConfig {
        kernel_path: String::from("/k"),
        initrd_path: Some(String::from("/i")),
        boot_args: Some(String::from("quiet\n")),
    };
    let mut vmm = machine(InstanceState::Running, UpcallState::Missing);
    assert_eq!(
        install_boot_source_with(&mut vmm, config(), Err(not_found()), None, 64),
        Err(VmmActionError::BootSource(
            BootSourceConfigError::UpdateNotAllowedPostBoot
        ))
    );
    let mut vmm = machine(InstanceState::Uninitialized, UpcallState::Missing);
    assert_eq!(
        install_boot_source_with(
            &mut vmm,
            config(),
            Err(not_found()),
            Some(Err(not_found())),
            64
        ),
        Err(VmmActionError::BootSource(
            BootSourceConfigError::InvalidKernelPath(not_found())
        ))
    );
    let initrd = install_boot_source_with(&mut vmm, config(), Ok(()), Some(Err(not_found())), 64);
    assert_eq!(
        initrd,
        Err(VmmActionError::BootSource(
            BootSourceConfigError::InvalidInitrdPath(not_found())
        ))
    );
    assert_eq!(
        initrd.unwrap_err().message(),
        "failed to configure boot source for VM: the initrd file cannot be opened due to \
         invalid path or invalid permissions: No such file or directory (os error 2)"
    );
    let line = install_boot_source_with(&mut vmm, config(), Ok(()), Some(Ok(())), 64);
    assert_eq!(
        line,
        Err(VmmActionError::BootSource(
            BootSourceConfigError::InvalidKernelCommandLine(CmdlineFault::InvalidAscii)
        ))
    );
    assert_eq!(
        line.unwrap_err().message(),
        "failed to configure boot source for VM: the kernel command line is invalid: \
         String contains a non-printable ASCII character."
    );
    let long = BootSourceConfig {
        kernel_path: String::from("/k"),
        initrd_path: None,
        boot_args: Some(String::from("0123456789")),
    };
    assert_eq!(
        install_boot_source_with(&mut vmm, long, Ok(()), None, 10),
        Err(VmmActionError::BootSource(
            BootSourceConfigError::InvalidKernelCommandLine(CmdlineFault::TooLarge)
        ))
    );
    assert!(vmm.vm.as_ref().unwrap().kernel_config.is_none());
}

#[test]
fn numbers_are_written_without_leading_zeros() {
    assert_eq!(format_decimal(0), "0");
    assert_eq!(format_decimal(9), "9");
    assert_eq!(format_decimal(10), "10");
    assert_eq!(format_decimal(254), "254");
    assert_eq!(format_decimal(u64::MAX), "18446744073709551615");
    assert_eq!(format_hex(0), "0");
    assert_eq!(format_hex(15), "f");
    assert_eq!(format_hex(16), "10");
    assert_eq!(format_hex(0x10_0001), "100001");
    assert_eq!(format_hex(u64::MAX), "ffffffffffffffff");
}

#[test]
fn every_reason_has_its_text() {
    assert_eq!(
        VmConfigError::InvalidCpuTopology(24).message(),
        "the vCPU number '24' of the cpu topology is below the vCPU count"
    );
    assert_eq!(
        VmConfigError::InvalidMemorySize(0x10_0002).message(),
        "the memory size 0x100002MiB is invalid"
    );
    assert_eq!(
        VsockDeviceError::GuestCIDInvalid(2).message(),
        "the guest CID 2 is invalid"
    );
    assert_eq!(
        VmmActionError::StopMicrovm(StopMicrovmError::SlaveTimeout).message(),
        "failed to shutdown the VM: failed to send shutdown command to VCPUs"
    );
    assert_eq!(
        VmmActionError::Block(BlockDeviceError::MicroVMNotRunning).message(),
        "virtio-blk device error: vm is not running when updating a block device"
    );
    assert_eq!(
        CmdlineFault::MissingVal(String::from("root")).message(),
        "Missing value for key root."
    );
    assert_eq!(
        CmdlineFault::TooLarge.message(),
        "Inserting string would make command line too long."
    );
}

#[test]
fn boot_arguments_fill_the_room_of_the_boot_layout() {
    let service = VmmService::new();
    let install = |len: usize| {
        let mut vmm = machine(InstanceState::Uninitialized, UpcallState::Missing);
        let config = BootSourceConfig {
            kernel_path: String::from("/k"),
            initrd_path: None,
            boot_args: Some("a".repeat(len)),
        };
        service.install_boot_source(&mut vmm, config, Ok(()), None)
    };
    let room: usize = if install(2048).is_ok() { 0x10000 } else { 2048 };
    assert_eq!(install(room - 1), Ok(VmmData::Empty));
    assert_eq!(
        install(room),
        Err(VmmActionError::BootSource(
            BootSourceConfigError::InvalidKernelCommandLine(CmdlineFault::TooLarge)
        ))
    );
}

#[test]
fn set_configuration_twice_without_a_topology() {
    let mut vmm = machine(InstanceState::Uninitialized, UpcallState::Missing);
    let mut service = VmmService::new();
    let request = VmConfigInfo {
        vcpu_count: 2,
        max_vcpu_count: 8,
        ..Default::default()
    };
    assert_eq!(
        service.set_vm_configuration(&mut vmm, request.clone()),
        Ok(VmmData::Empty)
    );
    let first = vmm.vm.as_ref().unwrap().vm_config.clone();
    assert_eq!(first.max_vcpu_count, 8);
    assert_eq!(first.cpu_topology, topology(1, 8, 1, 1));
    assert_eq!(
        service.set_vm_configuration(&mut vmm, request),
        Ok(VmmData::Empty)
    );
    assert_eq!(vmm.vm.as_ref().unwrap().vm_config, first);
    assert_eq!(service.machine_config(), &first);
}

#[test]
fn set_configuration_twice_with_a_topology_of_its_own() {
    let mut vmm = machine(InstanceState::Uninitialized, UpcallState::Missing);
    let mut service = VmmService::new();
    let request = VmConfigInfo {
        vcpu_count: 16,
        max_vcpu_count: 32,
        cpu_topology: topology(1, 128, 1, 1),
        ..Default::default()
    };
    assert_eq!(
        service.set_vm_configuration(&mut vmm, request.clone()),
        Ok(VmmData::Empty)
    );
    let first = vmm.vm.as_ref().unwrap().vm_config.clone();
    assert_eq!(first.max_vcpu_count, 128);
    assert_eq!(first.cpu_topology.cores_per_die, 128);
    assert_eq!(
        service.set_vm_configuration(&mut vmm, request),
        Ok(VmmData::Empty)
    );
    let second = &vmm.vm.as_ref().unwrap().vm_config;
    assert_eq!(second.max_vcpu_count, 128);
    assert_eq!(second.cpu_topology.cores_per_die, 128);
    assert_eq!(second, &first);
    assert_eq!(service.machine_config(), &first);

    let other = VmConfigInfo {
        vcpu_count: 8,
        max_vcpu_count: 8,
        cpu_topology: topology(2, 2, 2, 1),
        ..Default::default()
    };
    for _ in 0..2 {
        assert_eq!(
            service.set_vm_configuration(&mut vmm, other.clone()),
            Ok(VmmData::Empty)
        );
        let stored = &vmm.vm.as_ref().unwrap().vm_config;
        assert_eq!(stored.cpu_topology, topology(2, 2, 2, 1));
        assert_eq!(stored.max_vcpu_count, 8);
    }
}
