use monitor_core::eve_types::{
    AppInstanceStatus, AppInstanceSummary, AppsList, DataSecAtRestStatus, DeviceNetworkStatus,
    DhcpType, DownloaderStatus, DPCState, ErrorAndTime, ErrorAndTimeWithSource, ErrorDescription,
    ErrorSeverity, EveNodeStatus, EveOnboardingStatus, EveVaultStatus, Inprogress, NetworkType,
    PCRStatus, RadioSilence, SnapshottingStatus, SwState, UUIDandVersion, VmConfig, VmMode,
};
use monitor_core::model::{
    AppInstanceState, MonitorModel, NodeStatus, OnboardingStatus, VaultStatus,
};
use monitor_core::time::Timestamp;

fn error_description(text: &str) -> ErrorDescription {
    ErrorDescription {
        error: text.to_string(),
        error_time: Timestamp { secs: 7, nanos: 0 },
        error_severity: ErrorSeverity::Error,
        error_retry_condition: String::new(),
        error_entities: None,
    }
}

fn error_and_time(text: &str) -> ErrorAndTime {
    ErrorAndTime { error_description: error_description(text) }
}

fn vm_config() -> VmConfig {
    VmConfig {
        kernel: String::new(),
        ramdisk: String::new(),
        memory: 0,
        max_mem: 0,
        vcpus: 0,
        max_cpus: 0,
        root_dev: String::new(),
        extra_args: String::new(),
        boot_loader: String::new(),
        cpus: None,
        device_tree: String::new(),
        dt_dev: None,
        irqs: None,
        iomem: None,
        virtualization_mode: VmMode::HVM,
        enable_vnc: false,
        vnc_display: 0,
        vnc_passwd: String::new(),
        cpus_pinned: false,
        vmm_max_mem: 0,
        enable_vnc_shim_vm: false,
    }
}

fn app_status(uuid: u128, name: &str, state: SwState, error: &str) -> AppInstanceStatus {
    AppInstanceStatus {
        uuid_and_version: UUIDandVersion { uuid, version: "1".to_string() },
        display_name: name.to_string(),
        domain_name: String::new(),
        activated: true,
        activate_inprogress: false,
        fixed_resources: vm_config(),
        volume_ref_status_list: Vec::new(),
        app_net_adapters: Vec::new(),
        boot_time: String::new(),
        io_adapter_list: Vec::new(),
        restart_inprogress: Inprogress::NotInprogress,
        restart_started_at: String::new(),
        purge_inprogress: Inprogress::NotInprogress,
        purge_started_at: String::new(),
        state,
        missing_network: false,
        missing_memory: false,
        error_and_time_with_source: ErrorAndTimeWithSource {
            error_source_type: String::new(),
            error_description: error_description(error),
        },
        start_time: String::new(),
        snap_status: SnapshottingStatus {},
        mem_overhead: 0,
    }
}

fn vault_status(
    status: DataSecAtRestStatus,
    pcr: PCRStatus,
    error: &str,
    pcrs: Option<Vec<u32>>,
) -> EveVaultStatus {
    EveVaultStatus {
        name: "vault".to_string(),
        status,
        pcr_status: pcr,
        conversion_complete: true,
        mismatching_pcrs: pcrs,
        error_and_time: error_and_time(error),
    }
}

fn network_status_without_ports() -> DeviceNetworkStatus {
    DeviceNetworkStatus {
        dpc_key: "zedagent".to_string(),
        version: 1,
        testing: false,
        state: DPCState::Success,
        current_index: 0,
        radio_silence: RadioSilence {
            imposed: false,
            change_in_progress: false,
            change_requested_at: Timestamp { secs: 0, nanos: 0 },
            config_error: String::new(),
        },
        ports: None,
    }
}

#[test]
fn app_status_upsert_is_idempotent() {
    let mut model = MonitorModel::default();
    let update = app_status(42, "app", SwState::Running, "");
    model.update_app_status(update.clone());
    model.update_app_status(update);
    assert_eq!(model.apps.len(), 1);
    let entry = model.apps.get(&42).expect("entry for the id");
    assert_eq!(entry.name, "app".to_string());
    assert_eq!(entry.uuid, 42);
    assert_eq!(entry.version, "1".to_string());
    assert_eq!(entry.state, AppInstanceState::Normal(SwState::Running));
}

#[test]
fn app_status_error_field_drives_state() {
    let mut model = MonitorModel::default();
    model.update_app_status(app_status(1, "bad", SwState::Broken, "boom"));
    let entry = model.apps.get(&1).expect("entry");
    assert_eq!(entry.state, AppInstanceState::Error(SwState::Broken, "boom".to_string()));
}

#[test]
fn app_list_replaces_wholesale_later_entry_wins() {
    let mut model = MonitorModel::default();
    model.update_app_status(app_status(9, "old", SwState::Halted, ""));
    let list = AppsList {
        apps: vec![
            app_status(1, "one", SwState::Running, ""),
            app_status(1, "one-renamed", SwState::Paused, ""),
            app_status(2, "two", SwState::Booting, ""),
        ],
    };
    model.update_app_list(list);
    assert_eq!(model.apps.len(), 2);
    assert_eq!(model.apps.get(&9), None);
    assert_eq!(model.apps.get(&1).unwrap().name, "one-renamed".to_string());
    assert_eq!(model.apps.get(&2).unwrap().name, "two".to_string());
}

#[test]
fn network_update_leaves_other_topics_alone() {
    let mut model = MonitorModel::default();
    model.update_app_status(app_status(5, "app", SwState::Running, ""));
    model.update_vault_status(vault_status(
        DataSecAtRestStatus::DataSecAtRestEnabled,
        PCRStatus::PcrEnabled,
        "",
        None,
    ));
    model.update_node_status(EveNodeStatus {
        server: Some("controller".to_string()),
        node_uuid: Some(7),
        onboarded: true,
        app_instance_summary: None,
    });
    let apps_before: Vec<_> = model.apps.get(&5).cloned().into_iter().collect();
    let vault_before = model.vault_status.clone();
    let node_before = model.node_status.clone();

    model.update_network_status(network_status_without_ports());

    assert_eq!(model.network.len(), 0);
    assert_eq!(model.apps.get(&5).cloned().into_iter().collect::<Vec<_>>(), apps_before);
    assert_eq!(model.vault_status, vault_before);
    assert_eq!(model.node_status, node_before);
}

#[test]
fn vault_locked_with_pcrs_on_key_unavailable() {
    let vs = vault_status(
        DataSecAtRestStatus::DataSecAtRestError,
        PCRStatus::PcrEnabled,
        "fetching key failed: Vault key unavailable on this boot",
        Some(vec![0, 4, 7]),
    );
    match VaultStatus::from_eve(vs) {
        VaultStatus::Locked(err, pcrs) => {
            assert!(err.error.contains("Vault key unavailable"));
            assert_eq!(pcrs, Some(vec![0, 4, 7]));
        }
        other => panic!("expected a locked vault, got {:?}", other),
    }
}

#[test]
fn vault_locked_without_pcrs_on_other_error() {
    let vs = vault_status(
        DataSecAtRestStatus::DataSecAtRestError,
        PCRStatus::PcrEnabled,
        "some other failure",
        Some(vec![1]),
    );
    match VaultStatus::from_eve(vs) {
        VaultStatus::Locked(err, pcrs) => {
            assert_eq!(err.error, "some other failure".to_string());
            assert_eq!(pcrs, None);
        }
        other => panic!("expected a locked vault, got {:?}", other),
    }
}

#[test]
fn vault_unlocked_without_tpm() {
    let vs = vault_status(
        DataSecAtRestStatus::DataSecAtRestEnabled,
        PCRStatus::PcrDisabled,
        "",
        None,
    );
    assert_eq!(VaultStatus::from_eve(vs), VaultStatus::Unlocked(false));
}

#[test]
fn vault_disabled_and_unknown() {
    let vs = vault_status(
        DataSecAtRestStatus::DataSecAtRestDisabled,
        PCRStatus::PcrEnabled,
        "disabled on purpose",
        None,
    );
    match VaultStatus::from_eve(vs) {
        VaultStatus::EncryptionDisabled(err, tpm_used) => {
            assert_eq!(err.error, "disabled on purpose".to_string());
            assert!(tpm_used);
        }
        other => panic!("expected encryption disabled, got {:?}", other),
    }
    let vs = vault_status(DataSecAtRestStatus::DataSecAtRestUnknown, PCRStatus::PcrUnknown, "", None);
    assert_eq!(VaultStatus::from_eve(vs), VaultStatus::Unknown);
}

#[test]
fn node_status_mapping() {
    let onboarded = NodeStatus::from_eve(EveNodeStatus {
        server: Some("srv".to_string()),
        node_uuid: Some(0xabcdu128),
        onboarded: true,
        app_instance_summary: None,
    });
    assert_eq!(onboarded.onboarding_status, OnboardingStatus::Onboarded(0xabcdu128));
    assert_eq!(onboarded.server, Some("srv".to_string()));
    assert_eq!(onboarded.app_summary, AppInstanceSummary::default());

    let missing = NodeStatus::from_eve(EveNodeStatus {
        server: None,
        node_uuid: None,
        onboarded: true,
        app_instance_summary: None,
    });
    assert_eq!(
        missing.onboarding_status,
        OnboardingStatus::Error("Node UUID is missing".to_string())
    );

    let onboarding = NodeStatus::from_eve(EveNodeStatus {
        server: None,
        node_uuid: Some(3),
        onboarded: false,
        app_instance_summary: None,
    });
    assert_eq!(onboarding.onboarding_status, OnboardingStatus::Onboarding);
}

#[test]
fn onboarding_update_sets_identity() {
    let mut model = MonitorModel::default();
    model.update_onboarding_status(EveOnboardingStatus {
        device_uuid: 0xfeedu128,
        hardware_model: "box".to_string(),
    });
    assert_eq!(
        model.node_status.onboarding_status,
        OnboardingStatus::Onboarded(0xfeedu128)
    );
}

#[test]
fn summary_update_touches_counts_alone() {
    let mut model = MonitorModel::default();
    model.update_onboarding_status(EveOnboardingStatus {
        device_uuid: 1,
        hardware_model: String::new(),
    });
    let counts = AppInstanceSummary {
        total_starting: 1,
        total_running: 2,
        total_stopping: 3,
        total_error: 4,
    };
    model.update_app_summary(counts);
    assert_eq!(model.node_status.app_summary, counts);
    assert_eq!(model.node_status.onboarding_status, OnboardingStatus::Onboarded(1));
}

#[test]
fn downloader_update_replaces_snapshot() {
    let mut model = MonitorModel::default();
    assert_eq!(model.downloader, None);
    let status = DownloaderStatus {
        image_sha256: "sha".to_string(),
        datastore_id_list: vec![1, 2],
        target: "t".to_string(),
        name: "image".to_string(),
        ref_count: 1,
        last_use: Timestamp { secs: 1, nanos: 0 },
        expired: false,
        name_is_url: false,
        state: SwState::Downloading,
        reserved_space: 0,
        size: 10,
        total_size: 10,
        current_size: 5,
        progress: 50,
        mod_time: Timestamp { secs: 2, nanos: 0 },
        content_type: String::new(),
        error_and_time: error_and_time(""),
        retry_count: 0,
        orig_error: String::new(),
    };
    model.update_downloader_status(status.clone());
    assert_eq!(model.downloader, Some(status));
}

#[test]
fn model_default_is_empty() {
    let model = MonitorModel::default();
    assert_eq!(model.dmesg.len(), 0);
    assert_eq!(model.network.len(), 0);
    assert_eq!(model.downloader, None);
    assert_eq!(model.apps.len(), 0);
    assert_eq!(model.vault_status, VaultStatus::Unknown);
    assert_eq!(model.node_status.onboarding_status, OnboardingStatus::Unknown);
}

#[test]
fn sw_state_names_and_codes() {
    assert_eq!(SwState::Running.to_string(), "Running".to_string());
    assert_eq!(SwState::Halted.to_string(), "Halted".to_string());
    assert_eq!(SwState::Running.code(), 115);
    assert_eq!(SwState::from_code(115), Some(SwState::Running));
    assert_eq!(SwState::from_code(99), None);
    assert_eq!(SwState::from_code(126), None);
    assert_eq!(DhcpType::Client.code(), 4);
    assert_eq!(DhcpType::from_code(1), Some(DhcpType::Static));
    assert_eq!(DhcpType::from_code(9), None);
    assert_eq!(DataSecAtRestStatus::from_code(4), Some(DataSecAtRestStatus::DataSecAtRestError));
    assert_eq!(DataSecAtRestStatus::from_code(3), None);
    assert_eq!(PCRStatus::from_code(1), Some(PCRStatus::PcrEnabled));
    assert_eq!(PCRStatus::from_code(5), None);
    let _ = NetworkType::NOOP;
}

#[test]
fn dmesg_lines_append_in_order() {
    let mut model = MonitorModel::default();
    model.append_dmesg_line("one".to_string());
    model.append_dmesg_line("two".to_string());
    assert_eq!(model.dmesg, vec!["one".to_string(), "two".to_string()]);
    assert_eq!(model.vault_status, VaultStatus::Unknown);
}
