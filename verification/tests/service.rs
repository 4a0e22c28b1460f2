use teepod::config::{
    AuthConfig, Config, CvmConfig, GatewayConfig, Networking, PortMappingConfig, PortRange,
    Protocol, SupervisorConfig, UserNetworking,
};
use teepod::error::VmmError;
use teepod::ident::app_id_of;
use teepod::rpc::{Id, PortMappingRequest, ResizeVmRequest, UpgradeAppRequest, VmConfiguration};
use teepod::service::{App, ImageInfo, RpcHandler, VmStatus};

fn test_config(port_mapping_enabled: bool) -> Config {
    Config {
        image_path: "/var/lib/images".to_string(),
        run_path: "/var/run/vms".to_string(),
        qemu_path: "/usr/bin/qemu-system-x86_64".to_string(),
        kms_url: "https://kms.example".to_string(),
        cvm: CvmConfig {
            ca_cert: "/etc/certs/ca.cert".to_string(),
            tmp_ca_cert: "/etc/certs/tmp-ca.cert".to_string(),
            tmp_ca_key: "/etc/certs/tmp-ca.key".to_string(),
            kms_url: "https://kms.example".to_string(),
            tproxy_url: "https://tproxy.example".to_string(),
            docker_registry: "https://registry.example".to_string(),
            max_disk_size: 500,
            cid_start: 100,
            cid_pool_size: 2,
            port_mapping: PortMappingConfig {
                enabled: port_mapping_enabled,
                address: "127.0.0.1".to_string(),
                range: vec![PortRange { protocol: Protocol::Tcp, from: 8000, to: 9000 }],
            },
            max_allocable_vcpu: 16,
            max_allocable_memory_in_mb: 65536,
        },
        gateway: GatewayConfig {
            base_domain: "vms.example".to_string(),
            port: 443,
            tappd_port: 8090,
        },
        networking: Networking::User(UserNetworking {
            net: "10.0.2.0/24".to_string(),
            dhcp_start: "10.0.2.10".to_string(),
            restrict: false,
        }),
        auth: AuthConfig { enabled: false, tokens: Vec::new() },
        supervisor: SupervisorConfig {
            exe: "/usr/bin/supervisor".to_string(),
            sock: "/run/supervisor.sock".to_string(),
            pid_file: "/run/supervisor.pid".to_string(),
            log_file: "/var/log/supervisor.log".to_string(),
        },
    }
}

fn test_images() -> Vec<ImageInfo> {
    vec![ImageInfo {
        name: "ubuntu-24.04".to_string(),
        rootfs_hash: Some("deadbeef".to_string()),
    }]
}

fn handler(port_mapping_enabled: bool) -> RpcHandler {
    RpcHandler { app: App::load(test_config(port_mapping_enabled), test_images(), Vec::new()).unwrap() }
}

fn web_request(ports: Vec<PortMappingRequest>) -> VmConfiguration {
    VmConfiguration {
        name: "web-1".to_string(),
        image: "ubuntu-24.04".to_string(),
        compose_file: "{\"manifest_version\":1,\"name\":\"web\",\"runner\":\"docker-compose\",\"docker_compose_file\":\"services: {}\"}".to_string(),
        vcpu: 2,
        memory: 2048,
        disk_size: 20,
        ports,
        encrypted_env: Vec::new(),
        app_id: None,
    }
}

fn tcp_8080() -> PortMappingRequest {
    PortMappingRequest { protocol: "tcp".to_string(), host_port: 8080, vm_port: 80 }
}

#[test]
fn create_web_vm_with_mapping() {
    // Pool allows TCP [8000,9000]; CID pool is [100,102).
    let mut h = handler(true);
    let r = h.create_vm_with_id(&web_request(vec![tcp_8080()]), "id-1", 1234);
    assert_eq!(r.map(|i| i.id), Ok("id-1".to_string()));
    let inst = &h.app.instances[0];
    assert_eq!(inst.cid, 100);
    assert_eq!(inst.manifest.name, "web-1");
    assert_eq!(inst.manifest.vcpu, 2);
    assert_eq!(inst.manifest.memory, 2048);
    assert_eq!(inst.manifest.disk_size, 20);
    assert_eq!(inst.manifest.created_at_ms, 1234);
    assert_eq!(inst.manifest.port_map.len(), 1);
    assert_eq!(inst.manifest.port_map[0].protocol, Protocol::Tcp);
    assert_eq!(inst.manifest.port_map[0].from, 8080);
    assert_eq!(inst.manifest.port_map[0].to, 80);
    assert_eq!(inst.manifest.port_map[0].address, "127.0.0.1");
    assert_eq!(inst.manifest.app_id, app_id_of(&web_request(Vec::new()).compose_file));
    assert_eq!(inst.vm_config.rootfs_hash, "deadbeef");
    assert_eq!(inst.vm_config.kms_url, "https://kms.example");
    assert!(inst.started);
    assert_eq!(inst.status, VmStatus::Running);
}

#[test]
fn second_create_takes_next_cid_and_third_is_refused() {
    let mut h = handler(true);
    assert!(h.create_vm_with_id(&web_request(Vec::new()), "id-1", 1).is_ok());
    assert!(h.create_vm_with_id(&web_request(Vec::new()), "id-2", 2).is_ok());
    assert_eq!(h.app.instances[1].cid, 101);
    // Pool [100,102) is now exhausted: no work directory may appear.
    let r = h.create_vm_with_id(&web_request(Vec::new()), "id-3", 3);
    assert_eq!(r.map(|i| i.id), Err(VmmError::ResourceExhausted));
    assert_eq!(h.app.instances.len(), 2);
    assert!(h.app.find_vm_index("id-3").is_none());
}

#[test]
fn failed_launch_rollback_releases_resources() {
    let mut h = handler(true);
    assert!(h.create_vm_with_id(&web_request(vec![tcp_8080()]), "id-1", 1).is_ok());
    // The backend launch failed: the compensation removes the work
    // directory and releases the claimed CID and ports.
    assert_eq!(h.remove_vm("id-1"), Ok(()));
    assert!(h.app.find_vm_index("id-1").is_none());
    assert!(!h.app.pool.is_cid_claimed(100));
    // Both the CID and the port can be claimed by the next create.
    assert!(h.create_vm_with_id(&web_request(vec![tcp_8080()]), "id-2", 2).is_ok());
    assert_eq!(h.app.instances[0].cid, 100);
}

#[test]
fn duplicate_id_is_a_conflict() {
    let mut h = handler(true);
    assert!(h.create_vm_with_id(&web_request(Vec::new()), "id-1", 1).is_ok());
    let r = h.create_vm_with_id(&web_request(Vec::new()), "id-1", 2);
    assert_eq!(r.map(|i| i.id), Err(VmmError::Conflict));
    assert_eq!(h.app.instances.len(), 1);
}

#[test]
fn port_mapping_disabled_rejects_requests_with_ports() {
    let mut h = handler(false);
    let r = h.create_vm_with_id(&web_request(vec![tcp_8080()]), "id-1", 1);
    assert_eq!(r.map(|i| i.id), Err(VmmError::Validation));
    assert_eq!(h.app.instances.len(), 0);
    // Without ports the same request goes through.
    assert!(h.create_vm_with_id(&web_request(Vec::new()), "id-2", 2).is_ok());
}

#[test]
fn disallowed_port_is_rejected() {
    let mut h = handler(true);
    let mut req = web_request(vec![PortMappingRequest {
        protocol: "tcp".to_string(),
        host_port: 79,
        vm_port: 80,
    }]);
    assert_eq!(
        h.create_vm_with_id(&req, "id-1", 1).map(|i| i.id),
        Err(VmmError::Validation)
    );
    req.ports = vec![PortMappingRequest {
        protocol: "icmp".to_string(),
        host_port: 8080,
        vm_port: 80,
    }];
    assert_eq!(
        h.create_vm_with_id(&req, "id-2", 1).map(|i| i.id),
        Err(VmmError::Validation)
    );
    req.ports = vec![PortMappingRequest {
        protocol: "tcp".to_string(),
        host_port: 70000,
        vm_port: 80,
    }];
    assert_eq!(
        h.create_vm_with_id(&req, "id-3", 1).map(|i| i.id),
        Err(VmmError::Validation)
    );
}

#[test]
fn conflicting_port_claims_are_refused() {
    let mut h = handler(true);
    assert!(h.create_vm_with_id(&web_request(vec![tcp_8080()]), "id-1", 1).is_ok());
    let r = h.create_vm_with_id(&web_request(vec![tcp_8080()]), "id-2", 2);
    assert_eq!(r.map(|i| i.id), Err(VmmError::Conflict));
    // A request that repeats a mapping conflicts with itself.
    let mut h2 = handler(true);
    let r2 = h2.create_vm_with_id(&web_request(vec![tcp_8080(), tcp_8080()]), "id-1", 1);
    assert_eq!(r2.map(|i| i.id), Err(VmmError::Conflict));
    assert_eq!(h2.app.instances.len(), 0);
}

#[test]
fn invalid_name_is_rejected() {
    let mut h = handler(true);
    let mut req = web_request(Vec::new());
    req.name = "web 1".to_string();
    assert_eq!(
        h.create_vm_with_id(&req, "id-1", 1).map(|i| i.id),
        Err(VmmError::Validation)
    );
    req.name = "web/1".to_string();
    assert_eq!(
        h.create_vm_with_id(&req, "id-2", 1).map(|i| i.id),
        Err(VmmError::Validation)
    );
    // Unicode letters count as alphanumeric, as the validation promises.
    req.name = "wéb-1".to_string();
    assert!(h.create_vm_with_id(&req, "id-3", 1).is_ok());
}

#[test]
fn unknown_image_is_not_found() {
    let mut h = handler(true);
    let mut req = web_request(Vec::new());
    req.image = "no-such-image".to_string();
    assert_eq!(
        h.create_vm_with_id(&req, "id-1", 1).map(|i| i.id),
        Err(VmmError::NotFound)
    );
}

#[test]
fn image_without_rootfs_hash_is_rejected() {
    let config = test_config(true);
    let images = vec![ImageInfo { name: "broken".to_string(), rootfs_hash: None }];
    let mut h = RpcHandler { app: App::load(config, images, Vec::new()).unwrap() };
    let mut req = web_request(Vec::new());
    req.image = "broken".to_string();
    assert_eq!(
        h.create_vm_with_id(&req, "id-1", 1).map(|i| i.id),
        Err(VmmError::Validation)
    );
}

#[test]
fn explicit_app_id_overrides_derived() {
    let mut h = handler(true);
    let mut req = web_request(Vec::new());
    req.app_id = Some("customid".to_string());
    assert!(h.create_vm_with_id(&req, "id-1", 1).is_ok());
    let inst = &h.app.instances[0];
    assert_eq!(inst.manifest.app_id, "customid");
    assert_eq!(inst.instance_info.as_ref().map(|ii| ii.app_id.clone()), Some("customid".to_string()));
    // An explicit empty app id is recorded but leaves no identity stamp.
    let mut req2 = web_request(Vec::new());
    req2.app_id = Some(String::new());
    assert!(h.create_vm_with_id(&req2, "id-2", 1).is_ok());
    let inst2 = &h.app.instances[1];
    assert_eq!(inst2.manifest.app_id, "");
    assert!(inst2.instance_info.is_none());
}

#[test]
fn remove_vm_is_idempotent() {
    let mut h = handler(true);
    assert!(h.create_vm_with_id(&web_request(Vec::new()), "id-1", 1).is_ok());
    assert_eq!(h.remove_vm("id-1"), Ok(()));
    assert_eq!(h.remove_vm("id-1"), Err(VmmError::NotFound));
    assert_eq!(h.remove_vm("never-created"), Err(VmmError::NotFound));
}

#[test]
fn status_reflects_existing_records() {
    let mut h = handler(true);
    assert_eq!(h.status().vms.len(), 0);
    assert!(h.status().port_mapping_enabled);
    assert!(h.create_vm_with_id(&web_request(Vec::new()), "id-1", 1).is_ok());
    assert!(h.create_vm_with_id(&web_request(Vec::new()), "id-2", 2).is_ok());
    let s = h.status();
    assert_eq!(s.vms.len(), 2);
    assert_eq!(s.vms[0].id, "id-1");
    assert_eq!(s.vms[0].name, "web-1");
    assert_eq!(s.vms[0].status, "running");
    assert_eq!(h.remove_vm("id-1"), Ok(()));
    let s2 = h.status();
    assert_eq!(s2.vms.len(), 1);
    assert_eq!(s2.vms[0].id, "id-2");
}

#[test]
fn start_and_stop_update_run_state() {
    let mut h = handler(true);
    assert!(h.create_vm_with_id(&web_request(Vec::new()), "id-1", 1).is_ok());
    assert_eq!(h.stop_vm("id-1"), Ok(()));
    assert_eq!(h.app.instances[0].status, VmStatus::Stopped);
    assert!(!h.app.instances[0].started);
    assert_eq!(h.start_vm("id-1"), Ok(()));
    assert_eq!(h.app.instances[0].status, VmStatus::Running);
    assert!(h.app.instances[0].started);
    assert_eq!(h.start_vm("missing"), Err(VmmError::NotFound));
    assert_eq!(h.stop_vm("missing"), Err(VmmError::NotFound));
}

#[test]
fn resize_running_vm_is_a_conflict() {
    let mut h = handler(true);
    assert!(h.create_vm_with_id(&web_request(Vec::new()), "id-1", 1).is_ok());
    let req = ResizeVmRequest {
        id: "id-1".to_string(),
        vcpu: Some(8),
        memory: None,
        disk_size: None,
    };
    assert_eq!(h.resize_vm(&req), Err(VmmError::Conflict));
    // The manifest is untouched.
    assert_eq!(h.app.instances[0].manifest.vcpu, 2);
    assert_eq!(h.app.instances[0].manifest.memory, 2048);
}

#[test]
fn resize_stopped_vm_applies_only_given_fields() {
    let mut h = handler(true);
    assert!(h.create_vm_with_id(&web_request(Vec::new()), "id-1", 1).is_ok());
    assert_eq!(h.stop_vm("id-1"), Ok(()));
    let req = ResizeVmRequest {
        id: "id-1".to_string(),
        vcpu: Some(8),
        memory: None,
        disk_size: Some(40),
    };
    assert_eq!(h.resize_vm(&req), Ok(()));
    let m = &h.app.instances[0].manifest;
    assert_eq!(m.vcpu, 8);
    assert_eq!(m.memory, 2048);
    assert_eq!(m.disk_size, 40);
    assert_eq!(m.name, "web-1");
    let missing = ResizeVmRequest {
        id: "missing".to_string(),
        vcpu: None,
        memory: None,
        disk_size: None,
    };
    assert_eq!(h.resize_vm(&missing), Err(VmmError::NotFound));
}

#[test]
fn upgrade_with_invalid_compose_changes_nothing() {
    let mut h = handler(true);
    assert!(h.create_vm_with_id(&web_request(Vec::new()), "id-1", 1).is_ok());
    let before = h.app.instances[0].compose_file.clone();
    // The payload lacks any container-runner definition.
    let req = UpgradeAppRequest {
        id: "id-1".to_string(),
        compose_file: "{\"manifest_version\":1,\"name\":\"web\",\"runner\":\"r\"}".to_string(),
        encrypted_env: Vec::new(),
    };
    assert_eq!(h.upgrade_app(&req).map(|i| i.id), Err(VmmError::Validation));
    assert_eq!(h.app.instances[0].compose_file, before);
}

#[test]
fn upgrade_replaces_compose_and_returns_new_app_id() {
    let mut h = handler(true);
    assert!(h.create_vm_with_id(&web_request(Vec::new()), "id-1", 1).is_ok());
    let old_app_id = h.app.instances[0].manifest.app_id.clone();
    let new_compose = "{\"manifest_version\":1,\"name\":\"web\",\"runner\":\"docker-compose\",\"docker_compose_file\":\"services: {v2: {}}\"}";
    let req = UpgradeAppRequest {
        id: "id-1".to_string(),
        compose_file: new_compose.to_string(),
        encrypted_env: vec![1, 2, 3],
    };
    let r = h.upgrade_app(&req).unwrap();
    assert_eq!(r.id, app_id_of(new_compose));
    assert_eq!(h.app.instances[0].compose_file, new_compose);
    assert_eq!(h.app.instances[0].encrypted_env.as_deref(), Some(&[1u8, 2, 3][..]));
    // The recorded application id is immutable.
    assert_eq!(h.app.instances[0].manifest.app_id, old_app_id);
}

#[test]
fn upgrade_without_compose_returns_empty_id() {
    let mut h = handler(true);
    assert!(h.create_vm_with_id(&web_request(Vec::new()), "id-1", 1).is_ok());
    let req = UpgradeAppRequest {
        id: "id-1".to_string(),
        compose_file: String::new(),
        encrypted_env: vec![9],
    };
    assert_eq!(h.upgrade_app(&req).map(|i| i.id), Ok(String::new()));
    assert_eq!(h.app.instances[0].encrypted_env.as_deref(), Some(&[9u8][..]));
    // An unknown instance has nowhere to write the blob.
    let missing = UpgradeAppRequest {
        id: "missing".to_string(),
        compose_file: String::new(),
        encrypted_env: vec![9],
    };
    assert_eq!(h.upgrade_app(&missing).map(|i| i.id), Err(VmmError::IoFailure));
    // With nothing to do the upgrade succeeds trivially.
    let noop = UpgradeAppRequest {
        id: "missing".to_string(),
        compose_file: String::new(),
        encrypted_env: Vec::new(),
    };
    assert_eq!(h.upgrade_app(&noop).map(|i| i.id), Ok(String::new()));
}

#[test]
fn upgrade_of_missing_instance_is_not_found() {
    let mut h = handler(true);
    let req = UpgradeAppRequest {
        id: "missing".to_string(),
        compose_file: "{\"manifest_version\":1,\"name\":\"web\",\"runner\":\"r\",\"docker_compose_file\":\"x\"}".to_string(),
        encrypted_env: Vec::new(),
    };
    assert_eq!(h.upgrade_app(&req).map(|i| i.id), Err(VmmError::NotFound));
}

#[test]
fn get_info_reports_found_flag() {
    let mut h = handler(true);
    assert!(h.create_vm_with_id(&web_request(Vec::new()), "id-1", 1).is_ok());
    let found = h.get_info(&Id { id: "id-1".to_string() });
    assert!(found.found);
    assert_eq!(found.info.as_ref().unwrap().id, "id-1");
    assert_eq!(found.info.as_ref().unwrap().status, "running");
    let missing = h.get_info(&Id { id: "nope".to_string() });
    assert!(!missing.found);
    assert!(missing.info.is_none());
}

#[test]
fn get_meta_reports_config() {
    let h = handler(true);
    let m = h.get_meta();
    assert_eq!(m.kms.url, "https://kms.example");
    assert_eq!(m.tproxy.url, "https://tproxy.example");
    assert_eq!(m.tproxy.base_domain, "vms.example");
    assert_eq!(m.tproxy.port, 443);
    assert_eq!(m.tproxy.tappd_port, 8090);
    assert_eq!(m.resources.max_cvm_number, 2);
    assert_eq!(m.resources.max_allocable_vcpu, 16);
    assert_eq!(m.resources.max_allocable_memory_in_mb, 65536);
    assert_eq!(m.resources.max_disk_size_in_gb, 500);
}

#[test]
fn list_images_reports_names() {
    let h = handler(true);
    let l = h.list_images();
    assert_eq!(l.images.len(), 1);
    assert_eq!(l.images[0].name, "ubuntu-24.04");
    assert_eq!(l.images[0].description, "");
}

#[test]
fn kms_client_url_appends_rpc_path() {
    let h = handler(true);
    assert_eq!(h.kms_client_url(), Ok("https://kms.example/prpc".to_string()));
    let mut cfg = test_config(true);
    cfg.kms_url = String::new();
    let h2 = RpcHandler { app: App::load(cfg, test_images(), Vec::new()).unwrap() };
    assert_eq!(h2.kms_client_url(), Err(VmmError::Validation));
}

#[test]
fn work_dir_paths() {
    let h = handler(true);
    assert_eq!(h.shared_dir("id-1"), "/var/run/vms/id-1/shared");
    assert_eq!(h.compose_file_path("id-1"), "/var/run/vms/id-1/shared/app-compose.json");
    assert_eq!(h.encrypted_env_path("id-1"), "/var/run/vms/id-1/shared/encrypted-env");
}

#[test]
fn create_vm_generates_distinct_ids() {
    let mut h = handler(true);
    let a = h.create_vm(&web_request(Vec::new()), 1).unwrap();
    let b = h.create_vm(&web_request(Vec::new()), 2).unwrap();
    assert_eq!(a.id.len(), 36);
    assert_eq!(b.id.len(), 36);
    assert_ne!(a.id, b.id);
}

#[test]
fn reload_reclaims_recorded_resources() {
    // Create two instances, then rebuild the state from their records:
    // the pool must not re-offer their CIDs or ports.
    let mut h = handler(true);
    assert!(h.create_vm_with_id(&web_request(vec![tcp_8080()]), "id-1", 1).is_ok());
    assert!(h.create_vm_with_id(&web_request(Vec::new()), "id-2", 2).is_ok());
    let records = h.app.instances;
    let mut h2 = RpcHandler {
        app: App::load(test_config(true), test_images(), records).unwrap(),
    };
    assert!(h2.app.pool.is_cid_claimed(100));
    assert!(h2.app.pool.is_cid_claimed(101));
    let r = h2.create_vm_with_id(&web_request(Vec::new()), "id-3", 3);
    assert_eq!(r.map(|i| i.id), Err(VmmError::ResourceExhausted));
    // The recorded port mapping is claimed again as well.
    assert_eq!(h2.remove_vm("id-2"), Ok(()));
    let r2 = h2.create_vm_with_id(&web_request(vec![tcp_8080()]), "id-3", 3);
    assert_eq!(r2.map(|i| i.id), Err(VmmError::Conflict));
}

#[test]
fn reload_rejects_contradictory_records() {
    let mut h = handler(true);
    assert!(h.create_vm_with_id(&web_request(Vec::new()), "id-1", 1).is_ok());
    let mut records = h.app.instances.clone();
    let mut dup = records[0].clone();
    dup.manifest.id = "id-2".to_string();
    records.push(dup);
    // Two records holding the same CID cannot both be live.
    assert!(App::load(test_config(true), test_images(), records).is_err());
}

#[test]
fn prepare_work_dir_assembles_payload() {
    let h = handler(true);
    let (vmc, stamp, env) = h.prepare_work_dir("id-1", &web_request(Vec::new())).unwrap();
    assert_eq!(vmc.rootfs_hash, "deadbeef");
    assert_eq!(vmc.kms_url, "https://kms.example");
    assert_eq!(vmc.tproxy_url, "https://tproxy.example");
    assert_eq!(vmc.docker_registry, "https://registry.example");
    assert!(stamp.is_none());
    assert!(env.is_none());

    let mut req = web_request(Vec::new());
    req.app_id = Some("customid".to_string());
    req.encrypted_env = vec![7, 8];
    let (_, stamp2, env2) = h.prepare_work_dir("id-2", &req).unwrap();
    assert_eq!(stamp2.map(|ii| ii.app_id), Some("customid".to_string()));
    assert_eq!(env2, Some(vec![7, 8]));
}

#[test]
fn prepare_work_dir_refuses_existing_id() {
    let mut h = handler(true);
    assert!(h.create_vm_with_id(&web_request(Vec::new()), "id-1", 1).is_ok());
    assert_eq!(
        h.prepare_work_dir("id-1", &web_request(Vec::new())).map(|_| ()),
        Err(VmmError::Conflict)
    );
}

#[test]
fn validate_label_checks_characters() {
    assert!(teepod::service::validate_label("web-1_2").is_ok());
    assert!(teepod::service::validate_label("").is_ok());
    assert_eq!(teepod::service::validate_label("web 1"), Err(VmmError::Validation));
    assert_eq!(teepod::service::validate_label("a/b"), Err(VmmError::Validation));
}

#[test]
fn error_kinds_have_stable_names() {
    assert_eq!(VmmError::Validation.as_str(), "validation error");
    assert_eq!(VmmError::ResourceExhausted.as_str(), "resource exhausted");
    assert_eq!(VmmError::Conflict.as_str(), "conflict");
    assert_eq!(VmmError::NotFound.as_str(), "not found");
    assert_eq!(VmmError::BackendFailure.as_str(), "backend failure");
    assert_eq!(VmmError::IoFailure.as_str(), "io failure");
}

#[test]
fn reload_rejects_duplicate_ids() {
    let mut h = handler(true);
    assert!(h.create_vm_with_id(&web_request(Vec::new()), "id-1", 1).is_ok());
    let mut records = h.app.instances.clone();
    let mut dup = records[0].clone();
    dup.cid = 101;
    records.push(dup);
    // Two records holding the same instance id cannot both be live.
    assert_eq!(
        App::load(test_config(true), test_images(), records).map(|_| ()),
        Err(VmmError::Conflict)
    );
}

#[test]
fn reload_rejects_duplicate_port_claims() {
    let mut h = handler(true);
    assert!(h.create_vm_with_id(&web_request(vec![tcp_8080()]), "id-1", 1).is_ok());
    let mut records = h.app.instances.clone();
    let mut dup = records[0].clone();
    dup.manifest.id = "id-2".to_string();
    dup.cid = 101;
    records.push(dup);
    // Two records claiming the same (protocol, host port) pair cannot
    // both be live.
    assert_eq!(
        App::load(test_config(true), test_images(), records).map(|_| ()),
        Err(VmmError::Conflict)
    );
}
