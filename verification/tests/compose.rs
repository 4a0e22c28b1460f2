use teepod::compose::{parse_app_compose, validate_app_compose, AppCompose, DockerConfig};
use teepod::error::VmmError;

fn full_compose() -> &'static str {
    "{\"manifest_version\":1,\"name\":\"myapp\",\"version\":\"1.0\",\
     \"features\":[\"kms\"],\"runner\":\"docker-compose\",\
     \"docker_compose_file\":\"services: {}\",\
     \"docker_config\":{\"registry\":\"https://reg.example\",\"username\":\"bob\"},\
     \"public_logs\":true,\"tproxy_enabled\":true}"
}

#[test]
fn parse_full_compose() {
    let c = parse_app_compose(full_compose()).unwrap();
    assert_eq!(c.manifest_version, 1);
    assert_eq!(c.name, "myapp");
    assert_eq!(c.runner, "docker-compose");
    assert_eq!(c.features, vec!["kms".to_string()]);
    assert_eq!(c.docker_compose_file.as_deref(), Some("services: {}"));
    assert_eq!(c.docker_config.registry.as_deref(), Some("https://reg.example"));
    assert_eq!(c.docker_config.username.as_deref(), Some("bob"));
    assert_eq!(c.docker_config.token_key, None);
    assert!(c.public_logs);
    assert!(!c.public_sysinfo);
    assert!(!c.kms_enabled);
    assert!(c.tproxy_enabled);
}

#[test]
fn parse_minimal_compose_defaults() {
    let c = parse_app_compose(
        "{\"manifest_version\":2,\"name\":\"a\",\"runner\":\"none\"}",
    )
    .unwrap();
    assert_eq!(c.manifest_version, 2);
    assert!(c.features.is_empty());
    assert_eq!(c.docker_compose_file, None);
    assert_eq!(c.docker_config.registry, None);
    assert!(!c.public_logs);
}

#[test]
fn parse_rejects_malformed_json() {
    assert_eq!(parse_app_compose("not json").unwrap_err(), VmmError::Validation);
    assert_eq!(parse_app_compose("").unwrap_err(), VmmError::Validation);
}

#[test]
fn parse_rejects_missing_required_members() {
    assert_eq!(
        parse_app_compose("{\"name\":\"a\",\"runner\":\"r\"}").unwrap_err(),
        VmmError::Validation
    );
    assert_eq!(
        parse_app_compose("{\"manifest_version\":1,\"runner\":\"r\"}").unwrap_err(),
        VmmError::Validation
    );
    assert_eq!(
        parse_app_compose("{\"manifest_version\":1,\"name\":\"a\"}").unwrap_err(),
        VmmError::Validation
    );
}

#[test]
fn parse_rejects_wrongly_typed_members() {
    assert_eq!(
        parse_app_compose("{\"manifest_version\":\"1\",\"name\":\"a\",\"runner\":\"r\"}")
            .unwrap_err(),
        VmmError::Validation
    );
    assert_eq!(
        parse_app_compose(
            "{\"manifest_version\":1,\"name\":\"a\",\"runner\":\"r\",\"features\":[1]}"
        )
        .unwrap_err(),
        VmmError::Validation
    );
    assert_eq!(
        parse_app_compose(
            "{\"manifest_version\":1,\"name\":\"a\",\"runner\":\"r\",\"public_logs\":\"yes\"}"
        )
        .unwrap_err(),
        VmmError::Validation
    );
}

#[test]
fn validate_requires_container_runner_payload() {
    // No docker_compose_file at all: parses, but fails the upgrade check.
    let no_runner = "{\"manifest_version\":1,\"name\":\"a\",\"runner\":\"r\"}";
    assert!(parse_app_compose(no_runner).is_ok());
    assert_eq!(validate_app_compose(no_runner).unwrap_err(), VmmError::Validation);

    assert!(validate_app_compose(full_compose()).is_ok());
}

#[test]
fn feature_queries() {
    let c = AppCompose {
        manifest_version: 1,
        name: "a".to_string(),
        features: vec!["tproxy-net".to_string()],
        runner: "r".to_string(),
        docker_compose_file: None,
        docker_config: DockerConfig::default(),
        public_logs: false,
        public_sysinfo: false,
        kms_enabled: false,
        tproxy_enabled: false,
    };
    assert!(c.feature_enabled("tproxy-net"));
    assert!(!c.feature_enabled("kms"));
    assert!(c.tproxy_enabled());
    assert!(!c.kms_enabled());

    let d = AppCompose { kms_enabled: true, features: Vec::new(), ..c };
    assert!(d.kms_enabled());
    assert!(!d.tproxy_enabled());
}
