use transaction_generator::node_config::{
    parse_u64, Error, IndexerEnv, NetworkConfig, NetworkId, NodeConfig, RoleType, RootPath,
};

#[test]
fn verify_configs() {
    NodeConfig::default_for_public_full_node();
    NodeConfig::default_for_validator();
    NodeConfig::default_for_validator_full_node();
}

#[test]
fn validate_invalid_network_id() {
    let mut config = NodeConfig::default_for_public_full_node();
    let network = config.full_node_networks.iter_mut().next().unwrap();
    network.network_id = NetworkId::Validator;
    assert!(matches!(
        config.validate_network_configs(),
        Err(Error::InvariantViolation(_))
    ));
}

#[test]
fn validate_network_configs_accepts_defaults() {
    assert!(NodeConfig::default_for_public_full_node()
        .validate_network_configs()
        .is_ok());
    assert!(NodeConfig::default_for_validator()
        .validate_network_configs()
        .is_ok());
    assert!(NodeConfig::default_for_validator_full_node()
        .validate_network_configs()
        .is_ok());
}

#[test]
fn validate_network_configs_requires_validator_network() {
    let mut config = NodeConfig::default_for_validator();
    config.validator_network = None;
    assert!(matches!(
        config.validate_network_configs(),
        Err(Error::InvariantViolation(_))
    ));

    let mut config = NodeConfig::default_for_public_full_node();
    config.validator_network = Some(NetworkConfig {
        network_id: NetworkId::Validator,
        listen_port: 7,
        mutual_authentication: false,
        peer_id: 0,
        identity_key: 0,
    });
    assert!(matches!(
        config.validate_network_configs(),
        Err(Error::InvariantViolation(_))
    ));
}

#[test]
fn validate_network_configs_normalizes_validator_network() {
    let mut config = NodeConfig::default_for_validator();
    let network = config.validator_network.as_mut().unwrap();
    network.mutual_authentication = false;
    let validated = config.validate_network_configs().unwrap();
    let network = validated.validator_network.unwrap();
    assert!(network.mutual_authentication);
    assert_eq!(network.network_id, NetworkId::Validator);
}

#[test]
fn parse_u64_exact_values() {
    assert_eq!(parse_u64("0"), Some(0));
    assert_eq!(parse_u64("123"), Some(123));
    assert_eq!(parse_u64("18446744073709551615"), Some(u64::MAX));
    assert_eq!(parse_u64("18446744073709551616"), None);
    assert_eq!(parse_u64(""), None);
    assert_eq!(parse_u64("12a"), None);
    assert_eq!(parse_u64("-1"), None);
}

#[test]
fn indexer_grpc_defaults_filled_when_enabled() {
    let mut config = NodeConfig::default_for_public_full_node();
    config.indexer_grpc.enabled = true;
    let validated = config.validate_indexer_grpc_configs().unwrap();
    assert_eq!(validated.indexer_grpc.address.as_deref(), Some("0.0.0.0:50051"));
    assert_eq!(validated.indexer_grpc.processor_task_count, Some(20));
    assert_eq!(validated.indexer_grpc.processor_batch_size, Some(1000));
    assert_eq!(validated.indexer_grpc.output_batch_size, Some(100));
}

#[test]
fn indexer_grpc_untouched_when_disabled() {
    let config = NodeConfig::default_for_public_full_node();
    let validated = config.validate_indexer_grpc_configs().unwrap();
    assert_eq!(validated.indexer_grpc.address, None);
    assert_eq!(validated.indexer_grpc.processor_task_count, None);
}

#[test]
fn indexer_defaults_and_env_overrides() {
    let mut config = NodeConfig::default_for_public_full_node();
    config.indexer.enabled = true;
    config.indexer.batch_size = Some(0);
    let env = IndexerEnv {
        database_url: Some("postgres://localhost/db".to_string()),
        processor_name: None,
        starting_version: Some("42".to_string()),
        gap_lookback_versions: Some("bogus".to_string()),
    };
    let validated = config.validate_indexer_configs(env).unwrap();
    assert_eq!(
        validated.indexer.postgres_uri.as_deref(),
        Some("postgres://localhost/db")
    );
    assert_eq!(validated.indexer.processor.as_deref(), Some("default_processor"));
    assert_eq!(validated.indexer.starting_version, Some(42));
    assert_eq!(validated.indexer.skip_migrations, Some(false));
    assert_eq!(validated.indexer.check_chain_id, Some(true));
    assert_eq!(validated.indexer.batch_size, Some(500));
    assert_eq!(validated.indexer.fetch_tasks, Some(5));
    assert_eq!(validated.indexer.processor_tasks, Some(5));
    assert_eq!(validated.indexer.emit_every, Some(0));
    assert_eq!(validated.indexer.gap_lookback_versions, Some(1_500_000));
}

#[test]
fn randomize_ports_applies_given_ports() {
    let mut config = NodeConfig::default_for_validator_full_node();
    let ports = vec![7001u16, 7002u16];
    config.randomize_ports(8081, 9102, 6187, 6190, &ports);
    assert_eq!(config.api.port, 8081);
    assert_eq!(config.inspection_service.port, 9102);
    assert_eq!(config.storage.backup_service_port, 6187);
    assert!(!config.logger.enable_console);
    assert_eq!(config.full_node_networks[0].listen_port, 7001);
    assert_eq!(config.full_node_networks[1].listen_port, 7002);
}

#[test]
fn data_dir_and_working_dir() {
    let mut config = NodeConfig::default_for_public_full_node();
    assert_eq!(config.data_dir(), "/opt/data");
    assert_eq!(config.working_dir(), "/opt/data");
    config.base.working_dir = Some("/tmp/work".to_string());
    assert_eq!(config.working_dir(), "/tmp/work");
    config.set_data_dir("/var/data".to_string());
    assert_eq!(config.data_dir(), "/var/data");
    assert_eq!(config.consensus.data_dir, "/var/data");
    assert_eq!(config.storage.data_dir, "/var/data");
}

#[test]
fn peer_id_and_identity_key_follow_role() {
    let mut config = NodeConfig::default_for_public_full_node();
    let network = config.full_node_networks.iter_mut().next().unwrap();
    network.peer_id = 42;
    network.identity_key = 43;
    assert_eq!(config.peer_id(), Some(42));
    assert_eq!(config.identity_key(), Some(43));

    let mut config = NodeConfig::default_for_validator();
    let network = config.validator_network.as_mut().unwrap();
    network.peer_id = 7;
    network.identity_key = 8;
    assert_eq!(config.peer_id(), Some(7));
    assert_eq!(config.identity_key(), Some(8));

    let mut config = NodeConfig::default_for_public_full_node();
    config.full_node_networks.clear();
    assert_eq!(config.peer_id(), None);
    assert_eq!(config.identity_key(), None);
}

#[test]
fn role_type_is_validator() {
    assert!(RoleType::Validator.is_validator());
    assert!(!RoleType::FullNode.is_validator());
}

#[test]
fn root_path_resolution() {
    let root = RootPath::new("/etc/node/node.yaml");
    assert_eq!(root.full_path("genesis.blob"), "/etc/node/genesis.blob");
    assert_eq!(root.full_path("/abs/genesis.blob"), "/abs/genesis.blob");

    // A bare file name has no parent: paths resolve as-is, like a join
    // against an empty path.
    let root = RootPath::new("bare_file.yaml");
    assert_eq!(root.full_path("x"), "x");

    let root = RootPath::new_path("/etc/node");
    assert_eq!(root.full_path("waypoint.txt"), "/etc/node/waypoint.txt");
}

#[test]
fn root_path_parent_edge_cases() {
    // A file directly under the root: the parent is the root itself.
    let root = RootPath::new("/node.yaml");
    assert_eq!(root.full_path("genesis.blob"), "/genesis.blob");

    // Trailing separators are ignored when taking the parent.
    let root = RootPath::new("/etc/node/");
    assert_eq!(root.full_path("f"), "/etc/f");
    let root = RootPath::new("x/");
    assert_eq!(root.full_path("f"), "f");

    // The filesystem root has no parent.
    let root = RootPath::new("/");
    assert_eq!(root.full_path("f"), "f");

    // A directory handed to new_path may end in a separator; no second
    // separator is inserted.
    let root = RootPath::new_path("/etc/node/");
    assert_eq!(root.full_path("f"), "/etc/node/f");
}
