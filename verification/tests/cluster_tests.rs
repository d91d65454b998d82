use scylla_rust_wrapper::cass_error::CassError;
use scylla_rust_wrapper::cluster::{
    cass_cluster_new, cass_cluster_set_cloud_secure_connection_bundle_n,
    cass_cluster_set_compression, cass_cluster_set_connect_timeout, cass_cluster_set_consistency,
    cass_cluster_set_constant_speculative_execution_policy, cass_cluster_set_contact_points,
    cass_cluster_set_credentials, cass_cluster_set_execution_profile,
    cass_cluster_set_exponential_reconnect, cass_cluster_set_latency_aware_routing,
    cass_cluster_set_latency_aware_routing_settings, cass_cluster_set_load_balance_dc_aware,
    cass_cluster_set_load_balance_round_robin, cass_cluster_set_no_speculative_execution_policy,
    cass_cluster_set_port, cass_cluster_set_protocol_version, cass_cluster_set_retry_policy,
    cass_cluster_set_serial_consistency, cass_cluster_set_tcp_nodelay,
    cass_cluster_set_token_aware_routing, cass_cluster_set_use_beta_protocol_version,
    cass_cluster_set_use_schema, Compression,
};
use scylla_rust_wrapper::exec_profile::{
    cass_execution_profile_new, CassConsistency, CassRetryPolicy, Consistency, SerialConsistency,
};

#[test]
fn test_load_balancing_config() {
    let mut cluster = cass_cluster_new();
    // Defaults.
    assert!(cluster.load_balancing_config.dc_awareness.is_none());
    assert!(cluster.load_balancing_config.token_awareness_enabled);
    assert!(!cluster.load_balancing_config.latency_awareness_enabled);

    // Valid configuration.
    cass_cluster_set_token_aware_routing(&mut cluster, false);
    assert_eq!(
        cass_cluster_set_load_balance_dc_aware(&mut cluster, Some("eu"), 0, false),
        CassError::CASS_OK
    );
    cass_cluster_set_latency_aware_routing(&mut cluster, true);
    cass_cluster_set_latency_aware_routing_settings(
        &mut cluster,
        2.0f64.to_bits(),
        1,
        2000,
        100,
        40,
    );

    let dc = cluster.load_balancing_config.dc_awareness.as_ref().unwrap();
    assert_eq!(dc.local_dc, "eu");
    assert!(!cluster.load_balancing_config.token_awareness_enabled);
    assert!(cluster.load_balancing_config.latency_awareness_enabled);

    // Nonzero deprecated parameters are rejected.
    assert_eq!(
        cass_cluster_set_load_balance_dc_aware(&mut cluster, Some("eu"), 1, false),
        CassError::CASS_ERROR_LIB_BAD_PARAMS
    );
    assert_eq!(
        cass_cluster_set_load_balance_dc_aware(&mut cluster, Some("eu"), 0, true),
        CassError::CASS_ERROR_LIB_BAD_PARAMS
    );
}

#[test]
fn test_register_exec_profile() {
    let mut cluster = cass_cluster_new();
    let exec_profile = cass_execution_profile_new();
    assert_eq!(cluster.execution_profile_map().len(), 0);

    assert_eq!(
        cass_cluster_set_execution_profile(&mut cluster, Some("profile1"), Some(&exec_profile)),
        CassError::CASS_OK
    );
    assert_eq!(cluster.execution_profile_map().len(), 1);
    assert!(cluster.execution_profile_map().get("profile1").is_some());

    assert_eq!(
        cass_cluster_set_execution_profile(&mut cluster, Some("profile1"), Some(&exec_profile)),
        CassError::CASS_OK
    );
    assert_eq!(cluster.execution_profile_map().len(), 1);
    assert!(cluster.execution_profile_map().get("profile1").is_some());

    assert_eq!(
        cass_cluster_set_execution_profile(&mut cluster, Some("profile2"), Some(&exec_profile)),
        CassError::CASS_OK
    );
    assert_eq!(cluster.execution_profile_map().len(), 2);
    assert!(cluster.execution_profile_map().get("profile2").is_some());

    // Missing name.
    assert_eq!(
        cass_cluster_set_execution_profile(&mut cluster, None, Some(&exec_profile)),
        CassError::CASS_ERROR_LIB_BAD_PARAMS
    );
    // Empty name.
    assert_eq!(
        cass_cluster_set_execution_profile(&mut cluster, Some(""), Some(&exec_profile)),
        CassError::CASS_ERROR_LIB_BAD_PARAMS
    );
    // Missing profile.
    assert_eq!(
        cass_cluster_set_execution_profile(&mut cluster, Some("profile1"), None),
        CassError::CASS_ERROR_LIB_BAD_PARAMS
    );
    // The invalid calls did not influence the profile map.
    assert_eq!(cluster.execution_profile_map().len(), 2);
    assert!(cluster.execution_profile_map().get("profile1").is_some());
    assert!(cluster.execution_profile_map().get("profile2").is_some());
}

#[test]
fn invalid_port_leaves_configuration_unchanged() {
    let mut cluster = cass_cluster_new();
    assert_eq!(cass_cluster_set_port(&mut cluster, 9999), CassError::CASS_OK);
    assert_eq!(cluster.port, 9999);

    assert_eq!(
        cass_cluster_set_port(&mut cluster, 0),
        CassError::CASS_ERROR_LIB_BAD_PARAMS
    );
    assert_eq!(cluster.port, 9999);
    assert_eq!(
        cass_cluster_set_port(&mut cluster, -5),
        CassError::CASS_ERROR_LIB_BAD_PARAMS
    );
    assert_eq!(cluster.port, 9999);
    assert_eq!(
        cass_cluster_set_port(&mut cluster, 65536),
        CassError::CASS_ERROR_LIB_BAD_PARAMS
    );
    assert_eq!(cluster.port, 9999);

    assert_eq!(cass_cluster_set_port(&mut cluster, 1), CassError::CASS_OK);
    assert_eq!(cluster.port, 1);
    assert_eq!(cass_cluster_set_port(&mut cluster, 65535), CassError::CASS_OK);
    assert_eq!(cluster.port, 65535);
}

#[test]
fn empty_contact_points_clear_the_list() {
    let mut cluster = cass_cluster_new();
    assert_eq!(
        cass_cluster_set_contact_points(&mut cluster, Some("a,b")),
        CassError::CASS_OK
    );
    assert_eq!(cluster.contact_points, vec!["a".to_string(), "b".to_string()]);

    assert_eq!(
        cass_cluster_set_contact_points(&mut cluster, Some("")),
        CassError::CASS_OK
    );
    assert!(cluster.contact_points.is_empty());
}

#[test]
fn whitespace_only_contact_points_clear_the_list() {
    let mut cluster = cass_cluster_new();
    assert_eq!(
        cass_cluster_set_contact_points(&mut cluster, Some("host")),
        CassError::CASS_OK
    );
    assert_eq!(
        cass_cluster_set_contact_points(&mut cluster, Some(" , ,\t")),
        CassError::CASS_OK
    );
    assert!(cluster.contact_points.is_empty());
}

#[test]
fn contact_points_are_trimmed_filtered_and_appended() {
    let mut cluster = cass_cluster_new();
    assert_eq!(
        cass_cluster_set_contact_points(&mut cluster, Some("x")),
        CassError::CASS_OK
    );
    assert_eq!(
        cass_cluster_set_contact_points(&mut cluster, Some(" a , ,b ")),
        CassError::CASS_OK
    );
    assert_eq!(
        cluster.contact_points,
        vec!["x".to_string(), "a".to_string(), "b".to_string()]
    );
    // A missing string is rejected and changes nothing.
    assert_eq!(
        cass_cluster_set_contact_points(&mut cluster, None),
        CassError::CASS_ERROR_LIB_BAD_PARAMS
    );
    assert_eq!(cluster.contact_points.len(), 3);
}

#[test]
fn contact_points_unicode_whitespace_is_trimmed() {
    let mut cluster = cass_cluster_new();
    assert_eq!(
        cass_cluster_set_contact_points(&mut cluster, Some("\u{2000}a\u{3000},\u{00A0}\u{1680}")),
        CassError::CASS_OK
    );
    assert_eq!(cluster.contact_points, vec!["a".to_string()]);
}

#[test]
fn dc_aware_failure_keeps_previous_datacenter() {
    let mut cluster = cass_cluster_new();
    assert_eq!(
        cass_cluster_set_load_balance_dc_aware(&mut cluster, Some("eu"), 0, false),
        CassError::CASS_OK
    );
    assert_eq!(
        cass_cluster_set_load_balance_dc_aware(&mut cluster, Some("us"), 1, false),
        CassError::CASS_ERROR_LIB_BAD_PARAMS
    );
    assert_eq!(
        cass_cluster_set_load_balance_dc_aware(&mut cluster, Some("us"), 0, true),
        CassError::CASS_ERROR_LIB_BAD_PARAMS
    );
    assert_eq!(
        cass_cluster_set_load_balance_dc_aware(&mut cluster, Some(""), 0, false),
        CassError::CASS_ERROR_LIB_BAD_PARAMS
    );
    assert_eq!(
        cass_cluster_set_load_balance_dc_aware(&mut cluster, None, 0, false),
        CassError::CASS_ERROR_LIB_BAD_PARAMS
    );
    let dc = cluster.load_balancing_config.dc_awareness.as_ref().unwrap();
    assert_eq!(dc.local_dc, "eu");

    cass_cluster_set_load_balance_round_robin(&mut cluster);
    assert!(cluster.load_balancing_config.dc_awareness.is_none());
}

#[test]
fn register_overwrites_and_keeps_snapshot() {
    let mut cluster = cass_cluster_new();
    let mut first = cass_execution_profile_new();
    first.consistency = Some(Consistency::Quorum);
    let mut second = cass_execution_profile_new();
    second.consistency = Some(Consistency::All);

    assert_eq!(
        cass_cluster_set_execution_profile(&mut cluster, Some("p1"), Some(&first)),
        CassError::CASS_OK
    );
    assert_eq!(
        cass_cluster_set_execution_profile(&mut cluster, Some("p1"), Some(&second)),
        CassError::CASS_OK
    );
    assert_eq!(cluster.execution_profile_map().len(), 1);
    let got = cluster.execution_profile_map().get("p1").unwrap();
    assert_eq!(got.consistency, Some(Consistency::All));

    // The registry holds a snapshot: later edits to the source do not reach it.
    second.consistency = Some(Consistency::One);
    let got = cluster.execution_profile_map().get("p1").unwrap();
    assert_eq!(got.consistency, Some(Consistency::All));

    assert!(cluster.execution_profile_map().get("nope").is_none());
}

#[test]
fn protocol_version_validation() {
    let mut cluster = cass_cluster_new();
    assert_eq!(
        cass_cluster_set_protocol_version(&cluster, 4),
        CassError::CASS_OK
    );
    assert_eq!(
        cass_cluster_set_protocol_version(&cluster, 3),
        CassError::CASS_ERROR_LIB_BAD_PARAMS
    );
    assert_eq!(
        cass_cluster_set_use_beta_protocol_version(&mut cluster, true),
        CassError::CASS_OK
    );
    assert_eq!(
        cass_cluster_set_protocol_version(&cluster, 4),
        CassError::CASS_ERROR_LIB_BAD_PARAMS
    );
}

#[test]
fn exponential_reconnect_validation() {
    let cluster = cass_cluster_new();
    assert_eq!(
        cass_cluster_set_exponential_reconnect(&cluster, 2, 2),
        CassError::CASS_OK
    );
    assert_eq!(
        cass_cluster_set_exponential_reconnect(&cluster, 1, 5),
        CassError::CASS_ERROR_LIB_BAD_PARAMS
    );
    assert_eq!(
        cass_cluster_set_exponential_reconnect(&cluster, 5, 1),
        CassError::CASS_ERROR_LIB_BAD_PARAMS
    );
    assert_eq!(
        cass_cluster_set_exponential_reconnect(&cluster, 5, 4),
        CassError::CASS_ERROR_LIB_BAD_PARAMS
    );
}

#[test]
fn cloud_bundle_path_validation() {
    let cluster = cass_cluster_new();
    assert_eq!(
        cass_cluster_set_cloud_secure_connection_bundle_n(&cluster, "bundle.zip"),
        CassError::CASS_OK
    );
    assert_eq!(
        cass_cluster_set_cloud_secure_connection_bundle_n(&cluster, "invalid_filename"),
        CassError::CASS_ERROR_LIB_BAD_PARAMS
    );
}

#[test]
fn consistency_setters_validate_and_update_default_profile() {
    let mut cluster = cass_cluster_new();
    assert_eq!(
        cluster.default_execution_profile.consistency,
        Some(Consistency::LocalOne)
    );

    assert_eq!(
        cass_cluster_set_consistency(&mut cluster, CassConsistency::CASS_CONSISTENCY_QUORUM),
        CassError::CASS_OK
    );
    assert_eq!(
        cluster.default_execution_profile.consistency,
        Some(Consistency::Quorum)
    );

    assert_eq!(
        cass_cluster_set_consistency(&mut cluster, CassConsistency::CASS_CONSISTENCY_UNKNOWN),
        CassError::CASS_ERROR_LIB_BAD_PARAMS
    );
    assert_eq!(
        cluster.default_execution_profile.consistency,
        Some(Consistency::Quorum)
    );

    assert_eq!(
        cass_cluster_set_serial_consistency(
            &mut cluster,
            CassConsistency::CASS_CONSISTENCY_LOCAL_SERIAL
        ),
        CassError::CASS_OK
    );
    assert_eq!(
        cluster.default_execution_profile.serial_consistency,
        Some(SerialConsistency::LocalSerial)
    );
    assert_eq!(
        cass_cluster_set_serial_consistency(&mut cluster, CassConsistency::CASS_CONSISTENCY_ONE),
        CassError::CASS_ERROR_LIB_BAD_PARAMS
    );
    assert_eq!(
        cluster.default_execution_profile.serial_consistency,
        Some(SerialConsistency::LocalSerial)
    );
}

#[test]
fn speculative_execution_policy_setters() {
    let mut cluster = cass_cluster_new();
    assert_eq!(
        cass_cluster_set_constant_speculative_execution_policy(&mut cluster, -1, 0),
        CassError::CASS_ERROR_LIB_BAD_PARAMS
    );
    assert_eq!(
        cass_cluster_set_constant_speculative_execution_policy(&mut cluster, 0, -1),
        CassError::CASS_ERROR_LIB_BAD_PARAMS
    );
    assert!(cluster
        .default_execution_profile
        .speculative_execution_policy
        .is_none());

    assert_eq!(
        cass_cluster_set_constant_speculative_execution_policy(&mut cluster, 100, 2),
        CassError::CASS_OK
    );
    let policy = cluster
        .default_execution_profile
        .speculative_execution_policy
        .unwrap();
    assert_eq!(policy.retry_interval_ms, 100);
    assert_eq!(policy.max_retry_count, 2);

    assert_eq!(
        cass_cluster_set_no_speculative_execution_policy(&mut cluster),
        CassError::CASS_OK
    );
    assert!(cluster
        .default_execution_profile
        .speculative_execution_policy
        .is_none());
}

#[test]
fn ssl_context_handoff_is_recorded() {
    let mut cluster = cass_cluster_new();
    assert!(cluster.ssl_context.is_none());
    let context = openssl::ssl::SslContext::builder(openssl::ssl::SslMethod::tls())
        .unwrap()
        .build();
    scylla_rust_wrapper::cluster::cass_cluster_set_ssl(&mut cluster, context);
    assert!(cluster.ssl_context.is_some());
    // Assembly carries another shared handle to the same context.
    let plan = scylla_rust_wrapper::session::build_session_builder(&cluster);
    assert!(plan.ssl_context.is_some());
    assert!(cluster.ssl_context.is_some());
}

#[test]
fn transport_setters_record_their_values() {
    let mut cluster = cass_cluster_new();
    assert!(cluster.tcp_nodelay);
    assert!(cluster.fetch_schema_metadata);
    assert_eq!(cluster.connect_timeout_ms, 5000);
    assert!(cluster.compression.is_none());

    cass_cluster_set_tcp_nodelay(&mut cluster, false);
    cass_cluster_set_use_schema(&mut cluster, false);
    cass_cluster_set_connect_timeout(&mut cluster, 1234);
    cass_cluster_set_compression(
        &mut cluster,
        scylla_rust_wrapper::cluster::CassCompressionType::CASS_COMPRESSION_LZ4,
    );
    cass_cluster_set_credentials(&mut cluster, "user", "pass");
    cass_cluster_set_retry_policy(&mut cluster, CassRetryPolicy::FallthroughRetryPolicy);

    assert!(!cluster.tcp_nodelay);
    assert!(!cluster.fetch_schema_metadata);
    assert_eq!(cluster.connect_timeout_ms, 1234);
    assert_eq!(cluster.compression, Some(Compression::Lz4));
    assert_eq!(cluster.auth_username.as_deref(), Some("user"));
    assert_eq!(cluster.auth_password.as_deref(), Some("pass"));
    assert_eq!(
        cluster.default_execution_profile.retry_policy,
        Some(CassRetryPolicy::FallthroughRetryPolicy)
    );

    cass_cluster_set_compression(
        &mut cluster,
        scylla_rust_wrapper::cluster::CassCompressionType::CASS_COMPRESSION_NONE,
    );
    assert!(cluster.compression.is_none());
}
