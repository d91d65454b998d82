use scylla_rust_wrapper::cass_error::CassError;
use scylla_rust_wrapper::cluster::{
    cass_cluster_new, cass_cluster_set_contact_points, cass_cluster_set_credentials,
    cass_cluster_set_load_balance_dc_aware, cass_cluster_set_port,
};
use scylla_rust_wrapper::session::build_session_builder;

#[test]
fn assembly_pairs_each_contact_point_with_the_port() {
    let mut cluster = cass_cluster_new();
    assert_eq!(
        cass_cluster_set_contact_points(&mut cluster, Some("alpha, beta")),
        CassError::CASS_OK
    );
    let plan = build_session_builder(&cluster);
    assert_eq!(plan.known_nodes, vec!["alpha:9042".to_string(), "beta:9042".to_string()]);
    assert!(plan.credentials.is_none());

    assert_eq!(cass_cluster_set_port(&mut cluster, 1), CassError::CASS_OK);
    let plan = build_session_builder(&cluster);
    assert_eq!(plan.known_nodes, vec!["alpha:1".to_string(), "beta:1".to_string()]);

    assert_eq!(cass_cluster_set_port(&mut cluster, 65535), CassError::CASS_OK);
    let plan = build_session_builder(&cluster);
    assert_eq!(plan.known_nodes[0], "alpha:65535");

    assert_eq!(cass_cluster_set_port(&mut cluster, 10), CassError::CASS_OK);
    let plan = build_session_builder(&cluster);
    assert_eq!(plan.known_nodes[1], "beta:10");
}

#[test]
fn assembly_snapshots_and_leaves_the_handle_reusable() {
    let mut cluster = cass_cluster_new();
    assert_eq!(
        cass_cluster_set_contact_points(&mut cluster, Some("one")),
        CassError::CASS_OK
    );
    cass_cluster_set_credentials(&mut cluster, "u", "p");
    assert_eq!(
        cass_cluster_set_load_balance_dc_aware(&mut cluster, Some("dc1"), 0, false),
        CassError::CASS_OK
    );

    let plan = build_session_builder(&cluster);
    assert_eq!(plan.credentials, Some(("u".to_string(), "p".to_string())));
    assert_eq!(
        plan.load_balancing_config
            .dc_awareness
            .as_ref()
            .unwrap()
            .local_dc,
        "dc1"
    );

    // Mutating the handle after assembly does not reach the snapshot.
    assert_eq!(
        cass_cluster_set_contact_points(&mut cluster, Some("two")),
        CassError::CASS_OK
    );
    cass_cluster_set_credentials(&mut cluster, "u2", "p2");
    assert_eq!(plan.known_nodes, vec!["one:9042".to_string()]);
    assert_eq!(plan.credentials, Some(("u".to_string(), "p".to_string())));

    // And the handle stayed usable: a second assembly sees the new state.
    let plan2 = build_session_builder(&cluster);
    assert_eq!(
        plan2.known_nodes,
        vec!["one:9042".to_string(), "two:9042".to_string()]
    );
    assert_eq!(plan2.credentials, Some(("u2".to_string(), "p2".to_string())));
}
