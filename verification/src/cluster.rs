use vstd::prelude::*;

use crate::cass_error::CassError;
use crate::exec_profile::{
    consistency_of, serial_consistency_of, CassConsistency, CassExecProfile, CassRetryPolicy,
    ExecProfileMap, ExecProfileName, SimpleSpeculativeExecutionPolicy,
};
use crate::exec_profile::{spec_consistency_of, spec_serial_consistency_of};
use crate::load_balancing::{
    dc_aware_params_valid, set_load_balance_dc_aware_n, LatencyAwarenessSettings,
    LoadBalancingConfig,
};
use crate::text::{parsed_contact_points, seq_views, split_trimmed_non_empty};

verus! {

/// Compression algorithm used on connections.
#[allow(missing_docs)]
#[derive(Clone, Copy, Debug, PartialEq, Eq, Structural)]
pub enum Compression {
    Lz4,
    Snappy,
}

/// Compression choice as callers of the flat call surface name it.
#[allow(non_camel_case_types, missing_docs)]
#[derive(Clone, Copy, Debug, PartialEq, Eq, Structural)]
pub enum CassCompressionType {
    CASS_COMPRESSION_NONE,
    CASS_COMPRESSION_LZ4,
    CASS_COMPRESSION_SNAPPY,
}

/// Custom payloads are not supported; the placeholder type keeps the call
/// surface complete.
pub struct CassCustomPayload;

/// TLS contexts come from the TLS library and are opaque here: a cluster
/// handle only carries one through to session assembly.
#[verifier::external_type_specification]
#[verifier::external_body]
pub struct ExSslContext(openssl::ssl::SslContext);

/// Relies on openssl's `SslContext::clone`: it yields another shared handle
/// to the same context by raising its reference count. Nothing is assumed of
/// the result's contents.
pub assume_specification[ <openssl::ssl::SslContext as Clone>::clone ](
    ctx: &openssl::ssl::SslContext,
) -> openssl::ssl::SslContext;

/// Accumulated transport and policy settings of one cluster handle.
///
/// Setters validate first and mutate second: a rejected call leaves every
/// field exactly as it was. The handle performs no synchronization of its
/// own; a caller must serialize mutating calls on one handle.
pub struct CassCluster {
    pub contact_points: Vec<String>,
    pub port: u16,
    pub auth_username: Option<String>,
    pub auth_password: Option<String>,
    pub use_beta_protocol_version: bool,
    pub compression: Option<Compression>,
    pub tcp_nodelay: bool,
    pub connect_timeout_ms: u64,
    pub fetch_schema_metadata: bool,
    /// Shared with the caller; opaque to this layer.
    pub ssl_context: Option<openssl::ssl::SslContext>,
    pub default_execution_profile: CassExecProfile,
    pub execution_profile_map: ExecProfileMap,
    pub load_balancing_config: LoadBalancingConfig,
}

impl CassCluster {
    /// Read access to the registry of named profiles.
    pub fn execution_profile_map(&self) -> (r: &ExecProfileMap)
        ensures
            r == &self.execution_profile_map,
    {
        &self.execution_profile_map
    }
}

/// A fresh cluster handle with the default configuration: port 9042, no
/// contact points, no credentials, no compression, TCP no-delay on, a five
/// second connect timeout, schema fetching on, a default profile whose
/// consistency is `LocalOne`, an empty profile registry, and default load
/// balancing (token awareness only).
pub fn cass_cluster_new() -> (r: CassCluster)
    ensures
        r.contact_points@.len() == 0,
        r.port == 9042,
        r.auth_username is None,
        r.auth_password is None,
        !r.use_beta_protocol_version,
        r.compression is None,
        r.tcp_nodelay,
        r.connect_timeout_ms == 5000,
        r.fetch_schema_metadata,
        r.ssl_context is None,
        r.default_execution_profile == (CassExecProfile {
            consistency: Some(crate::exec_profile::Consistency::LocalOne),
            serial_consistency: None,
            retry_policy: None,
            speculative_execution_policy: None,
        }),
        r.execution_profile_map@ == Map::<Seq<char>, CassExecProfile>::empty(),
        r.load_balancing_config.token_awareness_enabled,
        r.load_balancing_config.dc_awareness is None,
        !r.load_balancing_config.latency_awareness_enabled,
        r.load_balancing_config.latency_awareness_settings is None,
{
    CassCluster {
        contact_points: Vec::new(),
        port: 9042,
        auth_username: None,
        auth_password: None,
        use_beta_protocol_version: false,
        compression: None,
        tcp_nodelay: true,
        connect_timeout_ms: 5000,
        fetch_schema_metadata: true,
        ssl_context: None,
        default_execution_profile: CassExecProfile {
            consistency: Some(crate::exec_profile::Consistency::LocalOne),
            serial_consistency: None,
            retry_policy: None,
            speculative_execution_policy: None,
        },
        execution_profile_map: ExecProfileMap::new(),
        load_balancing_config: LoadBalancingConfig::default(),
    }
}

/// Parses `contact_points` and updates the accumulated list: a missing
/// string is rejected; a string whose entries all trim to nothing clears the
/// list; otherwise the trimmed non-empty entries are appended, keeping every
/// entry already present.
pub fn cass_cluster_set_contact_points(
    cluster: &mut CassCluster,
    contact_points: Option<&str>,
) -> (r: CassError)
    ensures
        r == CassError::CASS_OK <==> contact_points is Some,
        r != CassError::CASS_OK ==> r == CassError::CASS_ERROR_LIB_BAD_PARAMS && *final(cluster)
            == *old(cluster),
        contact_points matches Some(s) ==> ({
            let parsed = parsed_contact_points(s@);
            &&& parsed.len() == 0 ==> seq_views(final(cluster).contact_points@) == Seq::<
                Seq<char>,
            >::empty()
            &&& parsed.len() > 0 ==> seq_views(final(cluster).contact_points@) == seq_views(
                old(cluster).contact_points@,
            ) + parsed
            &&& *final(cluster) == (CassCluster {
                contact_points: final(cluster).contact_points,
                ..*old(cluster)
            })
        }),
{
    match contact_points {
        None => CassError::CASS_ERROR_LIB_BAD_PARAMS,
        Some(s) => {
            let mut entries = split_trimmed_non_empty(s);
            if entries.is_empty() {
                cluster.contact_points.clear();
                proof {
                    assert(seq_views(cluster.contact_points@) =~= Seq::<Seq<char>>::empty());
                }
            } else {
                let ghost pre = cluster.contact_points@;
                let ghost added = entries@;
                cluster.contact_points.append(&mut entries);
                proof {
                    assert(seq_views(cluster.contact_points@) =~= seq_views(pre) + seq_views(
                        added,
                    ));
                }
            }
            CassError::CASS_OK
        },
    }
}

/// Accepted and ignored: randomized contact points are not supported.
pub fn cass_cluster_set_use_randomized_contact_points(
    _cluster: &mut CassCluster,
    _enabled: bool,
) -> (r: CassError)
    ensures
        r == CassError::CASS_OK,
        *final(_cluster) == *old(_cluster),
{
    CassError::CASS_OK
}

/// Turns schema-metadata fetching on or off.
pub fn cass_cluster_set_use_schema(cluster: &mut CassCluster, enabled: bool)
    ensures
        *final(cluster) == (CassCluster { fetch_schema_metadata: enabled, ..*old(cluster) }),
{
    cluster.fetch_schema_metadata = enabled;
}

/// Turns TCP no-delay on or off.
pub fn cass_cluster_set_tcp_nodelay(cluster: &mut CassCluster, enabled: bool)
    ensures
        *final(cluster) == (CassCluster { tcp_nodelay: enabled, ..*old(cluster) }),
{
    cluster.tcp_nodelay = enabled;
}

/// Sets the connect timeout, in milliseconds.
pub fn cass_cluster_set_connect_timeout(cluster: &mut CassCluster, timeout_ms: u32)
    ensures
        *final(cluster) == (CassCluster {
            connect_timeout_ms: timeout_ms as u64,
            ..*old(cluster)
        }),
{
    cluster.connect_timeout_ms = timeout_ms as u64;
}

/// Whether `port` can be carried by a cluster handle.
pub open spec fn port_valid(port: i32) -> bool {
    1 <= port <= 0xFFFF
}

/// Sets the port used for every contact point. A port outside 1..=65535 is
/// rejected and changes nothing; a valid port persists until the next valid
/// call.
pub fn cass_cluster_set_port(cluster: &mut CassCluster, port: i32) -> (r: CassError)
    ensures
        r == CassError::CASS_OK <==> port_valid(port),
        r == CassError::CASS_OK ==> *final(cluster) == (CassCluster {
            port: port as u16,
            ..*old(cluster)
        }),
        r != CassError::CASS_OK ==> r == CassError::CASS_ERROR_LIB_BAD_PARAMS && *final(cluster)
            == *old(cluster),
{
    if port < 1 || port > 0xFFFF {
        return CassError::CASS_ERROR_LIB_BAD_PARAMS;
    }
    cluster.port = port as u16;
    CassError::CASS_OK
}

/// Records the credentials to authenticate with; both parts are always set
/// together.
pub fn cass_cluster_set_credentials(cluster: &mut CassCluster, username: &str, password: &str)
    ensures
        final(cluster).auth_username matches Some(u) && u@ == username@,
        final(cluster).auth_password matches Some(p) && p@ == password@,
        *final(cluster) == (CassCluster {
            auth_username: final(cluster).auth_username,
            auth_password: final(cluster).auth_password,
            ..*old(cluster)
        }),
{
    cluster.auth_username = Some(username.to_owned());
    cluster.auth_password = Some(password.to_owned());
}

/// Hands the cluster a TLS context to secure its connections with;
/// ownership of the context is shared with the caller.
pub fn cass_cluster_set_ssl(cluster: &mut CassCluster, ssl_context: openssl::ssl::SslContext)
    ensures
        final(cluster).ssl_context == Some(ssl_context),
        *final(cluster) == (CassCluster {
            ssl_context: final(cluster).ssl_context,
            ..*old(cluster)
        }),
{
    cluster.ssl_context = Some(ssl_context);
}

/// Returns load balancing to plain round robin by dropping datacenter
/// awareness.
pub fn cass_cluster_set_load_balance_round_robin(cluster: &mut CassCluster)
    ensures
        final(cluster).load_balancing_config.dc_awareness is None,
        final(cluster).load_balancing_config == (LoadBalancingConfig {
            dc_awareness: None,
            ..old(cluster).load_balancing_config
        }),
        *final(cluster) == (CassCluster {
            load_balancing_config: final(cluster).load_balancing_config,
            ..*old(cluster)
        }),
{
    cluster.load_balancing_config.dc_awareness = None;
}

/// Enables datacenter-aware load balancing; see
/// [`set_load_balance_dc_aware_n`] for the validation rules.
pub fn cass_cluster_set_load_balance_dc_aware(
    cluster: &mut CassCluster,
    local_dc: Option<&str>,
    used_hosts_per_remote_dc: u32,
    allow_remote_dcs_for_local_cl: bool,
) -> (r: CassError)
    ensures
        r == CassError::CASS_OK <==> dc_aware_params_valid(
            local_dc.deep_view(),
            used_hosts_per_remote_dc,
            allow_remote_dcs_for_local_cl,
        ),
        r != CassError::CASS_OK ==> r == CassError::CASS_ERROR_LIB_BAD_PARAMS && *final(cluster)
            == *old(cluster),
        r == CassError::CASS_OK ==> ({
            &&& final(cluster).load_balancing_config.dc_awareness matches Some(dc)
                && dc.local_dc@ == local_dc.unwrap()@
            &&& final(cluster).load_balancing_config == (LoadBalancingConfig {
                dc_awareness: final(cluster).load_balancing_config.dc_awareness,
                ..old(cluster).load_balancing_config
            })
            &&& *final(cluster) == (CassCluster {
                load_balancing_config: final(cluster).load_balancing_config,
                ..*old(cluster)
            })
        }),
{
    set_load_balance_dc_aware_n(
        &mut cluster.load_balancing_config,
        local_dc,
        used_hosts_per_remote_dc,
        allow_remote_dcs_for_local_cl,
    )
}

/// Validates an exponential-reconnect schedule: both delays must exceed one
/// millisecond and the maximum must not undercut the base. The schedule
/// itself is not recorded.
pub fn cass_cluster_set_exponential_reconnect(
    _cluster: &CassCluster,
    base_delay_ms: u64,
    max_delay_ms: u64,
) -> (r: CassError)
    ensures
        r == CassError::CASS_OK <==> base_delay_ms > 1 && max_delay_ms > 1 && max_delay_ms
            >= base_delay_ms,
        r != CassError::CASS_OK ==> r == CassError::CASS_ERROR_LIB_BAD_PARAMS,
{
    if base_delay_ms <= 1 {
        return CassError::CASS_ERROR_LIB_BAD_PARAMS;
    }
    if max_delay_ms <= 1 {
        return CassError::CASS_ERROR_LIB_BAD_PARAMS;
    }
    if max_delay_ms < base_delay_ms {
        return CassError::CASS_ERROR_LIB_BAD_PARAMS;
    }
    CassError::CASS_OK
}

/// Accepts any bundle path except the placeholder; bundle contents are not
/// read here.
pub fn cass_cluster_set_cloud_secure_connection_bundle_n(
    _cluster: &CassCluster,
    path: &str,
) -> (r: CassError)
    ensures
        r == CassError::CASS_OK <==> path@ != "invalid_filename"@,
        r != CassError::CASS_OK ==> r == CassError::CASS_ERROR_LIB_BAD_PARAMS,
{
    let sentinel: String = "invalid_filename".to_owned();
    if path.to_owned() == sentinel {
        CassError::CASS_ERROR_LIB_BAD_PARAMS
    } else {
        CassError::CASS_OK
    }
}

/// Turns acceptance of beta protocol versions on or off.
pub fn cass_cluster_set_use_beta_protocol_version(
    cluster: &mut CassCluster,
    enable: bool,
) -> (r: CassError)
    ensures
        r == CassError::CASS_OK,
        *final(cluster) == (CassCluster { use_beta_protocol_version: enable, ..*old(cluster) }),
{
    cluster.use_beta_protocol_version = enable;
    CassError::CASS_OK
}

/// Checks the requested protocol version: only version four is supported,
/// and only while beta versions are not enabled. Nothing is recorded.
pub fn cass_cluster_set_protocol_version(cluster: &CassCluster, protocol_version: i32) -> (r:
    CassError)
    ensures
        r == CassError::CASS_OK <==> protocol_version == 4
            && !cluster.use_beta_protocol_version,
        r != CassError::CASS_OK ==> r == CassError::CASS_ERROR_LIB_BAD_PARAMS,
{
    if protocol_version == 4 && !cluster.use_beta_protocol_version {
        CassError::CASS_OK
    } else {
        CassError::CASS_ERROR_LIB_BAD_PARAMS
    }
}

/// Accepted and ignored: the event queue has no configurable size here.
pub fn cass_cluster_set_queue_size_event(
    _cluster: &mut CassCluster,
    _queue_size: u32,
) -> (r: CassError)
    ensures
        r == CassError::CASS_OK,
        *final(_cluster) == *old(_cluster),
{
    CassError::CASS_OK
}

/// Gives the default profile a constant-delay speculative-execution policy.
/// A negative delay or retry count is rejected and changes nothing.
pub fn cass_cluster_set_constant_speculative_execution_policy(
    cluster: &mut CassCluster,
    constant_delay_ms: i64,
    max_speculative_executions: i32,
) -> (r: CassError)
    ensures
        r == CassError::CASS_OK <==> constant_delay_ms >= 0 && max_speculative_executions >= 0,
        r != CassError::CASS_OK ==> r == CassError::CASS_ERROR_LIB_BAD_PARAMS && *final(cluster)
            == *old(cluster),
        r == CassError::CASS_OK ==> *final(cluster) == (CassCluster {
            default_execution_profile: CassExecProfile {
                speculative_execution_policy: Some(
                    SimpleSpeculativeExecutionPolicy {
                        max_retry_count: max_speculative_executions as u64,
                        retry_interval_ms: constant_delay_ms as u64,
                    },
                ),
                ..old(cluster).default_execution_profile
            },
            ..*old(cluster)
        }),
{
    if constant_delay_ms < 0 || max_speculative_executions < 0 {
        return CassError::CASS_ERROR_LIB_BAD_PARAMS;
    }
    cluster.default_execution_profile.speculative_execution_policy = Some(
        SimpleSpeculativeExecutionPolicy {
            max_retry_count: max_speculative_executions as u64,
            retry_interval_ms: constant_delay_ms as u64,
        },
    );
    CassError::CASS_OK
}

/// Removes any speculative-execution policy from the default profile.
pub fn cass_cluster_set_no_speculative_execution_policy(cluster: &mut CassCluster) -> (r:
    CassError)
    ensures
        r == CassError::CASS_OK,
        *final(cluster) == (CassCluster {
            default_execution_profile: CassExecProfile {
                speculative_execution_policy: None,
                ..old(cluster).default_execution_profile
            },
            ..*old(cluster)
        }),
{
    cluster.default_execution_profile.speculative_execution_policy = None;
    CassError::CASS_OK
}

/// Turns token-aware routing on or off.
pub fn cass_cluster_set_token_aware_routing(cluster: &mut CassCluster, enabled: bool)
    ensures
        *final(cluster) == (CassCluster {
            load_balancing_config: LoadBalancingConfig {
                token_awareness_enabled: enabled,
                ..old(cluster).load_balancing_config
            },
            ..*old(cluster)
        }),
{
    cluster.load_balancing_config.token_awareness_enabled = enabled;
}

/// Gives the default profile a retry policy.
pub fn cass_cluster_set_retry_policy(cluster: &mut CassCluster, retry_policy: CassRetryPolicy)
    ensures
        *final(cluster) == (CassCluster {
            default_execution_profile: CassExecProfile {
                retry_policy: Some(retry_policy),
                ..old(cluster).default_execution_profile
            },
            ..*old(cluster)
        }),
{
    cluster.default_execution_profile.retry_policy = Some(retry_policy);
}

/// The compression a `CassCompressionType` stands for.
pub open spec fn spec_compression_of(t: CassCompressionType) -> Option<Compression> {
    match t {
        CassCompressionType::CASS_COMPRESSION_LZ4 => Some(Compression::Lz4),
        CassCompressionType::CASS_COMPRESSION_SNAPPY => Some(Compression::Snappy),
        CassCompressionType::CASS_COMPRESSION_NONE => None,
    }
}

/// Chooses the compression used on connections; the `NONE` value switches
/// compression off.
pub fn cass_cluster_set_compression(
    cluster: &mut CassCluster,
    compression_type: CassCompressionType,
)
    ensures
        *final(cluster) == (CassCluster {
            compression: spec_compression_of(compression_type),
            ..*old(cluster)
        }),
{
    let compression = match compression_type {
        CassCompressionType::CASS_COMPRESSION_LZ4 => Some(Compression::Lz4),
        CassCompressionType::CASS_COMPRESSION_SNAPPY => Some(Compression::Snappy),
        CassCompressionType::CASS_COMPRESSION_NONE => None,
    };
    cluster.compression = compression;
}

/// Turns latency-aware routing on or off.
pub fn cass_cluster_set_latency_aware_routing(cluster: &mut CassCluster, enabled: bool)
    ensures
        *final(cluster) == (CassCluster {
            load_balancing_config: LoadBalancingConfig {
                latency_awareness_enabled: enabled,
                ..old(cluster).load_balancing_config
            },
            ..*old(cluster)
        }),
{
    cluster.load_balancing_config.latency_awareness_enabled = enabled;
}

/// Records the latency-awareness parameters. The exclusion threshold is an
/// opaque 64-bit payload; the scale parameter is accepted and ignored, as
/// the routing layer has no use for it.
pub fn cass_cluster_set_latency_aware_routing_settings(
    cluster: &mut CassCluster,
    exclusion_threshold_bits: u64,
    _scale_ms: u64,
    retry_period_ms: u64,
    update_rate_ms: u64,
    min_measured: u64,
)
    ensures
        *final(cluster) == (CassCluster {
            load_balancing_config: LoadBalancingConfig {
                latency_awareness_settings: Some(
                    LatencyAwarenessSettings {
                        exclusion_threshold_bits: exclusion_threshold_bits,
                        retry_period_ms: retry_period_ms,
                        update_rate_ms: update_rate_ms,
                        min_measurements: min_measured,
                    },
                ),
                ..old(cluster).load_balancing_config
            },
            ..*old(cluster)
        }),
{
    cluster.load_balancing_config.latency_awareness_settings = Some(
        LatencyAwarenessSettings {
            exclusion_threshold_bits: exclusion_threshold_bits,
            retry_period_ms: retry_period_ms,
            update_rate_ms: update_rate_ms,
            min_measurements: min_measured,
        },
    );
}

/// Sets the default profile's consistency; the placeholder `UNKNOWN` value
/// is rejected and changes nothing.
pub fn cass_cluster_set_consistency(cluster: &mut CassCluster, consistency: CassConsistency) -> (r:
    CassError)
    ensures
        r == CassError::CASS_OK <==> spec_consistency_of(consistency) is Some,
        r != CassError::CASS_OK ==> r == CassError::CASS_ERROR_LIB_BAD_PARAMS && *final(cluster)
            == *old(cluster),
        r == CassError::CASS_OK ==> *final(cluster) == (CassCluster {
            default_execution_profile: CassExecProfile {
                consistency: spec_consistency_of(consistency),
                ..old(cluster).default_execution_profile
            },
            ..*old(cluster)
        }),
{
    match consistency_of(consistency) {
        Some(c) => {
            cluster.default_execution_profile.consistency = Some(c);
            CassError::CASS_OK
        },
        None => CassError::CASS_ERROR_LIB_BAD_PARAMS,
    }
}

/// Sets the default profile's serial consistency; only the two serial
/// values are accepted, anything else changes nothing.
pub fn cass_cluster_set_serial_consistency(
    cluster: &mut CassCluster,
    serial_consistency: CassConsistency,
) -> (r: CassError)
    ensures
        r == CassError::CASS_OK <==> spec_serial_consistency_of(serial_consistency) is Some,
        r != CassError::CASS_OK ==> r == CassError::CASS_ERROR_LIB_BAD_PARAMS && *final(cluster)
            == *old(cluster),
        r == CassError::CASS_OK ==> *final(cluster) == (CassCluster {
            default_execution_profile: CassExecProfile {
                serial_consistency: spec_serial_consistency_of(serial_consistency),
                ..old(cluster).default_execution_profile
            },
            ..*old(cluster)
        }),
{
    match serial_consistency_of(serial_consistency) {
        Some(c) => {
            cluster.default_execution_profile.serial_consistency = Some(c);
            CassError::CASS_OK
        },
        None => CassError::CASS_ERROR_LIB_BAD_PARAMS,
    }
}

/// Registers a snapshot of `profile` under `name`. A missing or empty name,
/// or a missing profile, is rejected before the registry is touched; the
/// last registration for a name wins, and overwriting never grows the
/// registry. Later edits to the caller's profile do not reach the snapshot.
pub fn cass_cluster_set_execution_profile(
    cluster: &mut CassCluster,
    name: Option<&str>,
    profile: Option<&CassExecProfile>,
) -> (r: CassError)
    ensures
        r == CassError::CASS_OK <==> (name matches Some(n) && n@.len() > 0 && profile is Some),
        r != CassError::CASS_OK ==> r == CassError::CASS_ERROR_LIB_BAD_PARAMS && *final(cluster)
            == *old(cluster),
        r == CassError::CASS_OK ==> ({
            &&& final(cluster).execution_profile_map@ == old(cluster).execution_profile_map@.insert(
                name.unwrap()@,
                *profile.unwrap(),
            )
            &&& *final(cluster) == (CassCluster {
                execution_profile_map: final(cluster).execution_profile_map,
                ..*old(cluster)
            })
        }),
{
    let n = match name {
        Some(n) => n,
        None => {
            return CassError::CASS_ERROR_LIB_BAD_PARAMS;
        },
    };
    let p = match profile {
        Some(p) => *p,
        None => {
            return CassError::CASS_ERROR_LIB_BAD_PARAMS;
        },
    };
    match ExecProfileName::new(n.to_owned()) {
        Ok(key) => {
            cluster.execution_profile_map.insert(key, p);
            CassError::CASS_OK
        },
        Err(e) => e,
    }
}

} // verus!
