use vstd::prelude::*;

use crate::cass_error::CassError;

verus! {

/// Datacenter-awareness: queries prefer replicas in the named local
/// datacenter, with cross-datacenter failover permitted.
pub struct DcAwareness {
    pub local_dc: String,
}

impl Clone for DcAwareness {
    fn clone(&self) -> (r: Self)
        ensures
            r == *self,
    {
        DcAwareness { local_dc: self.local_dc.clone() }
    }
}

/// Parameters for the latency-aware routing wrapper.
///
/// The exclusion threshold is a binary ratio chosen by the caller; this layer
/// carries it as an opaque 64-bit payload and never interprets it.
#[derive(Clone, Copy)]
pub struct LatencyAwarenessSettings {
    pub exclusion_threshold_bits: u64,
    pub retry_period_ms: u64,
    pub update_rate_ms: u64,
    pub min_measurements: u64,
}

/// Accumulated load-balancing settings of a cluster handle.
///
/// Building the concrete routing policy out of these settings schedules
/// background work, so it must happen under a live asynchronous scheduler;
/// that step lives outside this crate and reads this value as a snapshot.
pub struct LoadBalancingConfig {
    pub token_awareness_enabled: bool,
    pub dc_awareness: Option<DcAwareness>,
    pub latency_awareness_enabled: bool,
    /// `None` means the routing layer's own defaults are used.
    pub latency_awareness_settings: Option<LatencyAwarenessSettings>,
}

impl Clone for LoadBalancingConfig {
    fn clone(&self) -> (r: Self)
        ensures
            r == *self,
    {
        LoadBalancingConfig {
            token_awareness_enabled: self.token_awareness_enabled,
            dc_awareness: match &self.dc_awareness {
                Some(dc) => Some(dc.clone()),
                None => None,
            },
            latency_awareness_enabled: self.latency_awareness_enabled,
            latency_awareness_settings: self.latency_awareness_settings,
        }
    }
}

impl Default for LoadBalancingConfig {
    /// Token awareness starts enabled; everything else starts off.
    fn default() -> (r: Self)
        ensures
            r.token_awareness_enabled,
            r.dc_awareness is None,
            !r.latency_awareness_enabled,
            r.latency_awareness_settings is None,
    {
        LoadBalancingConfig {
            token_awareness_enabled: true,
            dc_awareness: None,
            latency_awareness_enabled: false,
            latency_awareness_settings: None,
        }
    }
}

/// The datacenter-aware parameters are accepted exactly when a non-empty
/// local datacenter name is given and both legacy parameters are zero.
pub open spec fn dc_aware_params_valid(
    local_dc: Option<Seq<char>>,
    used_hosts_per_remote_dc: u32,
    allow_remote_dcs_for_local_cl: bool,
) -> bool {
    &&& local_dc matches Some(s) && s.len() > 0
    &&& used_hosts_per_remote_dc == 0
    &&& !allow_remote_dcs_for_local_cl
}

/// Enables datacenter awareness for `local_dc`.
///
/// A missing or empty name, or a nonzero value for either of the two legacy
/// parameters (hosts used per remote datacenter; remote datacenters allowed
/// for local consistency levels), is rejected with `BAD_PARAMS` and leaves
/// the configuration unchanged.
pub fn set_load_balance_dc_aware_n(
    load_balancing_config: &mut LoadBalancingConfig,
    local_dc: Option<&str>,
    used_hosts_per_remote_dc: u32,
    allow_remote_dcs_for_local_cl: bool,
) -> (r: CassError)
    ensures
        r == CassError::CASS_OK <==> dc_aware_params_valid(
            local_dc.deep_view(),
            used_hosts_per_remote_dc,
            allow_remote_dcs_for_local_cl,
        ),
        r != CassError::CASS_OK ==> r == CassError::CASS_ERROR_LIB_BAD_PARAMS
            && *final(load_balancing_config) == *old(load_balancing_config),
        r == CassError::CASS_OK ==> ({
            &&& final(load_balancing_config).dc_awareness matches Some(dc)
                && dc.local_dc@ == local_dc.unwrap()@
            &&& final(load_balancing_config).token_awareness_enabled == old(
                load_balancing_config,
            ).token_awareness_enabled
            &&& final(load_balancing_config).latency_awareness_enabled == old(
                load_balancing_config,
            ).latency_awareness_enabled
            &&& final(load_balancing_config).latency_awareness_settings == old(
                load_balancing_config,
            ).latency_awareness_settings
        }),
{
    match local_dc {
        None => CassError::CASS_ERROR_LIB_BAD_PARAMS,
        Some(name) => {
            if name.is_empty() {
                CassError::CASS_ERROR_LIB_BAD_PARAMS
            } else if used_hosts_per_remote_dc != 0 || allow_remote_dcs_for_local_cl {
                CassError::CASS_ERROR_LIB_BAD_PARAMS
            } else {
                load_balancing_config.dc_awareness = Some(
                    DcAwareness { local_dc: name.to_owned() },
                );
                CassError::CASS_OK
            }
        },
    }
}

} // verus!
