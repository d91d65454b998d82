use vstd::prelude::*;
use vstd::string::StringExecFns;

use crate::cluster::{CassCluster, Compression};
use crate::exec_profile::CassExecProfile;
use crate::load_balancing::LoadBalancingConfig;

verus! {

/// The decimal digit character for `d`, which must be below ten.
pub open spec fn dec_digit(d: nat) -> char {
    if d == 0 {
        '0'
    } else if d == 1 {
        '1'
    } else if d == 2 {
        '2'
    } else if d == 3 {
        '3'
    } else if d == 4 {
        '4'
    } else if d == 5 {
        '5'
    } else if d == 6 {
        '6'
    } else if d == 7 {
        '7'
    } else if d == 8 {
        '8'
    } else {
        '9'
    }
}

/// The decimal representation of `n`, most significant digit first, without
/// leading zeroes (zero itself is `"0"`).
pub open spec fn dec_str(n: nat) -> Seq<char>
    decreases n,
{
    if n < 10 {
        seq![dec_digit(n)]
    } else {
        dec_str(n / 10).push(dec_digit(n % 10))
    }
}

/// The one-character string for digit `d`.
fn digit_str(d: u8) -> (r: &'static str)
    requires
        d < 10,
    ensures
        r@ == seq![dec_digit(d as nat)],
{
    let r: &'static str = match d {
        0 => "0",
        1 => "1",
        2 => "2",
        3 => "3",
        4 => "4",
        5 => "5",
        6 => "6",
        7 => "7",
        8 => "8",
        _ => "9",
    };
    proof {
        reveal_strlit("0");
        reveal_strlit("1");
        reveal_strlit("2");
        reveal_strlit("3");
        reveal_strlit("4");
        reveal_strlit("5");
        reveal_strlit("6");
        reveal_strlit("7");
        reveal_strlit("8");
        reveal_strlit("9");
        assert(r@ =~= seq![dec_digit(d as nat)]);
    }
    r
}

/// Appends the decimal digits of `n` to `out`.
fn push_dec_u16(n: u16, out: &mut String)
    ensures
        final(out)@ == old(out)@ + dec_str(n as nat),
    decreases n,
{
    let ghost pre = out@;
    if n >= 10 {
        push_dec_u16(n / 10, out);
    }
    let d = (n % 10) as u8;
    out.append(digit_str(d));
    proof {
        if n < 10 {
            assert(pre + seq![dec_digit(n as nat)] =~= final(out)@);
        } else {
            assert((pre + dec_str((n / 10) as nat)) + seq![dec_digit((n % 10) as nat)] =~= pre
                + dec_str(n as nat));
        }
    }
}

/// Pairs a contact point with a port, `"<node>:<port>"`.
fn node_address(cp: &str, port: u16) -> (r: String)
    ensures
        r@ == cp@ + seq![':'] + dec_str(port as nat),
{
    let mut out: String = cp.to_owned();
    out.append(":");
    push_dec_u16(port, &mut out);
    proof {
        reveal_strlit(":");
        assert(":"@ =~= seq![':']);
        assert((cp@ + ":"@) + dec_str(port as nat) =~= cp@ + seq![':'] + dec_str(port as nat));
    }
    out
}

/// Everything a session needs, snapshotted from one cluster handle.
///
/// The snapshot shares nothing with the handle it came from: the handle may
/// be mutated or freed while a session is still being assembled from an
/// earlier snapshot. Driving the actual connection — including building the
/// routing policy, which must happen under a live asynchronous scheduler —
/// belongs to the layer around this crate, which reads this value.
pub struct SessionBuilderPlan {
    /// Each contact point paired with the configured port.
    pub known_nodes: Vec<String>,
    /// Present exactly when both a username and a password were set.
    pub credentials: Option<(String, String)>,
    pub connect_timeout_ms: u64,
    pub tcp_nodelay: bool,
    pub fetch_schema_metadata: bool,
    pub compression: Option<Compression>,
    /// Another shared handle to the cluster's TLS context, if one was set.
    pub ssl_context: Option<openssl::ssl::SslContext>,
    pub default_execution_profile: CassExecProfile,
    pub load_balancing_config: LoadBalancingConfig,
}

/// Assembles the deferred session description from a snapshot of `cluster`.
///
/// Non-destructive: the handle stays mutable and reusable, and the result
/// holds no reference into it.
pub fn build_session_builder(cluster: &CassCluster) -> (r: SessionBuilderPlan)
    ensures
        r.known_nodes@.len() == cluster.contact_points@.len(),
        forall|i: int|
            0 <= i < cluster.contact_points@.len() ==> r.known_nodes@[i]@
                == cluster.contact_points@[i]@ + seq![':'] + dec_str(cluster.port as nat),
        cluster.auth_username is Some && cluster.auth_password is Some ==> (r.credentials matches
        Some(c) && c.0@ == cluster.auth_username.unwrap()@ && c.1@
            == cluster.auth_password.unwrap()@),
        cluster.auth_username is None || cluster.auth_password is None ==> r.credentials is None,
        r.connect_timeout_ms == cluster.connect_timeout_ms,
        r.tcp_nodelay == cluster.tcp_nodelay,
        r.fetch_schema_metadata == cluster.fetch_schema_metadata,
        r.compression == cluster.compression,
        r.ssl_context is Some <==> cluster.ssl_context is Some,
        r.default_execution_profile == cluster.default_execution_profile,
        r.load_balancing_config == cluster.load_balancing_config,
{
    let mut known_nodes: Vec<String> = Vec::new();
    let mut i: usize = 0;
    while i < cluster.contact_points.len()
        invariant
            i <= cluster.contact_points@.len(),
            known_nodes@.len() == i,
            forall|j: int|
                0 <= j < i ==> known_nodes@[j]@ == cluster.contact_points@[j]@ + seq![':']
                    + dec_str(cluster.port as nat),
        decreases cluster.contact_points@.len() - i,
    {
        let node = node_address(cluster.contact_points[i].as_str(), cluster.port);
        known_nodes.push(node);
        i += 1;
    }
    let credentials: Option<(String, String)> = match &cluster.auth_username {
        Some(u) => match &cluster.auth_password {
            Some(p) => Some((u.clone(), p.clone())),
            None => None,
        },
        None => None,
    };
    let ssl_context: Option<openssl::ssl::SslContext> = match &cluster.ssl_context {
        Some(ctx) => Some(ctx.clone()),
        None => None,
    };
    SessionBuilderPlan {
        known_nodes,
        credentials,
        connect_timeout_ms: cluster.connect_timeout_ms,
        tcp_nodelay: cluster.tcp_nodelay,
        fetch_schema_metadata: cluster.fetch_schema_metadata,
        compression: cluster.compression,
        ssl_context,
        default_execution_profile: cluster.default_execution_profile,
        load_balancing_config: cluster.load_balancing_config.clone(),
    }
}

} // verus!
