//! Health and metrics reports from the probes of the database and the
//! cache.

use vstd::prelude::*;
use crate::text::{concat2, str_eq};

verus! {

broadcast use vstd::string::group_string_axioms;

/// How a probe of a backing service ended.
pub enum Probe {
    Answered,
    /// It failed with this message.
    Failed(String),
    /// It did not answer in time.
    TimedOut,
}

/// The cache probe, where a cache is configured.
pub enum CacheProbe {
    NotConfigured,
    Probed(Probe),
}

/// A health report: whether the service is healthy and what each check
/// says.
pub struct HealthReport {
    pub healthy: bool,
    pub database: String,
    pub redis: String,
}

/// What the database check says.
pub open spec fn database_check(p: Probe) -> Seq<char> {
    match p {
        Probe::Answered => "ok"@,
        Probe::Failed(e) => "error: "@ + e@,
        Probe::TimedOut => "error: connection timeout"@,
    }
}

/// What the cache check says; a failing cache only warns.
pub open spec fn cache_check(p: CacheProbe) -> Seq<char> {
    match p {
        CacheProbe::NotConfigured => "not configured"@,
        CacheProbe::Probed(Probe::Answered) => "ok"@,
        CacheProbe::Probed(Probe::Failed(e)) => "warning: "@ + e@,
        CacheProbe::Probed(Probe::TimedOut) => "warning: connection timeout"@,
    }
}

/// The health report: healthy exactly when the database answered; the
/// cache never makes the service unhealthy.
pub fn health_report(database: Probe, cache: CacheProbe) -> (r: HealthReport)
    ensures
        r.healthy == (database is Answered),
        r.database@ == database_check(database),
        r.redis@ == cache_check(cache),
{
    let ghost d = database;
    let ghost c = cache;
    let (healthy, db) = match database {
        Probe::Answered => (true, String::from_str("ok")),
        Probe::Failed(e) => (false, concat2("error: ", e.as_str())),
        Probe::TimedOut => (false, String::from_str("error: connection timeout")),
    };
    let redis = match cache {
        CacheProbe::NotConfigured => String::from_str("not configured"),
        CacheProbe::Probed(Probe::Answered) => String::from_str("ok"),
        CacheProbe::Probed(Probe::Failed(e)) => concat2("warning: ", e.as_str()),
        CacheProbe::Probed(Probe::TimedOut) => String::from_str("warning: connection timeout"),
    };
    HealthReport { healthy, database: db, redis }
}

/// Whether `s` begins with `p`.
pub open spec fn begins_with(s: Seq<char>, p: Seq<char>) -> bool {
    p.len() <= s.len() && s.subrange(0, p.len() as int) == p
}

/// The checks of a health report say `ok` exactly for a probe that
/// answered. A cache that was probed and did not answer only warns; a
/// database that did not answer is an error; a cache that is not
/// configured says so. A failed probe's message is carried in its check.
pub proof fn law_ok_only_for_answered_probes(database: Probe, cache: CacheProbe)
    ensures
        (database_check(database) == "ok"@) <==> (database is Answered),
        (cache_check(cache) == "ok"@) <==> (cache == CacheProbe::Probed(Probe::Answered)),
        !(database is Answered) ==> begins_with(database_check(database), "error: "@),
        (cache matches CacheProbe::Probed(p) && !(p is Answered)) ==> begins_with(
            cache_check(cache),
            "warning: "@,
        ),
        !begins_with(cache_check(cache), "warning: "@) || (cache matches CacheProbe::Probed(p) && !(
        p is Answered)),
        (cache is NotConfigured) ==> cache_check(cache) == "not configured"@,
        database matches Probe::Failed(e) ==> database_check(database) == "error: "@ + e@,
        cache matches CacheProbe::Probed(Probe::Failed(e)) ==> cache_check(cache) == "warning: "@ + e@,
{
    reveal_strlit("ok");
    reveal_strlit("error: ");
    reveal_strlit("error: connection timeout");
    reveal_strlit("warning: ");
    reveal_strlit("warning: connection timeout");
    reveal_strlit("not configured");
    match database {
        Probe::Failed(e) => {
            assert(("error: "@ + e@).subrange(0, 7) =~= "error: "@);
            assert(("error: "@ + e@).len() != 2 || ("error: "@ + e@)[0] != "ok"@[0]);
        },
        Probe::TimedOut => {
            assert("error: connection timeout"@.subrange(0, 7) =~= "error: "@);
            assert("error: connection timeout"@.len() != "ok"@.len());
        },
        Probe::Answered => {},
    }
    match cache {
        CacheProbe::Probed(Probe::Failed(e)) => {
            assert(("warning: "@ + e@).subrange(0, 9) =~= "warning: "@);
            assert(("warning: "@ + e@).len() != 2 || ("warning: "@ + e@)[0] != "ok"@[0]);
        },
        CacheProbe::Probed(Probe::TimedOut) => {
            assert("warning: connection timeout"@.subrange(0, 9) =~= "warning: "@);
            assert("warning: connection timeout"@.len() != "ok"@.len());
        },
        CacheProbe::Probed(Probe::Answered) => {
            assert("ok"@.len() < "warning: "@.len());
        },
        CacheProbe::NotConfigured => {
            assert("not configured"@.len() != "ok"@.len());
            assert("not configured"@.subrange(0, 9)[0] != "warning: "@[0]);
        },
    }
}

/// The HTTP status of a health report: 200 when healthy, 503 otherwise.
pub fn health_status_code(healthy: bool) -> (r: u16)
    ensures
        r == if healthy {
            200u16
        } else {
            503u16
        },
{
    if healthy {
        200
    } else {
        503
    }
}

/// The pool and cache figures of the metrics report.
pub struct PoolMetrics {
    pub active_connections: usize,
    pub cache_status: &'static str,
    pub auction_time_high: bool,
    pub cache_miss_rate_high: bool,
    pub db_pool_exhausted: bool,
}

/// The metrics of a pool of `pool_size` connections with `idle` idle, and
/// of the cache when configured (`cache_reachable`: whether it answered).
pub fn pool_metrics(pool_size: usize, idle: usize, cache_configured: bool, cache_reachable: bool) -> (r:
    PoolMetrics)
    ensures
        r.active_connections == if pool_size >= idle {
            pool_size - idle
        } else {
            0
        },
        r.cache_status@ == if !cache_configured {
            "not_configured"@
        } else if cache_reachable {
            "connected"@
        } else {
            "disconnected"@
        },
        r.auction_time_high == (pool_size > 0 && idle < pool_size / 10),
        r.cache_miss_rate_high == (!cache_configured || r.cache_status@ != "connected"@),
        r.db_pool_exhausted == (idle == 0 && pool_size > 0),
{
    let status = if !cache_configured {
        "not_configured"
    } else if cache_reachable {
        "connected"
    } else {
        "disconnected"
    };
    PoolMetrics {
        active_connections: pool_size.saturating_sub(idle),
        cache_status: status,
        auction_time_high: pool_size > 0 && idle < pool_size / 10,
        cache_miss_rate_high: !cache_configured || !str_eq(status, "connected"),
        db_pool_exhausted: idle == 0 && pool_size > 0,
    }
}

} // verus!
