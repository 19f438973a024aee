//! Pure eligibility gates: given a detected-extensions snapshot (and the
//! server version where noted), may a given metric pipeline run.

use vstd::prelude::*;
use crate::extensions::{extension_enabled, ExtensionInfo, ExtensionSnapshot};

verus! {

/// Name of the statement-statistics extension required by most pipelines.
pub open spec fn pg_stat_statements_key() -> Seq<char> {
    "pg_stat_statements"@
}

/// Name of the enhanced per-query monitoring extension.
pub open spec fn pg_stat_monitor_key() -> Seq<char> {
    "pg_stat_monitor"@
}

/// Name of the wait-event sampling extension.
pub open spec fn pg_wait_sampling_key() -> Seq<char> {
    "pg_wait_sampling"@
}

/// Slow-query metrics need `pg_stat_statements` present and enabled.
pub open spec fn slow_query_eligible(m: Map<Seq<char>, ExtensionInfo>) -> bool {
    extension_enabled(m, pg_stat_statements_key())
}

/// Wait-event metrics need both `pg_stat_statements` and
/// `pg_wait_sampling` present and enabled.
pub open spec fn wait_event_eligible(m: Map<Seq<char>, ExtensionInfo>) -> bool {
    extension_enabled(m, pg_stat_statements_key()) && extension_enabled(
        m,
        pg_wait_sampling_key(),
    )
}

/// Server versions 12 and 13 expose blocking information without
/// `pg_stat_statements`; every other version needs it.
pub open spec fn blocking_session_eligible(m: Map<Seq<char>, ExtensionInfo>, version: u64) -> bool {
    version == 12 || version == 13 || slow_query_eligible(m)
}

/// Per-query metrics need `pg_stat_monitor` present and enabled.
pub open spec fn individual_query_eligible(m: Map<Seq<char>, ExtensionInfo>) -> bool {
    extension_enabled(m, pg_stat_monitor_key())
}

/// Query monitoring is supported from server major version 12 upward.
pub open spec fn supports_query_monitoring(version: u64) -> bool {
    version >= 12
}

/// Validation helpers consulted by the metric-pipeline scheduler before
/// each pipeline activation. Pure and total: absence of data is `false`,
/// never an error.
pub struct OHIValidations;

impl OHIValidations {
    pub fn check_slow_query_metrics_fetch_eligibility(extensions: &ExtensionSnapshot) -> (r: bool)
        requires
            extensions.wf(),
        ensures
            r == slow_query_eligible(extensions@),
    {
        match extensions.get("pg_stat_statements") {
            Some(e) => e.enabled,
            None => false,
        }
    }

    pub fn check_wait_event_metrics_fetch_eligibility(extensions: &ExtensionSnapshot) -> (r: bool)
        requires
            extensions.wf(),
        ensures
            r == wait_event_eligible(extensions@),
    {
        let statements = match extensions.get("pg_stat_statements") {
            Some(e) => e.enabled,
            None => false,
        };
        let wait_sampling = match extensions.get("pg_wait_sampling") {
            Some(e) => e.enabled,
            None => false,
        };
        statements && wait_sampling
    }

    pub fn check_blocking_session_metrics_fetch_eligibility(
        extensions: &ExtensionSnapshot,
        version: u64,
    ) -> (r: bool)
        requires
            extensions.wf(),
        ensures
            r == blocking_session_eligible(extensions@, version),
    {
        if version == 12 || version == 13 {
            return true;
        }
        Self::check_slow_query_metrics_fetch_eligibility(extensions)
    }

    pub fn check_individual_query_metrics_fetch_eligibility(
        extensions: &ExtensionSnapshot,
    ) -> (r: bool)
        requires
            extensions.wf(),
        ensures
            r == individual_query_eligible(extensions@),
    {
        match extensions.get("pg_stat_monitor") {
            Some(e) => e.enabled,
            None => false,
        }
    }

    pub fn check_postgres_version_support_for_query_monitoring(version: u64) -> (r: bool)
        ensures
            r == supports_query_monitoring(version),
    {
        version >= 12
    }
}

/// Law: a snapshot lacking `pg_stat_statements` makes slow-query and
/// wait-event metrics ineligible, and blocking-session metrics ineligible
/// on every version other than 12 and 13.
pub proof fn lemma_missing_statements_gates_pipelines(
    m: Map<Seq<char>, ExtensionInfo>,
    version: u64,
)
    requires
        !m.contains_key(pg_stat_statements_key()),
    ensures
        !slow_query_eligible(m),
        !wait_event_eligible(m),
        version != 12 && version != 13 ==> !blocking_session_eligible(m, version),
{
}

/// Law: on server versions 12 and 13 blocking-session metrics are eligible
/// whatever the extensions; on every other version their eligibility
/// equals the slow-query gate.
pub proof fn lemma_blocking_version_gate(m: Map<Seq<char>, ExtensionInfo>, version: u64)
    ensures
        blocking_session_eligible(m, 12),
        blocking_session_eligible(m, 13),
        version != 12 && version != 13 ==> (blocking_session_eligible(m, version)
            <==> slow_query_eligible(m)),
{
}

} // verus!
