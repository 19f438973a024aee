//! Runtime configuration derived from the detected extensions, and the
//! manager that combines detection with the compatibility policy.

use vstd::prelude::*;
use crate::compat::CompatibilityMatrix;
use crate::eligibility::{pg_stat_monitor_key, pg_stat_statements_key, pg_wait_sampling_key};
use crate::extensions::{ExtensionInfo, ExtensionSnapshot};

verus! {

/// Runtime settings for `pg_stat_statements`. The extension is treated as
/// foundational: whenever it is present the collector tracks all
/// statements, up to a fixed cap.
pub struct PgStatStatementsConfig {
    pub version: String,
    pub track_scope: String,
    pub max_tracked: i32,
}

/// Runtime settings for `pg_stat_monitor`, emitted only when the
/// compatibility policy approves the installed version.
pub struct PgStatMonitorConfig {
    pub version: String,
    pub normalize_queries: bool,
    pub enable_query_plan: bool,
}

/// Runtime settings for `pg_wait_sampling`, with its fixed sampling period
/// in milliseconds.
pub struct PgWaitSamplingConfig {
    pub version: String,
    pub sample_period_ms: u64,
}

/// Aggregate of optional per-extension settings; each field is present only
/// if its extension is installed (and, for `pg_stat_monitor`, compatible).
pub struct ExtensionConfig {
    pub pg_stat_statements: Option<PgStatStatementsConfig>,
    pub pg_stat_monitor: Option<PgStatMonitorConfig>,
    pub pg_wait_sampling: Option<PgWaitSamplingConfig>,
}

impl Default for ExtensionConfig {
    fn default() -> (r: Self)
        ensures
            r.pg_stat_statements is None,
            r.pg_stat_monitor is None,
            r.pg_wait_sampling is None,
    {
        ExtensionConfig { pg_stat_statements: None, pg_stat_monitor: None, pg_wait_sampling: None }
    }
}

/// The configuration that a detected-extensions map `m` must yield under
/// compatibility policy `matrix`.
pub open spec fn config_derived(
    m: Map<Seq<char>, ExtensionInfo>,
    matrix: CompatibilityMatrix,
    c: ExtensionConfig,
) -> bool {
    &&& (c.pg_stat_statements is Some <==> m.contains_key(pg_stat_statements_key()))
    &&& (c.pg_stat_statements matches Some(s) ==> {
        &&& s.version@ == m[pg_stat_statements_key()].version@
        &&& s.track_scope@ == "all"@
        &&& s.max_tracked == 10000
    })
    &&& (c.pg_stat_monitor is Some <==> m.contains_key(pg_stat_monitor_key())
        && matrix.spec_is_compatible(
        pg_stat_monitor_key(),
        m[pg_stat_monitor_key()].version@,
    ))
    &&& (c.pg_stat_monitor matches Some(s) ==> {
        &&& s.version@ == m[pg_stat_monitor_key()].version@
        &&& s.normalize_queries == true
        &&& s.enable_query_plan == true
    })
    &&& (c.pg_wait_sampling is Some <==> m.contains_key(pg_wait_sampling_key()))
    &&& (c.pg_wait_sampling matches Some(s) ==> {
        &&& s.version@ == m[pg_wait_sampling_key()].version@
        &&& s.sample_period_ms == 10
    })
}

/// Holds the most recent detection snapshot and derives runtime
/// configuration from it under the injected compatibility policy.
pub struct ExtensionManager {
    extensions: ExtensionSnapshot,
    compatibility_matrix: CompatibilityMatrix,
}

impl ExtensionManager {
    /// The snapshot stored by the last detection pass.
    pub closed spec fn extensions(self) -> Map<Seq<char>, ExtensionInfo> {
        self.extensions@
    }

    pub closed spec fn wf(self) -> bool {
        self.extensions.wf()
    }

    /// The injected compatibility policy.
    pub closed spec fn matrix(self) -> CompatibilityMatrix {
        self.compatibility_matrix
    }

    pub fn new() -> (r: Self)
        ensures
            r.wf(),
            r.extensions() == Map::<Seq<char>, ExtensionInfo>::empty(),
            r.matrix().rule_count() == 0,
    {
        ExtensionManager {
            extensions: ExtensionSnapshot::new(),
            compatibility_matrix: CompatibilityMatrix::default(),
        }
    }

    /// Derives the runtime configuration from a freshly detected snapshot
    /// and replaces the stored snapshot wholesale with it.
    pub fn detect_and_configure(&mut self, installed: ExtensionSnapshot) -> (c: ExtensionConfig)
        requires
            installed.wf(),
        ensures
            final(self).wf(),
            final(self).extensions() == installed@,
            final(self).matrix() == old(self).matrix(),
            config_derived(installed@, old(self).matrix(), c),
    {
        let mut config = ExtensionConfig::default();

        if let Some(info) = installed.get("pg_stat_statements") {
            config.pg_stat_statements = Some(
                PgStatStatementsConfig {
                    version: info.version.clone(),
                    track_scope: "all".to_owned(),
                    max_tracked: 10000,
                },
            );
        }

        if let Some(info) = installed.get("pg_stat_monitor") {
            if self.compatibility_matrix.is_compatible("pg_stat_monitor", info.version.as_str()) {
                config.pg_stat_monitor = Some(
                    PgStatMonitorConfig {
                        version: info.version.clone(),
                        normalize_queries: true,
                        enable_query_plan: true,
                    },
                );
            }
        }

        if let Some(info) = installed.get("pg_wait_sampling") {
            config.pg_wait_sampling = Some(
                PgWaitSamplingConfig { version: info.version.clone(), sample_period_ms: 10 },
            );
        }

        self.extensions = installed;
        config
    }

    /// Reads the stored snapshot, for callers that consult the manager
    /// rather than re-detect.
    pub fn installed_extensions(&self) -> (r: &ExtensionSnapshot)
        ensures
            r@ == self.extensions(),
            self.wf() ==> r.wf(),
    {
        &self.extensions
    }
}

} // verus!
