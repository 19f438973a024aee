//! Injectable compatibility policy: is extension X at version V safe to
//! enable.

use vstd::prelude::*;

verus! {

/// One acceptable version range for an extension. Not yet consulted by
/// `is_compatible` (the default policy is permissive), but part of the
/// durable shape so real range rules can be added without changing call
/// sites.
pub struct VersionRule {
    pub min_version: Option<String>,
    pub max_version: Option<String>,
}

/// Policy object answering whether an installed extension's version is safe
/// to enable, backed by per-extension version ranges.
pub struct CompatibilityMatrix {
    rules: Vec<(String, Vec<VersionRule>)>,
}

impl CompatibilityMatrix {
    /// How many extensions have rules registered.
    pub closed spec fn rule_count(self) -> nat {
        self.rules@.len()
    }

    /// What `is_compatible` answers. The provided rule set is empty and the
    /// policy permissive: every (extension, version) pair is compatible.
    pub open spec fn spec_is_compatible(self, extension: Seq<char>, version: Seq<char>) -> bool {
        true
    }

    pub fn is_compatible(&self, extension: &str, version: &str) -> (r: bool)
        ensures
            r == self.spec_is_compatible(extension@, version@),
    {
        true
    }
}

impl Default for CompatibilityMatrix {
    /// The default policy has no populated rules.
    fn default() -> (r: Self)
        ensures
            r.rule_count() == 0,
    {
        CompatibilityMatrix { rules: Vec::new() }
    }
}

} // verus!
