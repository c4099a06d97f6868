//! One host that a gateway answers for.

use super::location::PatternType;
use vstd::prelude::*;

verus! {

/// A rule for the hosts that a gateway serves: requests for a host that
/// matches `pattern` are allowed in.
#[derive(Clone, Debug)]
pub struct HostRule {
    pub pattern: String,
    pub pattern_type: PatternType,
}

/// The mathematical value of a [`HostRule`].
pub struct HostRuleView {
    pub pattern: Seq<char>,
    pub pattern_type: PatternType,
}

impl View for HostRule {
    type V = HostRuleView;

    open spec fn view(&self) -> HostRuleView {
        HostRuleView { pattern: self.pattern@, pattern_type: self.pattern_type }
    }
}

/// The values of the given host rules.
pub open spec fn host_views(hosts: Seq<HostRule>) -> Seq<HostRuleView> {
    hosts.map_values(|h: HostRule| h@)
}

} // verus!
