//! One routing rule as the configuration declares it.

use vstd::prelude::*;

verus! {

/// How the pattern of a rule is read.
#[derive(Clone, Copy, Debug, PartialEq, Eq, Structural)]
pub enum PatternType {
    /// The pattern stands for itself: only the identical text matches.
    Text,
    /// The pattern is a glob: `*` stays within a segment, `**` does not.
    Wildcard,
    /// The pattern is a regular expression, held against the whole text.
    Regex,
}

/// One routing rule: requests whose path matches `pattern` go to the
/// backend named `backend`.
#[derive(Clone, Debug)]
pub struct Route {
    pub pattern: String,
    pub pattern_type: PatternType,
    pub backend: String,
}

/// The mathematical value of a [`Route`].
pub struct RouteView {
    pub pattern: Seq<char>,
    pub pattern_type: PatternType,
    pub backend: Seq<char>,
}

impl View for Route {
    type V = RouteView;

    open spec fn view(&self) -> RouteView {
        RouteView {
            pattern: self.pattern@,
            pattern_type: self.pattern_type,
            backend: self.backend@,
        }
    }
}

/// The values of the given routes.
pub open spec fn route_views(routes: Seq<Route>) -> Seq<RouteView> {
    routes.map_values(|r: Route| r@)
}

} // verus!
