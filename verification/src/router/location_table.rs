//! The routing rules of one gateway, in order of precedence.
//!
//! A request is for a host and a path. A location matches it where the host
//! is one that the table allows and the path matches the location's own
//! rule. Where several locations match, the one declared first wins; no
//! rule is ever preferred for being more specific.

use crate::config::host::{host_views, HostRule, HostRuleView};
use crate::config::location::{route_views, Route, RouteView};
use crate::error::{DakiaError, ErrorView};
use crate::order::{first_index, lemma_first_index_found, lemma_first_index_none};
use crate::pattern::matcher::{invalid_pattern, Matcher, Rule, Subject};
use crate::text::chars_of;
use vstd::prelude::*;

verus! {

/// One routing rule as a mathematical value: where the path matches
/// `path`, the request goes to the backend named `backend`.
pub struct LocationView {
    pub path: Rule,
    pub backend: Seq<char>,
}

/// A location table as a mathematical value.
pub struct TableView {
    /// The hosts that the table allows.
    pub hosts: Seq<Rule>,
    /// The locations, first declared first.
    pub locations: Seq<LocationView>,
}

/// The rule that a declared host stands for. Its segments end at `.`.
pub open spec fn host_rule(host: HostRuleView) -> Rule {
    Rule { pattern: host.pattern, kind: host.pattern_type, subject: Subject::Host }
}

/// The location that a declared route stands for. The segments of its
/// pattern end at `/`.
pub open spec fn location_of(route: RouteView) -> LocationView {
    LocationView {
        path: Rule { pattern: route.pattern, kind: route.pattern_type, subject: Subject::Path },
        backend: route.backend,
    }
}

/// The property of an index that `rules` holds a rule there that cannot be
/// used.
pub open spec fn unusable(rules: Seq<Rule>) -> spec_fn(int) -> bool {
    |i: int| !rules[i].valid()
}

/// The first index at which `rules` holds a rule that cannot be used.
pub open spec fn first_invalid(rules: Seq<Rule>) -> Option<int> {
    first_index(unusable(rules), rules.len() as int)
}

impl TableView {
    /// The error that making the table ready fails with: that of the first
    /// rule that cannot be used, if there is one.
    pub open spec fn refusal(self) -> Option<ErrorView> {
        match first_invalid(self.rules()) {
            Some(i) => Some(invalid_pattern(self.rules()[i].pattern)),
            None => None,
        }
    }

    /// The table that a declaration stands for.
    pub open spec fn of(hosts: Seq<HostRuleView>, routes: Seq<RouteView>) -> TableView {
        TableView {
            hosts: hosts.map_values(|h: HostRuleView| host_rule(h)),
            locations: routes.map_values(|r: RouteView| location_of(r)),
        }
    }

    /// Every rule of the table: those for hosts, then those for paths.
    pub open spec fn rules(self) -> Seq<Rule> {
        self.hosts + self.locations.map_values(|l: LocationView| l.path)
    }

    /// Every rule of the table can be used.
    pub open spec fn valid(self) -> bool {
        forall|i: int| 0 <= i < self.rules().len() ==> !#[trigger] unusable(self.rules())(i)
    }

    /// Whether the table allows the host: whether one of its host rules
    /// matches it.
    pub open spec fn host_allowed(self, host: Seq<char>) -> bool {
        exists|i: int| 0 <= i < self.hosts.len() && (#[trigger] self.hosts[i]).accepts(host)
    }

    /// Whether location `i` matches the request.
    pub open spec fn location_matches(self, i: int, host: Seq<char>, path: Seq<char>) -> bool {
        &&& 0 <= i < self.locations.len()
        &&& self.host_allowed(host)
        &&& self.locations[i].path.accepts(path)
    }

    /// The property of an index that the location there matches the
    /// request.
    pub open spec fn matching(self, host: Seq<char>, path: Seq<char>) -> spec_fn(int) -> bool {
        |i: int| self.location_matches(i, host, path)
    }

    /// The index of the location that wins the request: the first that
    /// matches, if any does.
    pub open spec fn first_match(self, host: Seq<char>, path: Seq<char>) -> Option<int> {
        first_index(self.matching(host, path), self.locations.len() as int)
    }

    /// The name of the backend that the request goes to, if any location
    /// matches.
    pub open spec fn resolve(self, host: Seq<char>, path: Seq<char>) -> Option<Seq<char>> {
        match self.first_match(host, path) {
            Some(i) => Some(self.locations[i].backend),
            None => None,
        }
    }
}

/// One routing rule, ready for matching.
pub struct Location {
    path: Matcher,
    backend: String,
}

impl View for Location {
    type V = LocationView;

    closed spec fn view(&self) -> LocationView {
        LocationView { path: self.path@, backend: self.backend@ }
    }
}

impl Location {
    /// Makes a declared route ready. Fails where the route is a regex rule
    /// whose pattern the engine does not take.
    pub fn compile(route: &Route) -> (r: Result<Location, Box<DakiaError>>)
        ensures
            match r {
                Ok(l) => l@ == location_of(route@) && l@.path.valid(),
                Err(e) => !location_of(route@).path.valid() && e@ == invalid_pattern(
                    route@.pattern,
                ),
            },
    {
        match Matcher::compile(route.pattern.as_str(), route.pattern_type, Subject::Path) {
            Ok(path) => Ok(Location { path, backend: route.backend.clone() }),
            Err(e) => Err(e),
        }
    }

    /// The rule that the path of a request is held against.
    pub fn path(&self) -> (path: &Matcher)
        ensures
            path@ == self@.path,
    {
        &self.path
    }

    /// The name of the backend that matching requests go to.
    pub fn backend(&self) -> (backend: &str)
        ensures
            backend@ == self@.backend,
    {
        self.backend.as_str()
    }
}

/// The routing rules of one gateway, ready for matching.
pub struct LocationTable {
    hosts: Vec<Matcher>,
    locations: Vec<Location>,
}

impl View for LocationTable {
    type V = TableView;

    closed spec fn view(&self) -> TableView {
        TableView {
            hosts: self.hosts@.map_values(|m: Matcher| m@),
            locations: self.locations@.map_values(|l: Location| l@),
        }
    }
}

impl LocationTable {
    /// Makes the declared rules ready, hosts first. Fails at the first regex
    /// rule whose pattern the engine does not take, with the error that
    /// names that pattern.
    pub fn build(hosts: &Vec<HostRule>, routes: &Vec<Route>) -> (r: Result<
        LocationTable,
        Box<DakiaError>,
    >)
        ensures
            match r {
                Ok(table) => {
                    &&& table@ == TableView::of(host_views(hosts@), route_views(routes@))
                    &&& table@.valid()
                    &&& table@.refusal() is None
                },
                Err(e) => {
                    &&& !TableView::of(host_views(hosts@), route_views(routes@)).valid()
                    &&& TableView::of(host_views(hosts@), route_views(routes@)).refusal() == Some(
                        e@,
                    )
                },
            },
    {
        let ghost wanted = TableView::of(host_views(hosts@), route_views(routes@));
        let ghost rules = wanted.rules();
        let mut host_rules: Vec<Matcher> = Vec::new();
        let mut i: usize = 0;
        while i < hosts.len()
            invariant
                i <= hosts.len(),
                wanted == TableView::of(host_views(hosts@), route_views(routes@)),
                rules == wanted.rules(),
                host_rules.len() == i,
                forall|k: int| 0 <= k < i ==> (#[trigger] host_rules[k])@ == wanted.hosts[k],
                forall|k: int| 0 <= k < i ==> !#[trigger] unusable(rules)(k),
            decreases hosts.len() - i,
        {
            let host = &hosts[i];
            match Matcher::compile(host.pattern.as_str(), host.pattern_type, Subject::Host) {
                Ok(m) => {
                    host_rules.push(m);
                },
                Err(e) => {
                    proof {
                        lemma_first_index_found(unusable(rules), rules.len() as int, i as int);
                    }
                    return Err(e);
                },
            }
            i = i + 1;
        }
        let mut locations: Vec<Location> = Vec::new();
        let mut j: usize = 0;
        let ghost offset = hosts.len() as int;
        while j < routes.len()
            invariant
                j <= routes.len(),
                offset == hosts.len(),
                wanted == TableView::of(host_views(hosts@), route_views(routes@)),
                rules == wanted.rules(),
                host_rules.len() == hosts.len(),
                forall|k: int|
                    0 <= k < hosts.len() ==> (#[trigger] host_rules[k])@ == wanted.hosts[k],
                locations.len() == j,
                forall|k: int| 0 <= k < j ==> (#[trigger] locations[k])@ == wanted.locations[k],
                forall|k: int| 0 <= k < offset + j ==> !#[trigger] unusable(rules)(k),
            decreases routes.len() - j,
        {
            let route = &routes[j];
            match Location::compile(route) {
                Ok(l) => {
                    locations.push(l);
                },
                Err(e) => {
                    proof {
                        lemma_first_index_found(unusable(rules), rules.len() as int, offset + j);
                    }
                    return Err(e);
                },
            }
            j = j + 1;
        }
        let table = LocationTable { hosts: host_rules, locations };
        assert(table@.hosts =~= wanted.hosts);
        assert(table@.locations =~= wanted.locations);
        proof {
            lemma_first_index_none(unusable(rules), rules.len() as int);
        }
        Ok(table)
    }

    /// Whether the table allows the host.
    pub fn allows_host(&self, host: &str) -> (allowed: bool)
        ensures
            allowed == self@.host_allowed(host@),
    {
        let chars = chars_of(host);
        self.allows_chars(host, &chars)
    }

    fn allows_chars(&self, host: &str, chars: &Vec<char>) -> (allowed: bool)
        requires
            chars@ == host@,
        ensures
            allowed == self@.host_allowed(host@),
    {
        let mut i: usize = 0;
        while i < self.hosts.len()
            invariant
                i <= self.hosts.len(),
                chars@ == host@,
                forall|k: int| 0 <= k < i ==> !(#[trigger] self@.hosts[k]).accepts(host@),
            decreases self.hosts.len() - i,
        {
            if self.hosts[i].matches_chars(host, chars) {
                assert(self@.hosts[i as int].accepts(host@));
                return true;
            }
            i = i + 1;
        }
        false
    }

    /// The name of the backend that a request for `host` and `path` goes
    /// to: that of the first location that matches, or `None` where none
    /// does. Resolving never fails.
    pub fn resolve(&self, host: &str, path: &str) -> (backend: Option<&str>)
        ensures
            match backend {
                Some(name) => self@.resolve(host@, path@) == Some(name@),
                None => self@.resolve(host@, path@) is None,
            },
    {
        let host_chars = chars_of(host);
        if !self.allows_chars(host, &host_chars) {
            proof {
                lemma_first_index_none(self@.matching(host@, path@), self@.locations.len() as int);
            }
            return None;
        }
        let path_chars = chars_of(path);
        let mut i: usize = 0;
        while i < self.locations.len()
            invariant
                i <= self.locations.len(),
                path_chars@ == path@,
                self@.host_allowed(host@),
                forall|k: int| 0 <= k < i ==> !#[trigger] self@.matching(host@, path@)(k),
            decreases self.locations.len() - i,
        {
            let location = &self.locations[i];
            if location.path.matches_chars(path, &path_chars) {
                proof {
                    lemma_first_index_found(
                        self@.matching(host@, path@),
                        self@.locations.len() as int,
                        i as int,
                    );
                }
                return Some(location.backend.as_str());
            }
            i = i + 1;
        }
        proof {
            lemma_first_index_none(self@.matching(host@, path@), self@.locations.len() as int);
        }
        None
    }

    /// The number of locations in the table.
    pub fn len(&self) -> (n: usize)
        ensures
            n == self@.locations.len(),
    {
        self.locations.len()
    }
}

} // verus!
