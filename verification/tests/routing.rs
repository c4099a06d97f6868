use dakia::config::backend::Backend;
use dakia::config::host::HostRule;
use dakia::config::inet_address::InetAddress;
use dakia::config::location::{PatternType, Route};
use dakia::config::router_config::RouterConfig;
use dakia::error::{ErrorSource, ErrorType};
use dakia::router::gateway::{lookup_backend, Gateway};
use dakia::router::location_table::{Location, LocationTable};
use dakia::router::registry::GatewayRegistry;

fn addr(host: &str, port: u16) -> InetAddress {
    InetAddress { host: String::from(host), port }
}

fn host_rule(pattern: &str, pattern_type: PatternType) -> HostRule {
    HostRule { pattern: String::from(pattern), pattern_type }
}

fn route(pattern: &str, pattern_type: PatternType, backend: &str) -> Route {
    Route { pattern: String::from(pattern), pattern_type, backend: String::from(backend) }
}

fn backend(name: &str, host: &str, port: u16) -> Backend {
    Backend { name: String::from(name), target: addr(host, port) }
}

fn g1() -> RouterConfig {
    RouterConfig {
        listen: vec![addr("0.0.0.0", 8080)],
        hosts: vec![host_rule("a.com", PatternType::Text)],
        locations: vec![route("/x", PatternType::Text, "b1")],
        backends: vec![backend("b1", "10.0.0.1", 9000)],
    }
}

#[test]
fn end_to_end() {
    let registry = GatewayRegistry::build(vec![g1()]).unwrap();
    let bind = addr("0.0.0.0", 8080);
    let target = registry.dispatch(&bind, "a.com", "/x").unwrap();
    assert_eq!(target.host, "10.0.0.1");
    assert_eq!(target.port, 9000);

    let e = registry.dispatch(&bind, "a.com", "/y").unwrap_err();
    assert_eq!(e.source, ErrorSource::Downstream);
    assert_eq!(e.context.as_deref(), Some("no route"));
    assert_eq!(e.etype, ErrorType::ProxyError(404));
    assert_eq!(e.render(), "Downstream HTTPStatus context: no route");

    let e = registry.dispatch(&bind, "other.com", "/x").unwrap_err();
    assert_eq!(e.source, ErrorSource::Downstream);
    assert_eq!(e.context.as_deref(), Some("host not allowed"));
    assert_eq!(e.etype, ErrorType::ProxyError(403));
    assert_eq!(e.render(), "Downstream HTTPStatus context: host not allowed");
}

#[test]
fn unknown_bind_address_is_internal() {
    let registry = GatewayRegistry::build(vec![g1()]).unwrap();
    for bind in [addr("0.0.0.0", 8081), addr("127.0.0.1", 8080)] {
        let e = registry.dispatch(&bind, "a.com", "/x").unwrap_err();
        assert_eq!(e.etype, ErrorType::InternalError);
        assert_eq!(e.source, ErrorSource::Internal);
        assert_eq!(e.context.as_deref(), Some("no gateway for bind address"));
    }
    let empty = GatewayRegistry::build(Vec::new()).unwrap();
    assert_eq!(empty.len(), 0);
    assert!(empty.lookup(&addr("0.0.0.0", 8080)).is_none());
    assert!(empty.dispatch(&addr("0.0.0.0", 8080), "a.com", "/x").is_err());
}

#[test]
fn empty_table_never_matches() {
    let table = LocationTable::build(&vec![host_rule("a.com", PatternType::Text)], &Vec::new())
        .unwrap();
    assert_eq!(table.len(), 0);
    assert_eq!(table.resolve("a.com", "/"), None);
    assert_eq!(table.resolve("a.com", "/x"), None);
    assert_eq!(table.resolve("", ""), None);
    let table = LocationTable::build(&Vec::new(), &Vec::new()).unwrap();
    assert_eq!(table.resolve("a.com", "/x"), None);
}

#[test]
fn first_declared_location_wins() {
    let hosts = vec![host_rule("a.com", PatternType::Text)];
    let routes = vec![
        route("/api/**", PatternType::Wildcard, "general"),
        route("/api/users", PatternType::Text, "specific"),
    ];
    let table = LocationTable::build(&hosts, &routes).unwrap();
    assert_eq!(table.resolve("a.com", "/api/users"), Some("general"));
    let routes = vec![
        route("/api/users", PatternType::Text, "specific"),
        route("/api/**", PatternType::Wildcard, "general"),
    ];
    let table = LocationTable::build(&hosts, &routes).unwrap();
    assert_eq!(table.resolve("a.com", "/api/users"), Some("specific"));
    assert_eq!(table.resolve("a.com", "/api/groups"), Some("general"));
    assert_eq!(table.resolve("a.com", "/other"), None);
}

#[test]
fn kinds_have_no_precedence_of_their_own() {
    let hosts = vec![host_rule("**", PatternType::Wildcard)];
    let routes = vec![
        route("^/a.*$", PatternType::Regex, "regex"),
        route("/a*", PatternType::Wildcard, "wildcard"),
        route("/ab", PatternType::Text, "text"),
    ];
    let table = LocationTable::build(&hosts, &routes).unwrap();
    assert_eq!(table.len(), 3);
    assert_eq!(table.resolve("h", "/ab"), Some("regex"));
    let routes = vec![
        route("/ab", PatternType::Text, "text"),
        route("/a*", PatternType::Wildcard, "wildcard"),
        route("^/a.*$", PatternType::Regex, "regex"),
    ];
    let table = LocationTable::build(&hosts, &routes).unwrap();
    assert_eq!(table.resolve("h", "/ab"), Some("text"));
    assert_eq!(table.resolve("h", "/abc"), Some("wildcard"));
    assert_eq!(table.resolve("h", "/a/b"), Some("regex"));
}

#[test]
fn resolve_checks_the_host() {
    let hosts =
        vec![host_rule("a.com", PatternType::Text), host_rule("*.b.com", PatternType::Wildcard)];
    let routes = vec![route("/x", PatternType::Text, "b1")];
    let table = LocationTable::build(&hosts, &routes).unwrap();
    assert!(table.allows_host("a.com"));
    assert!(table.allows_host("www.b.com"));
    assert!(!table.allows_host("b.com"));
    assert!(!table.allows_host("w.w.b.com"));
    assert_eq!(table.resolve("a.com", "/x"), Some("b1"));
    assert_eq!(table.resolve("www.b.com", "/x"), Some("b1"));
    assert_eq!(table.resolve("b.com", "/x"), None);
    assert_eq!(table.resolve("A.com", "/x"), None);
}

#[test]
fn resolve_is_deterministic() {
    let hosts = vec![host_rule("[a-c]\\.com", PatternType::Regex)];
    let routes = vec![
        route("^/x/[0-9]+$", PatternType::Regex, "numbers"),
        route("/x/*", PatternType::Wildcard, "names"),
    ];
    let first = LocationTable::build(&hosts, &routes).unwrap();
    let second = LocationTable::build(&hosts, &routes).unwrap();
    for host in ["a.com", "b.com", "d.com"] {
        for path in ["/x/12", "/x/ab", "/x/1/2", "/y"] {
            let once = first.resolve(host, path);
            assert_eq!(once, first.resolve(host, path));
            assert_eq!(once, second.resolve(host, path));
        }
    }
    assert_eq!(first.resolve("a.com", "/x/12"), Some("numbers"));
    assert_eq!(first.resolve("c.com", "/x/ab"), Some("names"));
    assert_eq!(first.resolve("d.com", "/x/12"), None);
}

#[test]
fn location_keeps_its_route() {
    let l = Location::compile(&route("/x/*", PatternType::Wildcard, "b1")).unwrap();
    assert_eq!(l.backend(), "b1");
    assert_eq!(l.path().pattern(), "/x/*");
    assert_eq!(l.path().kind(), PatternType::Wildcard);
    assert!(l.path().matches("/x/y"));
    assert!(!l.path().matches("/x/y/z"));
}

#[test]
fn invalid_regex_fails_at_startup() {
    let mut config = g1();
    config.locations.push(route("/api/[", PatternType::Regex, "b1"));
    let e = Gateway::build(config).err().unwrap();
    assert_eq!(e.etype, ErrorType::InternalError);
    assert_eq!(e.source, ErrorSource::Internal);
    assert_eq!(e.context.as_deref(), Some("invalid regex pattern: /api/["));

    let mut config = g1();
    config.hosts.push(host_rule("(", PatternType::Regex));
    let e = GatewayRegistry::build(vec![g1(), config]).err().unwrap();
    assert_eq!(e.source, ErrorSource::Internal);
    assert_eq!(e.context.as_deref(), Some("invalid regex pattern: ("));

    let e = LocationTable::build(
        &vec![host_rule("(", PatternType::Regex)],
        &vec![route("[", PatternType::Regex, "b1")],
    )
    .err()
    .unwrap();
    assert_eq!(e.context.as_deref(), Some("invalid regex pattern: ("));
    let e = Location::compile(&route("[", PatternType::Regex, "b1")).err().unwrap();
    assert_eq!(e.context.as_deref(), Some("invalid regex pattern: ["));
}

#[test]
fn undeclared_backend_fails_at_startup() {
    let mut config = g1();
    config.locations.push(route("/y", PatternType::Text, "b2"));
    let e = Gateway::build(config).err().unwrap();
    assert_eq!(e.etype, ErrorType::InternalError);
    assert_eq!(e.source, ErrorSource::Internal);
    assert_eq!(e.context.as_deref(), Some("undeclared backend: b2"));
    assert_eq!(e.render(), "Internal InternalError context: undeclared backend: b2");

    let mut config = g1();
    config.locations.push(route("/y", PatternType::Text, "b2"));
    assert!(GatewayRegistry::build(vec![config]).is_err());
}

#[test]
fn undeclared_backend_is_reported_before_an_invalid_pattern() {
    let mut config = g1();
    config.locations.insert(0, route("(", PatternType::Regex, "b1"));
    config.locations.push(route("/y", PatternType::Text, "nowhere"));
    let e = Gateway::build(config).err().unwrap();
    assert_eq!(e.context.as_deref(), Some("undeclared backend: nowhere"));
}

#[test]
fn missing_catalog_entry_is_internal() {
    let table = LocationTable::build(
        &vec![host_rule("a.com", PatternType::Text)],
        &vec![route("/x", PatternType::Text, "b9"), route("/y", PatternType::Text, "b1")],
    )
    .unwrap();
    let gateway =
        Gateway::new(vec![addr("0.0.0.0", 80)], table, vec![backend("b1", "10.0.0.1", 9000)]);
    let e = gateway.route("a.com", "/x").unwrap_err();
    assert_eq!(e.etype, ErrorType::InternalError);
    assert_eq!(e.source, ErrorSource::Internal);
    assert_eq!(e.context.as_deref(), Some("backend not found: b9"));
    assert_eq!(gateway.route("a.com", "/y").unwrap().port, 9000);
    let registry = GatewayRegistry::new(vec![gateway]);
    let e = registry.dispatch(&addr("0.0.0.0", 80), "a.com", "/x").unwrap_err();
    assert_eq!(e.source, ErrorSource::Internal);
    assert_eq!(registry.dispatch(&addr("0.0.0.0", 80), "a.com", "/y").unwrap().host, "10.0.0.1");
}

#[test]
fn gateway_answers_for_its_addresses_and_hosts() {
    let mut config = g1();
    config.listen.push(addr("0.0.0.0", 8443));
    let gateway = Gateway::build(config).unwrap();
    assert!(gateway.listens_on(&addr("0.0.0.0", 8080)));
    assert!(gateway.listens_on(&addr("0.0.0.0", 8443)));
    assert!(!gateway.listens_on(&addr("0.0.0.0", 80)));
    assert!(!gateway.listens_on(&addr("0.0.0.1", 8080)));
    assert!(gateway.allows_host("a.com"));
    assert!(!gateway.allows_host("b.com"));
    assert_eq!(gateway.table().len(), 1);
    assert_eq!(gateway.table().resolve("a.com", "/x"), Some("b1"));
}

#[test]
fn one_gateway_serves_several_addresses() {
    let mut config = g1();
    config.listen.push(addr("0.0.0.0", 8443));
    let registry = GatewayRegistry::build(vec![config]).unwrap();
    assert_eq!(registry.len(), 1);
    for port in [8080u16, 8443] {
        let target = registry.dispatch(&addr("0.0.0.0", port), "a.com", "/x").unwrap();
        assert_eq!(*target, addr("10.0.0.1", 9000));
    }
}

#[test]
fn first_gateway_on_an_address_serves_it() {
    let mut second = g1();
    second.backends = vec![backend("b1", "10.0.0.2", 9000)];
    second.listen.push(addr("0.0.0.0", 9090));
    let registry = GatewayRegistry::build(vec![g1(), second]).unwrap();
    assert_eq!(registry.len(), 2);
    let shared = registry.dispatch(&addr("0.0.0.0", 8080), "a.com", "/x").unwrap();
    assert_eq!(shared.host, "10.0.0.1");
    let own = registry.dispatch(&addr("0.0.0.0", 9090), "a.com", "/x").unwrap();
    assert_eq!(own.host, "10.0.0.2");
    assert!(registry.lookup(&addr("0.0.0.0", 9090)).unwrap().listens_on(&addr("0.0.0.0", 8080)));
}

#[test]
fn dispatch_with_wildcard_and_regex_rules() {
    let config = RouterConfig {
        listen: vec![addr("127.0.0.1", 80)],
        hosts: vec![
            host_rule("*.example.com", PatternType::Wildcard),
            host_rule("example\\.(org|net)", PatternType::Regex),
        ],
        locations: vec![
            route("^/api/.*$", PatternType::Regex, "api"),
            route("/static/**", PatternType::Wildcard, "files"),
            route("/", PatternType::Text, "home"),
        ],
        backends: vec![
            backend("home", "10.0.0.1", 8000),
            backend("api", "10.0.0.2", 8001),
            backend("files", "10.0.0.3", 8002),
        ],
    };
    let registry = GatewayRegistry::build(vec![config]).unwrap();
    let bind = addr("127.0.0.1", 80);
    assert_eq!(registry.dispatch(&bind, "a.example.com", "/api/users").unwrap().port, 8001);
    assert_eq!(registry.dispatch(&bind, "example.org", "/static/css/a.css").unwrap().port, 8002);
    assert_eq!(registry.dispatch(&bind, "example.net", "/").unwrap().port, 8000);
    let e = registry.dispatch(&bind, "example.com", "/").unwrap_err();
    assert_eq!(e.context.as_deref(), Some("host not allowed"));
    let e = registry.dispatch(&bind, "a.example.com", "/apiv2/users").unwrap_err();
    assert_eq!(e.context.as_deref(), Some("no route"));
    let e = registry.dispatch(&bind, "example.org.evil.com", "/").unwrap_err();
    assert_eq!(e.context.as_deref(), Some("host not allowed"));
}

#[test]
fn lookup_backend_takes_the_first_of_a_name() {
    let backends =
        vec![backend("b1", "10.0.0.1", 1), backend("b2", "10.0.0.2", 2), backend("b1", "10.0.0.3", 3)];
    assert_eq!(lookup_backend(&backends, "b1").unwrap().target.port, 1);
    assert_eq!(lookup_backend(&backends, "b2").unwrap().target.port, 2);
    assert!(lookup_backend(&backends, "b3").is_none());
    assert!(lookup_backend(&backends, "B1").is_none());
    assert!(lookup_backend(&Vec::new(), "b1").is_none());
}

#[test]
fn addresses_compare_host_and_port() {
    assert!(addr("a", 1).same_as(&addr("a", 1)));
    assert!(!addr("a", 1).same_as(&addr("a", 2)));
    assert!(!addr("a", 1).same_as(&addr("b", 1)));
    assert!(!addr("a", 1).same_as(&addr("A", 1)));
}
