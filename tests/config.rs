use anthaathi_graphql_common::config_loader::{
    Config, ConfigDestination, ConfigHTTPConfig, ConfigHTTPHeaderOperationConfig, ConfigHandler,
    ConfigHeaders, ConfigListener, ConfigMatchOption, StringMatch, TLSConfig,
};
use anthaathi_graphql_common::error::ConfigError;
use anthaathi_graphql_common::headers::HeaderMap;
use anthaathi_graphql_common::loader::{classify_parse_error, load_parsed};
use anthaathi_graphql_common::plugin::{relay_plugin_outcome, PluginRegistry};
use anthaathi_graphql_common::schema_loader_plugin::SchemaLoaderConfig;
use anthaathi_graphql_common::validate::validate_config;

fn s(v: &str) -> String {
    v.to_string()
}

fn exact(v: &str) -> StringMatch {
    StringMatch { exact: Some(s(v)), prefix: None, regex: None }
}

fn option_with_uri(name: &str, uri: StringMatch) -> ConfigMatchOption {
    ConfigMatchOption {
        name: s(name),
        uri: Some(uri),
        headers: None,
        query_params: None,
        ignore_uri_case: None,
        without_headers: None,
    }
}

fn route(name: &str, plugin: &str, uri: StringMatch) -> ConfigHTTPConfig {
    ConfigHTTPConfig {
        name: s(name),
        match_: Some(vec![option_with_uri("matchtogoogle", uri)]),
        header: None,
        destination: ConfigDestination { plugin_name: s(plugin), config: serde_yaml::Value::Null },
    }
}

fn listener(name: &str, address: &str) -> ConfigListener {
    ConfigListener { name: s(name), address: s(address), tls: None }
}

fn document(listeners: Vec<ConfigListener>, refs: Vec<&str>, routes: Vec<ConfigHTTPConfig>) -> Config {
    Config {
        api_version: s("alphaV1"),
        handler: vec![ConfigHandler {
            hosts: Some(vec![s("$1.anthaathi.org")]),
            http: routes,
            listener: refs.into_iter().map(s).collect(),
        }],
        listener: listeners,
    }
}

fn scenario_a() -> Config {
    document(
        vec![listener("http", "localhost:3000")],
        vec!["http"],
        vec![route("goingToFile", "FileLoader", exact("/api"))],
    )
}

#[test]
fn scenario_a_parses() {
    let c = scenario_a();
    assert_eq!(validate_config(&c), Ok(()));
    let c = load_parsed(Ok(c)).expect("valid document");
    assert_eq!(c.listener.len(), 1);
    assert_eq!(c.handler.len(), 1);
    assert_eq!(c.handler[0].http[0].destination.plugin_name, "FileLoader");
}

#[test]
fn scenario_b_two_strategies_rejected() {
    let both = StringMatch { exact: Some(s("/api")), prefix: Some(s("/api")), regex: None };
    let c = document(
        vec![listener("http", "localhost:3000")],
        vec!["http"],
        vec![route("goingToFile", "FileLoader", both)],
    );
    let expected = ConfigError::SchemaViolation {
        handler: 0,
        route: 0,
        option: 0,
        match_name: s("matchtogoogle"),
    };
    assert_eq!(validate_config(&c), Err(expected.clone()));
    assert_eq!(load_parsed(Ok(c)).err(), Some(expected));
}

#[test]
fn scenario_c_dangling_listener() {
    let c = document(
        vec![listener("http", "localhost:3000")],
        vec!["grpc"],
        vec![route("goingToFile", "FileLoader", exact("/api"))],
    );
    assert_eq!(
        validate_config(&c),
        Err(ConfigError::DanglingReference { handler: 0, listener: s("grpc") })
    );
}

#[test]
fn scenario_d_unknown_plugin_after_parse() {
    let c = document(
        vec![listener("http", "localhost:3000")],
        vec!["http"],
        vec![route("goingToFile", "Unregistered", exact("/api"))],
    );
    assert_eq!(validate_config(&c), Ok(()));
    let mut registry = PluginRegistry::new();
    registry.register("FileLoader");
    assert_eq!(
        registry.resolve(&c),
        Err(ConfigError::UnknownPlugin { handler: 0, route: 0, plugin_name: s("Unregistered") })
    );
}

#[test]
fn registered_plugins_resolve() {
    let c = scenario_a();
    let mut registry = PluginRegistry::new();
    assert!(!registry.is_registered(&s("FileLoader")));
    registry.register("FileLoader");
    registry.register("FileLoader");
    assert!(registry.is_registered(&s("FileLoader")));
    assert_eq!(registry.resolve(&c), Ok(()));
}

struct FileLoader;

impl SchemaLoaderConfig<serde_yaml::Value> for FileLoader {
    const PLUGIN_NAME: &'static str = "FileLoader";

    fn load_config(_input: serde_yaml::Value) {}
}

#[test]
fn plugin_registers_under_its_name() {
    let mut registry = PluginRegistry::new();
    registry.register_plugin::<serde_yaml::Value, FileLoader>();
    assert!(registry.is_registered(&s("FileLoader")));
    assert_eq!(registry.resolve(&scenario_a()), Ok(()));
}

#[test]
fn plugin_rejection_keeps_message() {
    assert_eq!(relay_plugin_outcome(&s("FileLoader"), Ok(())), Ok(()));
    assert_eq!(
        relay_plugin_outcome(&s("FileLoader"), Err(s("fileMapping is required"))),
        Err(ConfigError::PluginConfigInvalid {
            plugin_name: s("FileLoader"),
            message: s("fileMapping is required"),
        })
    );
}

#[test]
fn duplicate_listener_rejected() {
    let c = document(
        vec![listener("http", "localhost:3000"), listener("admin", "localhost:3001"), listener("http", "0.0.0.0:3000")],
        vec!["http"],
        vec![route("goingToFile", "FileLoader", exact("/api"))],
    );
    assert_eq!(validate_config(&c), Err(ConfigError::DuplicateKey { name: s("http") }));
}

#[test]
fn unknown_api_version_rejected() {
    let mut c = scenario_a();
    c.api_version = s("betaV2");
    assert_eq!(
        validate_config(&c),
        Err(ConfigError::UnsupportedApiVersion { api_version: s("betaV2") })
    );
}

#[test]
fn api_version_checked_before_listeners() {
    let mut c = document(
        vec![listener("http", "a:1"), listener("http", "b:2")],
        vec!["grpc"],
        vec![],
    );
    c.api_version = s("");
    assert_eq!(validate_config(&c), Err(ConfigError::UnsupportedApiVersion { api_version: s("") }));
}

#[test]
fn string_match_needs_exactly_one_strategy() {
    let none = StringMatch { exact: None, prefix: None, regex: None };
    let three = StringMatch { exact: Some(s("a")), prefix: Some(s("b")), regex: Some(s("c")) };
    let prefix = StringMatch { exact: None, prefix: Some(s("/api")), regex: None };
    let regex = StringMatch { exact: None, prefix: None, regex: Some(s("^/a.*")) };
    assert!(!none.is_valid());
    assert!(!three.is_valid());
    assert!(exact("/api").is_valid());
    assert!(prefix.is_valid());
    assert!(regex.is_valid());
}

#[test]
fn invalid_header_predicate_rejected() {
    let mut c = scenario_a();
    let opt = ConfigMatchOption {
        name: s("byHeader"),
        uri: None,
        headers: Some(vec![(s("x-a"), exact("1")), (s("x-b"), StringMatch { exact: None, prefix: None, regex: None })]),
        query_params: None,
        ignore_uri_case: Some(true),
        without_headers: None,
    };
    assert!(!opt.is_valid());
    c.handler[0].http[0].match_.as_mut().unwrap().push(opt);
    assert_eq!(
        validate_config(&c),
        Err(ConfigError::SchemaViolation { handler: 0, route: 0, option: 1, match_name: s("byHeader") })
    );
}

#[test]
fn option_without_predicates_is_wildcard() {
    let empty = ConfigMatchOption {
        name: s("all"),
        uri: None,
        headers: Some(vec![]),
        query_params: None,
        ignore_uri_case: None,
        without_headers: None,
    };
    assert!(empty.is_wildcard());
    assert!(empty.is_valid());
    assert!(!option_with_uri("api", exact("/api")).is_wildcard());
}

#[test]
fn listener_with_tls_is_accepted() {
    let mut c = scenario_a();
    c.listener[0].tls = Some(TLSConfig {});
    assert_eq!(validate_config(&c), Ok(()));
}

#[test]
fn add_after_set_overwrites() {
    let op = ConfigHTTPHeaderOperationConfig {
        set: Some(vec![(s("X"), s("1"))]),
        add: Some(vec![(s("X"), s("2"))]),
        remove: None,
    };
    let mut h = HeaderMap::new();
    op.apply(&mut h);
    assert_eq!(h.get("X"), Some(&s("2")));
}

#[test]
fn remove_after_add_drops_header() {
    let op = ConfigHTTPHeaderOperationConfig {
        set: Some(vec![(s("X"), s("1"))]),
        add: Some(vec![(s("X"), s("2"))]),
        remove: Some(vec![s("X")]),
    };
    let mut h = HeaderMap::new();
    h.set(s("X"), s("0"));
    op.apply(&mut h);
    assert_eq!(h.get("X"), None);
}

#[test]
fn operations_leave_other_headers() {
    let op = ConfigHTTPHeaderOperationConfig {
        set: Some(vec![(s("A"), s("1"))]),
        add: None,
        remove: Some(vec![s("B")]),
    };
    let mut h = HeaderMap::new();
    h.set(s("B"), s("b"));
    h.set(s("C"), s("c"));
    op.apply(&mut h);
    assert_eq!(h.get("A"), Some(&s("1")));
    assert_eq!(h.get("B"), None);
    assert_eq!(h.get("C"), Some(&s("c")));
}

#[test]
fn header_map_set_replaces_and_remove_drops() {
    let mut h = HeaderMap::new();
    assert_eq!(h.get("X"), None);
    h.set(s("X"), s("1"));
    h.set(s("Y"), s("y"));
    h.set(s("X"), s("3"));
    assert_eq!(h.get("X"), Some(&s("3")));
    h.remove("X");
    h.remove("Z");
    assert_eq!(h.get("X"), None);
    assert_eq!(h.get("Y"), Some(&s("y")));
}

#[test]
fn request_and_response_pipelines_are_separate() {
    let headers = ConfigHeaders {
        request: Some(ConfigHTTPHeaderOperationConfig { set: Some(vec![(s("R"), s("req"))]), add: None, remove: None }),
        response: None,
    };
    let mut req = HeaderMap::new();
    let mut resp = HeaderMap::new();
    headers.apply_request(&mut req);
    headers.apply_response(&mut resp);
    assert_eq!(req.get("R"), Some(&s("req")));
    assert_eq!(resp.get("R"), None);
}

#[test]
fn parser_error_becomes_syntax_error() {
    let parsed: Result<serde_yaml::Value, serde_yaml::Error> = serde_yaml::from_str("@invalid_yaml");
    let e = parsed.unwrap_err();
    let message = e.to_string();
    let r = load_parsed(Err(e));
    assert_eq!(r.err(), Some(ConfigError::SyntaxError { message, location: Some((1, 1)) }));
}

#[test]
fn missing_field_is_classified() {
    assert_eq!(
        classify_parse_error(s("handler[0]: missing field `listener` at line 2 column 3"), Some((2, 3))),
        ConfigError::MissingRequiredField {
            message: s("handler[0]: missing field `listener` at line 2 column 3"),
            location: Some((2, 3)),
        }
    );
    assert_eq!(
        classify_parse_error(s("missing"), None),
        ConfigError::SyntaxError { message: s("missing"), location: None }
    );
}
