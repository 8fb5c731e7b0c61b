//! The entity graph of one configuration document.

use vstd::prelude::*;

verus! {

/// `serde_yaml::Value`: the untyped tree that a destination's configuration
/// payload is kept as. The model never looks inside it.
#[verifier::external_type_specification]
#[verifier::external_body]
pub struct ExYamlValue(serde_yaml::Value);

/// The top-level document.
#[derive(Debug)]
pub struct Config {
    pub api_version: String,
    pub handler: Vec<ConfigHandler>,
    pub listener: Vec<ConfigListener>,
}

/// Binds hostnames and listener references to an ordered set of routes.
#[derive(Debug)]
pub struct ConfigHandler {
    pub hosts: Option<Vec<String>>,
    pub http: Vec<ConfigHTTPConfig>,
    pub listener: Vec<String>,
}

/// A named network entry point.
#[derive(Debug, Clone)]
pub struct ConfigListener {
    pub name: String,
    pub address: String,
    pub tls: Option<TLSConfig>,
}

/// Marks a listener on which TLS is required; carries no settings yet.
#[derive(Debug, Clone, Copy, PartialEq, Eq)]
pub struct TLSConfig {}

/// The plugin a route dispatches to, and that plugin's own payload.
#[derive(Debug)]
pub struct ConfigDestination {
    pub plugin_name: String,
    pub config: serde_yaml::Value,
}

/// A named port number.
#[derive(Debug, Clone)]
pub struct ConfigPort {
    pub name: String,
    pub number: u32,
}

/// One routing rule.
#[derive(Debug)]
pub struct ConfigHTTPConfig {
    pub name: String,
    pub match_: Option<Vec<ConfigMatchOption>>,
    pub header: Option<ConfigHeaders>,
    pub destination: ConfigDestination,
}

/// A conjunction of predicates; sibling options are alternatives.
/// Each mapping is held as its (name, predicate) entries.
#[derive(Debug, Clone)]
pub struct ConfigMatchOption {
    pub name: String,
    pub uri: Option<StringMatch>,
    pub headers: Option<Vec<(String, StringMatch)>>,
    pub query_params: Option<Vec<(String, StringMatch)>>,
    pub ignore_uri_case: Option<bool>,
    pub without_headers: Option<Vec<(String, StringMatch)>>,
}

/// One matching strategy: exactly one of the three must be set.
#[derive(Debug, Clone)]
pub struct StringMatch {
    pub exact: Option<String>,
    pub prefix: Option<String>,
    pub regex: Option<String>,
}

/// The request-side and response-side header pipelines.
#[derive(Debug, Clone)]
pub struct ConfigHeaders {
    pub request: Option<ConfigHTTPHeaderOperationConfig>,
    pub response: Option<ConfigHTTPHeaderOperationConfig>,
}

/// One mutation set, applied in the order set, add, remove.
/// `set` and `add` are held as their (name, value) entries.
#[derive(Debug, Clone)]
pub struct ConfigHTTPHeaderOperationConfig {
    pub set: Option<Vec<(String, String)>>,
    pub add: Option<Vec<(String, String)>>,
    pub remove: Option<Vec<String>>,
}

/// How many of the three strategies a `StringMatch` sets.
pub open spec fn strategy_count(m: StringMatch) -> nat {
    (if m.exact is Some { 1nat } else { 0nat })
        + (if m.prefix is Some { 1nat } else { 0nat })
        + (if m.regex is Some { 1nat } else { 0nat })
}

/// Whether a `ConfigMatchOption` carries no predicate at all.
pub open spec fn has_no_predicates(o: ConfigMatchOption) -> bool {
    &&& o.uri is None
    &&& (o.headers is None || o.headers->0@.len() == 0)
    &&& (o.query_params is None || o.query_params->0@.len() == 0)
    &&& (o.without_headers is None || o.without_headers->0@.len() == 0)
}

impl StringMatch {
    /// Whether exactly one strategy is set.
    pub fn is_valid(&self) -> (r: bool)
        ensures
            r == (strategy_count(*self) == 1),
    {
        let mut n: u8 = 0;
        if self.exact.is_some() {
            n = n + 1;
        }
        if self.prefix.is_some() {
            n = n + 1;
        }
        if self.regex.is_some() {
            n = n + 1;
        }
        n == 1
    }
}

impl ConfigMatchOption {
    /// Whether this option matches every request: it has no predicate.
    pub fn is_wildcard(&self) -> (r: bool)
        ensures
            r == has_no_predicates(*self),
    {
        let no_headers = match &self.headers {
            None => true,
            Some(v) => v.len() == 0,
        };
        let no_query = match &self.query_params {
            None => true,
            Some(v) => v.len() == 0,
        };
        let no_without = match &self.without_headers {
            None => true,
            Some(v) => v.len() == 0,
        };
        self.uri.is_none() && no_headers && no_query && no_without
    }
}

} // verus!
