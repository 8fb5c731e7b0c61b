//! The checks that every loaded configuration must pass.

use vstd::prelude::*;
use crate::config_loader::{
    strategy_count, Config, ConfigHTTPConfig, ConfigHandler, ConfigListener, ConfigMatchOption,
    StringMatch,
};
use crate::error::ConfigError;

verus! {

/// The one `apiVersion` this model knows.
pub open spec fn supported_api_version() -> Seq<char> {
    seq!['a', 'l', 'p', 'h', 'a', 'V', '1']
}

/// No two listeners share a name.
pub open spec fn listener_names_distinct(ls: Seq<ConfigListener>) -> bool {
    forall|i: int, j: int|
        0 <= i < j < ls.len() ==> #[trigger] ls[i].name@ != #[trigger] ls[j].name@
}

/// Some listener carries this name.
pub open spec fn declares_listener(ls: Seq<ConfigListener>, n: Seq<char>) -> bool {
    exists|i: int| 0 <= i < ls.len() && #[trigger] ls[i].name@ == n
}

/// Every listener name that a handler refers to is declared.
pub open spec fn handler_references_resolve(h: ConfigHandler, ls: Seq<ConfigListener>) -> bool {
    forall|k: int| 0 <= k < h.listener@.len() ==> declares_listener(ls, #[trigger] h.listener@[k]@)
}

/// Every listener reference of every handler resolves.
pub open spec fn references_resolve(c: Config) -> bool {
    forall|h: int|
        0 <= h < c.handler@.len() ==> handler_references_resolve(
            #[trigger] c.handler@[h],
            c.listener@,
        )
}

/// Every `StringMatch` of an optional mapping sets exactly one strategy.
pub open spec fn entries_valid(e: Option<Vec<(String, StringMatch)>>) -> bool {
    match e {
        None => true,
        Some(v) => forall|i: int| 0 <= i < v@.len() ==> strategy_count(#[trigger] v@[i].1) == 1,
    }
}

/// Every `StringMatch` of a match option sets exactly one strategy.
pub open spec fn match_option_valid(o: ConfigMatchOption) -> bool {
    &&& (o.uri is None || strategy_count(o.uri->0) == 1)
    &&& entries_valid(o.headers)
    &&& entries_valid(o.query_params)
    &&& entries_valid(o.without_headers)
}

/// Every match option of a route is valid.
pub open spec fn route_matches_valid(r: ConfigHTTPConfig) -> bool {
    match r.match_ {
        None => true,
        Some(v) => forall|i: int| 0 <= i < v@.len() ==> match_option_valid(#[trigger] v@[i]),
    }
}

/// Every match option of every route of a handler is valid.
pub open spec fn handler_matches_valid(h: ConfigHandler) -> bool {
    forall|r: int| 0 <= r < h.http@.len() ==> route_matches_valid(#[trigger] h.http@[r])
}

/// Every match option in the document is valid.
pub open spec fn matches_valid(c: Config) -> bool {
    forall|h: int| 0 <= h < c.handler@.len() ==> handler_matches_valid(#[trigger] c.handler@[h])
}

/// The invariants that a loaded configuration holds.
pub open spec fn config_valid(c: Config) -> bool {
    &&& c.api_version@ == supported_api_version()
    &&& listener_names_distinct(c.listener@)
    &&& references_resolve(c)
    &&& matches_valid(c)
}

/// The match option at these positions exists and is invalid.
pub open spec fn invalid_option_at(c: Config, h: int, r: int, o: int) -> bool {
    &&& 0 <= h < c.handler@.len()
    &&& 0 <= r < c.handler@[h].http@.len()
    &&& c.handler@[h].http@[r].match_ is Some
    &&& 0 <= o < c.handler@[h].http@[r].match_->0@.len()
    &&& !match_option_valid(c.handler@[h].http@[r].match_->0@[o])
}

fn entries_are_valid(e: &Option<Vec<(String, StringMatch)>>) -> (r: bool)
    ensures
        r == entries_valid(*e),
{
    match e {
        None => true,
        Some(v) => {
            let mut i: usize = 0;
            while i < v.len()
                invariant
                    e is Some,
                    e->0@ == v@,
                    0 <= i <= v@.len(),
                    forall|k: int| 0 <= k < i ==> strategy_count(#[trigger] v@[k].1) == 1,
                decreases v@.len() - i,
            {
                if !v[i].1.is_valid() {
                    assert(strategy_count(v@[i as int].1) != 1);
                    return false;
                }
                i = i + 1;
            }
            true
        },
    }
}

impl ConfigMatchOption {
    /// Whether every `StringMatch` of this option sets exactly one strategy.
    pub fn is_valid(&self) -> (r: bool)
        ensures
            r == match_option_valid(*self),
    {
        let uri_ok = match &self.uri {
            None => true,
            Some(m) => m.is_valid(),
        };
        uri_ok && entries_are_valid(&self.headers) && entries_are_valid(&self.query_params)
            && entries_are_valid(&self.without_headers)
    }
}

/// Finds a listener name that is declared twice.
fn check_listener_names(ls: &Vec<ConfigListener>) -> (r: Result<(), ConfigError>)
    ensures
        r is Ok <==> listener_names_distinct(ls@),
        r is Err ==> r->Err_0 is DuplicateKey && exists|i: int, j: int|
            0 <= i < j < ls@.len() && ls@[i].name@ == ls@[j].name@ && ls@[i].name@
                == r->Err_0->DuplicateKey_name@,
{
    let n = ls.len();
    let mut i: usize = 0;
    while i < n
        invariant
            0 <= i <= n,
            n == ls@.len(),
            forall|a: int, b: int|
                0 <= a < b < n && a < i ==> #[trigger] ls@[a].name@ != #[trigger] ls@[b].name@,
        decreases n - i,
    {
        let mut j: usize = i + 1;
        while j < n
            invariant
                0 <= i < n,
                i + 1 <= j <= n,
                n == ls@.len(),
                forall|a: int, b: int|
                    0 <= a < b < n && a < i ==> #[trigger] ls@[a].name@ != #[trigger] ls@[b].name@,
                forall|b: int| i < b < j ==> ls@[i as int].name@ != #[trigger] ls@[b].name@,
            decreases n - j,
        {
            if ls[i].name == ls[j].name {
                let name = ls[i].name.clone();
                assert(ls@[i as int].name@ == ls@[j as int].name@);
                return Err(ConfigError::DuplicateKey { name });
            }
            j = j + 1;
        }
        i = i + 1;
    }
    Ok(())
}

/// Whether a listener with this name is declared.
fn is_declared(ls: &Vec<ConfigListener>, name: &String) -> (r: bool)
    ensures
        r == declares_listener(ls@, name@),
{
    let mut i: usize = 0;
    while i < ls.len()
        invariant
            0 <= i <= ls@.len(),
            forall|k: int| 0 <= k < i ==> #[trigger] ls@[k].name@ != name@,
        decreases ls@.len() - i,
    {
        if ls[i].name == *name {
            return true;
        }
        i = i + 1;
    }
    false
}

/// Finds a listener reference that names no declared listener.
fn check_references(c: &Config) -> (r: Result<(), ConfigError>)
    ensures
        r is Ok <==> references_resolve(*c),
        r is Err ==> r->Err_0 is DanglingReference && {
            let h = r->Err_0->DanglingReference_handler as int;
            let n = r->Err_0->DanglingReference_listener@;
            &&& 0 <= h < c.handler@.len()
            &&& exists|k: int|
                0 <= k < c.handler@[h].listener@.len() && #[trigger] c.handler@[h].listener@[k]@
                    == n
            &&& !declares_listener(c.listener@, n)
        },
{
    let mut h: usize = 0;
    while h < c.handler.len()
        invariant
            0 <= h <= c.handler@.len(),
            forall|a: int|
                0 <= a < h ==> handler_references_resolve(#[trigger] c.handler@[a], c.listener@),
        decreases c.handler@.len() - h,
    {
        let refs = &c.handler[h].listener;
        let mut k: usize = 0;
        while k < refs.len()
            invariant
                0 <= h < c.handler@.len(),
                refs@ == c.handler@[h as int].listener@,
                0 <= k <= refs@.len(),
                forall|a: int|
                    0 <= a < h ==> handler_references_resolve(#[trigger] c.handler@[a], c.listener@),
                forall|b: int| 0 <= b < k ==> declares_listener(c.listener@, #[trigger] refs@[b]@),
            decreases refs@.len() - k,
        {
            if !is_declared(&c.listener, &refs[k]) {
                let listener = refs[k].clone();
                assert(c.handler@[h as int].listener@[k as int]@ == listener@);
                return Err(ConfigError::DanglingReference { handler: h, listener });
            }
            k = k + 1;
        }
        h = h + 1;
    }
    Ok(())
}

/// The position of the first invalid match option of a route.
fn first_invalid_option(route: &ConfigHTTPConfig) -> (r: Option<usize>)
    ensures
        r is None <==> route_matches_valid(*route),
        r is Some ==> route.match_ is Some && r->0 < route.match_->0@.len() && !match_option_valid(
            route.match_->0@[r->0 as int],
        ),
{
    match &route.match_ {
        None => None,
        Some(opts) => {
            let mut o: usize = 0;
            while o < opts.len()
                invariant
                    route.match_ is Some,
                    route.match_->0@ == opts@,
                    0 <= o <= opts@.len(),
                    forall|a: int| 0 <= a < o ==> match_option_valid(#[trigger] opts@[a]),
                decreases opts@.len() - o,
            {
                if !opts[o].is_valid() {
                    return Some(o);
                }
                o = o + 1;
            }
            None
        },
    }
}

/// Finds a match option with an invalid `StringMatch`.
fn check_matches(c: &Config) -> (r: Result<(), ConfigError>)
    ensures
        r is Ok <==> matches_valid(*c),
        r is Err ==> r->Err_0 is SchemaViolation && invalid_option_at(
            *c,
            r->Err_0->SchemaViolation_handler as int,
            r->Err_0->SchemaViolation_route as int,
            r->Err_0->SchemaViolation_option as int,
        ) && r->Err_0->SchemaViolation_match_name@ == c.handler@[r->Err_0->SchemaViolation_handler as int].http@[r->Err_0->SchemaViolation_route as int].match_->0@[r->Err_0->SchemaViolation_option as int].name@,
{
    let mut h: usize = 0;
    while h < c.handler.len()
        invariant
            0 <= h <= c.handler@.len(),
            forall|a: int| 0 <= a < h ==> handler_matches_valid(#[trigger] c.handler@[a]),
        decreases c.handler@.len() - h,
    {
        let routes = &c.handler[h].http;
        let mut r: usize = 0;
        while r < routes.len()
            invariant
                0 <= h < c.handler@.len(),
                routes@ == c.handler@[h as int].http@,
                0 <= r <= routes@.len(),
                forall|a: int| 0 <= a < h ==> handler_matches_valid(#[trigger] c.handler@[a]),
                forall|b: int| 0 <= b < r ==> route_matches_valid(#[trigger] routes@[b]),
            decreases routes@.len() - r,
        {
            match first_invalid_option(&routes[r]) {
                Some(o) => {
                    let opts = routes[r].match_.as_ref().unwrap();
                    let match_name = opts[o].name.clone();
                    return Err(ConfigError::SchemaViolation { handler: h, route: r, option: o, match_name });
                },
                None => {},
            }
            r = r + 1;
        }
        h = h + 1;
    }
    Ok(())
}

/// What an error returned for `c` says of it. The checks run in the order
/// `apiVersion`, unique listener names, listener references, match options;
/// the error belongs to the first check that fails and names a place where
/// it fails.
pub open spec fn reports_violation(c: Config, e: ConfigError) -> bool {
    match e {
        ConfigError::UnsupportedApiVersion { api_version } => {
            &&& c.api_version@ != supported_api_version()
            &&& api_version == c.api_version
        },
        ConfigError::DuplicateKey { name } => {
            &&& c.api_version@ == supported_api_version()
            &&& exists|i: int, j: int|
                0 <= i < j < c.listener@.len() && c.listener@[i].name@ == c.listener@[j].name@
                    && c.listener@[i].name@ == name@
        },
        ConfigError::DanglingReference { handler, listener } => {
            &&& c.api_version@ == supported_api_version()
            &&& listener_names_distinct(c.listener@)
            &&& 0 <= handler < c.handler@.len()
            &&& exists|k: int|
                0 <= k < c.handler@[handler as int].listener@.len()
                    && #[trigger] c.handler@[handler as int].listener@[k]@ == listener@
            &&& !declares_listener(c.listener@, listener@)
        },
        ConfigError::SchemaViolation { handler, route, option, match_name } => {
            &&& c.api_version@ == supported_api_version()
            &&& listener_names_distinct(c.listener@)
            &&& references_resolve(c)
            &&& invalid_option_at(c, handler as int, route as int, option as int)
            &&& match_name@ == c.handler@[handler as int].http@[route as int].match_->0@[option as int].name@
        },
        _ => false,
    }
}

/// Checks the invariants of a parsed configuration, in this order: the
/// `apiVersion`, unique listener names, listener references, then every
/// `StringMatch`. The first violation found is returned.
pub fn validate_config(c: &Config) -> (r: Result<(), ConfigError>)
    ensures
        r is Ok <==> config_valid(*c),
        r is Err ==> reports_violation(*c, r->Err_0),
{
    let expected = String::from_str("alphaV1");
    proof {
        reveal_strlit("alphaV1");
    }
    assert(expected@ == supported_api_version());
    if c.api_version != expected {
        return Err(ConfigError::UnsupportedApiVersion { api_version: c.api_version.clone() });
    }
    match check_listener_names(&c.listener) {
        Err(e) => {
            return Err(e);
        },
        Ok(()) => {},
    }
    match check_references(c) {
        Err(e) => {
            return Err(e);
        },
        Ok(()) => {},
    }
    check_matches(c)
}

/// Every `StringMatch` of an accepted configuration sets exactly one of
/// `exact`, `prefix` and `regex`; a configuration holding one that sets none,
/// two or three of them is never accepted.
pub proof fn lemma_accepted_matches_set_one_strategy(c: Config, h: int, r: int, o: int)
    requires
        0 <= h < c.handler@.len(),
        0 <= r < c.handler@[h].http@.len(),
        c.handler@[h].http@[r].match_ is Some,
        0 <= o < c.handler@[h].http@[r].match_->0@.len(),
    ensures
        config_valid(c) ==> match_option_valid(c.handler@[h].http@[r].match_->0@[o]),
        config_valid(c) && c.handler@[h].http@[r].match_->0@[o].uri is Some ==> strategy_count(
            c.handler@[h].http@[r].match_->0@[o].uri->0,
        ) == 1,
        !match_option_valid(c.handler@[h].http@[r].match_->0@[o]) ==> !config_valid(c),
{
    if config_valid(c) {
        assert(handler_matches_valid(c.handler@[h]));
        assert(route_matches_valid(c.handler@[h].http@[r]));
    }
}

/// Every listener name that a handler of an accepted configuration refers
/// to is declared in it; a configuration with a reference to an absent name
/// is never accepted.
pub proof fn lemma_accepted_references_resolve(c: Config, h: int, k: int)
    requires
        0 <= h < c.handler@.len(),
        0 <= k < c.handler@[h].listener@.len(),
    ensures
        config_valid(c) ==> declares_listener(c.listener@, c.handler@[h].listener@[k]@),
        !declares_listener(c.listener@, c.handler@[h].listener@[k]@) ==> !config_valid(c),
{
    if config_valid(c) {
        assert(handler_references_resolve(c.handler@[h], c.listener@));
    }
}

} // verus!
