//! The registry of destination plugins, and the hand-over of each route's
//! payload to the plugin that its destination names.

use vstd::prelude::*;
use crate::config_loader::{Config, ConfigHandler};
use crate::error::ConfigError;
use crate::schema_loader_plugin::SchemaLoaderConfig;

verus! {

/// Every destination of every route of a handler names a plugin in `names`.
pub open spec fn handler_plugins_registered(h: ConfigHandler, names: Set<Seq<char>>) -> bool {
    forall|r: int|
        0 <= r < h.http@.len() ==> names.contains(#[trigger] h.http@[r].destination.plugin_name@)
}

/// Every destination in the document names a plugin in `names`.
pub open spec fn plugins_registered(c: Config, names: Set<Seq<char>>) -> bool {
    forall|h: int|
        0 <= h < c.handler@.len() ==> handler_plugins_registered(#[trigger] c.handler@[h], names)
}

/// The names under which plugins are registered.
pub struct PluginRegistry {
    names: Vec<String>,
}

impl View for PluginRegistry {
    type V = Set<Seq<char>>;

    closed spec fn view(&self) -> Set<Seq<char>> {
        self.names@.map_values(|n: String| n@).to_set()
    }
}

impl PluginRegistry {
    /// A registry with no plugin.
    pub fn new() -> (r: PluginRegistry)
        ensures
            r@ == Set::<Seq<char>>::empty(),
    {
        let r = PluginRegistry { names: Vec::new() };
        assert(r.names@.map_values(|n: String| n@) =~= Seq::empty());
        assert(r@ =~= Set::<Seq<char>>::empty());
        r
    }

    /// Whether a plugin is registered under `name`.
    pub fn is_registered(&self, name: &String) -> (r: bool)
        ensures
            r == self@.contains(name@),
    {
        let ghost s = self.names@.map_values(|n: String| n@);
        let mut i: usize = 0;
        while i < self.names.len()
            invariant
                s == self.names@.map_values(|n: String| n@),
                0 <= i <= self.names@.len(),
                forall|j: int| 0 <= j < i ==> #[trigger] self.names@[j]@ != name@,
            decreases self.names@.len() - i,
        {
            if self.names[i] == *name {
                assert(s[i as int] == name@);
                return true;
            }
            i = i + 1;
        }
        assert(!s.contains(name@)) by {
            if s.contains(name@) {
                let j = choose|j: int| 0 <= j < s.len() && s[j] == name@;
                assert(self.names@[j]@ == name@);
            }
        }
        false
    }

    /// Registers a plugin under `name`; registering a name twice changes nothing.
    pub fn register(&mut self, name: &str)
        ensures
            final(self)@ == old(self)@.insert(name@),
    {
        let key = String::from_str(name);
        if !self.is_registered(&key) {
            let ghost s = self.names@.map_values(|n: String| n@);
            self.names.push(key);
            assert(self.names@.map_values(|n: String| n@) =~= s.push(name@));
            proof {
                s.lemma_push_to_set_commute(name@);
            }
        } else {
            assert(old(self)@.insert(name@) =~= old(self)@);
        }
    }

    /// Registers plugin `P` under its own `PLUGIN_NAME`.
    pub fn register_plugin<T, P: SchemaLoaderConfig<T>>(&mut self)
        ensures
            final(self)@ == old(self)@.insert(P::PLUGIN_NAME@),
    {
        self.register(P::PLUGIN_NAME);
    }

    /// Checks that every route's destination names a registered plugin. This
    /// is a step after parsing: a configuration that names an unregistered
    /// plugin is still a well-formed configuration.
    pub fn resolve(&self, c: &Config) -> (r: Result<(), ConfigError>)
        ensures
            r is Ok <==> plugins_registered(*c, self@),
            r is Err ==> r->Err_0 is UnknownPlugin && {
                let h = r->Err_0->UnknownPlugin_handler as int;
                let k = r->Err_0->UnknownPlugin_route as int;
                &&& 0 <= h < c.handler@.len()
                &&& 0 <= k < c.handler@[h].http@.len()
                &&& r->Err_0->UnknownPlugin_plugin_name@
                    == c.handler@[h].http@[k].destination.plugin_name@
                &&& !self@.contains(r->Err_0->UnknownPlugin_plugin_name@)
            },
    {
        let mut h: usize = 0;
        while h < c.handler.len()
            invariant
                0 <= h <= c.handler@.len(),
                forall|a: int|
                    0 <= a < h ==> handler_plugins_registered(#[trigger] c.handler@[a], self@),
            decreases c.handler@.len() - h,
        {
            let routes = &c.handler[h].http;
            let mut k: usize = 0;
            while k < routes.len()
                invariant
                    0 <= h < c.handler@.len(),
                    routes@ == c.handler@[h as int].http@,
                    0 <= k <= routes@.len(),
                    forall|a: int|
                        0 <= a < h ==> handler_plugins_registered(#[trigger] c.handler@[a], self@),
                    forall|b: int|
                        0 <= b < k ==> self@.contains(#[trigger] routes@[b].destination.plugin_name@),
                decreases routes@.len() - k,
            {
                if !self.is_registered(&routes[k].destination.plugin_name) {
                    let plugin_name = routes[k].destination.plugin_name.clone();
                    return Err(ConfigError::UnknownPlugin { handler: h, route: k, plugin_name });
                }
                k = k + 1;
            }
            h = h + 1;
        }
        Ok(())
    }
}

/// Relays what a plugin made of its payload: a rejection becomes
/// `PluginConfigInvalid`, carrying the plugin's name and its own message.
pub fn relay_plugin_outcome(plugin_name: &String, outcome: Result<(), String>) -> (r: Result<(), ConfigError>)
    ensures
        outcome is Ok ==> r is Ok,
        outcome is Err ==> r == Err::<(), ConfigError>(
            ConfigError::PluginConfigInvalid { plugin_name: *plugin_name, message: outcome->Err_0 },
        ),
{
    match outcome {
        Ok(()) => Ok(()),
        Err(message) => Err(ConfigError::PluginConfigInvalid { plugin_name: plugin_name.clone(), message }),
    }
}

} // verus!
