//! What every destination plugin offers: the name that routes use to address
//! it, and the operation that takes its configuration payload.

use vstd::prelude::*;

verus! {

/// Implemented by each destination plugin for the payload type `T` that it
/// is handed.
pub trait SchemaLoaderConfig<T> {
    /// The name that `ConfigDestination::plugin_name` uses for this plugin.
    const PLUGIN_NAME: &'static str;

    /// Takes the payload exactly as it stood in the document.
    fn load_config(input: T);
}

} // verus!
