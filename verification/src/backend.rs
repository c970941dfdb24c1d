//! A backend is one of two variants: a git repository, or a script run by the engine.

use crate::asdf_plugin::{AsdfPlugin, PluginType};
use crate::vfox::VfoxForge;
use vstd::prelude::*;
use vstd::string::*;

verus! {

/// A backend instance, by its variant.
#[derive(Debug, Clone)]
pub enum Backend {
    Git(AsdfPlugin),
    Script(VfoxForge),
}

impl Backend {
    /// The name of the plugin, whatever the variant.
    pub open spec fn spec_name(&self) -> Seq<char> {
        match self {
            Backend::Git(plugin) => plugin.name@,
            Backend::Script(forge) => forge.name@,
        }
    }

    /// The name of the plugin.
    pub fn name(&self) -> (name: &str)
        ensures
            name@ == self.spec_name(),
    {
        match self {
            Backend::Git(plugin) => plugin.name(),
            Backend::Script(forge) => forge.name(),
        }
    }

    /// The kind of the backend: `Asdf` for a git repository, `Vfox` for a script.
    pub fn kind(&self) -> (kind: PluginType)
        ensures
            kind == match self {
                Backend::Git(_) => PluginType::Asdf,
                Backend::Script(_) => PluginType::Vfox,
            },
    {
        match self {
            Backend::Git(plugin) => plugin.get_plugin_type(),
            Backend::Script(forge) => forge.get_type(),
        }
    }
}

} // verus!
