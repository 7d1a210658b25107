//! What the host tells the plugin about its surroundings.

use crate::abi::{Handle, RustString};
use vstd::prelude::*;

verus! {

/// The directory that the host has set aside for this plugin, as
/// `env_get_workspace` names it for the plugin's handle and manager.
pub fn workspace<F: Fn(usize, Handle) -> RustString>(
    plugin_handle: usize,
    plugin_manager: Handle,
    env_get_workspace: &F,
) -> (r: String)
    requires
        call_requires(env_get_workspace, (plugin_handle, plugin_manager)),
    ensures
        exists|rs: RustString| #[trigger]
            call_ensures(env_get_workspace, (plugin_handle, plugin_manager), rs) && r
                == rs.decoded(),
{
    let s: String = String::from(env_get_workspace(plugin_handle, plugin_manager));
    s
}

} // verus!
