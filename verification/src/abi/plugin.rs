//! What a plugin exports, and the life of a plugin instance.
//!
//! The host drives every instance through four operations: construct, enable,
//! disable, destroy. `Lifecycle` holds the rules of that protocol. It decides
//! which operation is due and on which instance; making the call is left to
//! whoever holds the operation table.

use crate::abi::{Handle, RustStr};
use crate::loader::FnPtr;
use vstd::prelude::*;

verus! {

/// The descriptor that a plugin exports.
pub struct PluginInstance<'a> {
    pub instance: Handle,
    pub should_drop: bool,
    pub vtb: PluginVTable,
    pub abi_ver: u8,
    pub name: RustStr<'a>,
}

/// The four operations of a plugin, by address.
pub struct PluginVTable {
    pub new: FnPtr,
    pub enable: FnPtr,
    pub disable: FnPtr,
    pub drop: FnPtr,
}

/// Where an instance is in its life.
#[derive(Clone, Copy, PartialEq, Eq, Structural, Debug)]
pub enum PluginState {
    /// There is no instance; one has to be constructed before anything else.
    Uninstantiated,
    /// The instance exists and has not been enabled yet.
    Constructed(Handle),
    Enabled(Handle),
    Disabled(Handle),
    /// The plugin is gone for good.
    Unloaded,
}

impl PluginState {
    /// The instance that exists in this state, if one does.
    pub open spec fn instance(self) -> Option<Handle> {
        match self {
            PluginState::Constructed(p) => Some(p),
            PluginState::Enabled(p) => Some(p),
            PluginState::Disabled(p) => Some(p),
            _ => None,
        }
    }
}

/// The life of one plugin: the flag from its descriptor and the state.
#[derive(Clone, Copy, PartialEq, Eq, Structural, Debug)]
pub struct Lifecycle {
    pub should_drop: bool,
    pub state: PluginState,
}

impl Lifecycle {
    /// Whether an instance can be enabled now: it exists and is not enabled.
    pub open spec fn can_enable(self) -> bool {
        self.state is Constructed || self.state is Disabled
    }

    /// After `construct` gave `instance`.
    pub open spec fn after_construct(self, instance: Handle) -> Lifecycle {
        Lifecycle { state: PluginState::Constructed(instance), ..self }
    }

    /// After `enable` ran on the instance.
    pub open spec fn after_enable(self) -> Lifecycle {
        Lifecycle { state: PluginState::Enabled(self.state.instance()->0), ..self }
    }

    /// After `disable` ran on the instance, and `destroy` too where the
    /// descriptor asks for it.
    pub open spec fn after_disable(self) -> Lifecycle {
        if self.should_drop {
            Lifecycle { state: PluginState::Uninstantiated, ..self }
        } else {
            Lifecycle { state: PluginState::Disabled(self.state.instance()->0), ..self }
        }
    }

    /// After the final unload.
    pub open spec fn after_unload(self) -> Lifecycle {
        Lifecycle { state: PluginState::Unloaded, ..self }
    }

    /// After `n` rounds of enable and disable.
    pub open spec fn after_cycles(self, n: nat) -> Lifecycle
        decreases n,
    {
        if n == 0 {
            self
        } else {
            self.after_cycles((n - 1) as nat).after_enable().after_disable()
        }
    }

    /// The life of a plugin that has just been loaded.
    pub fn new(should_drop: bool) -> (r: Self)
        ensures
            r == (Lifecycle { should_drop, state: PluginState::Uninstantiated }),
    {
        Lifecycle { should_drop, state: PluginState::Uninstantiated }
    }

    /// Whether `construct` has to run before the plugin can be enabled.
    pub fn needs_construct(&self) -> (r: bool)
        ensures
            r == (self.state is Uninstantiated),
    {
        match self.state {
            PluginState::Uninstantiated => true,
            _ => false,
        }
    }

    /// Records the instance that `construct` gave.
    pub fn constructed(&mut self, instance: Handle)
        requires
            old(self).state is Uninstantiated,
        ensures
            *final(self) == old(self).after_construct(instance),
    {
        self.state = PluginState::Constructed(instance);
    }

    /// Enables the plugin: gives the instance on which `enable` is to run.
    /// `None`, and nothing changes, where no instance can be enabled now.
    pub fn enable(&mut self) -> (r: Option<Handle>)
        ensures
            old(self).can_enable() ==> r == old(self).state.instance() && *final(self) == old(
                self,
            ).after_enable(),
            !old(self).can_enable() ==> r is None && *final(self) == *old(self),
    {
        match self.state {
            PluginState::Constructed(p) => {
                self.state = PluginState::Enabled(p);
                Some(p)
            },
            PluginState::Disabled(p) => {
                self.state = PluginState::Enabled(p);
                Some(p)
            },
            _ => None,
        }
    }

    /// Disables the plugin: gives the instance on which `disable` is to run
    /// and says whether `destroy` is to run on it right after. `None`, and
    /// nothing changes, where no instance is enabled.
    pub fn disable(&mut self) -> (r: Option<(Handle, bool)>)
        ensures
            old(self).state is Enabled ==> r == Some((old(self).state->Enabled_0, old(self).should_drop))
                && *final(self) == old(self).after_disable(),
            !(old(self).state is Enabled) ==> r is None && *final(self) == *old(self),
    {
        match self.state {
            PluginState::Enabled(p) => {
                if self.should_drop {
                    self.state = PluginState::Uninstantiated;
                } else {
                    self.state = PluginState::Disabled(p);
                }
                Some((p, self.should_drop))
            },
            _ => None,
        }
    }

    /// The final unload: gives the instance on which `destroy` is to run,
    /// if one exists. An enabled plugin is disabled first.
    pub fn unload(&mut self) -> (r: Option<Handle>)
        requires
            !(old(self).state is Enabled),
        ensures
            r == old(self).state.instance(),
            *final(self) == old(self).after_unload(),
    {
        let r = match self.state {
            PluginState::Constructed(p) => Some(p),
            PluginState::Disabled(p) => Some(p),
            _ => None,
        };
        self.state = PluginState::Unloaded;
        r
    }
}

/// With the flag set, construct, enable, disable leaves no instance: it was
/// destroyed on disable, nothing can be enabled until a new one is
/// constructed, and the final unload has nothing left to destroy.
pub proof fn lemma_destroyed_on_disable(life: Lifecycle, instance: Handle)
    requires
        life.should_drop,
        life.state is Uninstantiated,
    ensures
        life.after_construct(instance).after_enable().state == PluginState::Enabled(instance),
        life.after_construct(instance).after_enable().after_disable().state
            is Uninstantiated,
        !life.after_construct(instance).after_enable().after_disable().can_enable(),
        life.after_construct(instance).after_enable().after_disable().state.instance() is None,
{
}

/// With the flag clear, any number of rounds of enable and disable after the
/// first keeps the one instance that was constructed; each enable runs on it,
/// no disable destroys it, and the final unload destroys it.
pub proof fn lemma_instance_persists(life: Lifecycle, instance: Handle, n: nat)
    requires
        !life.should_drop,
        life.state is Uninstantiated,
    ensures
        ({
            let first = life.after_construct(instance).after_enable().after_disable();
            &&& first.after_cycles(n).state == PluginState::Disabled(instance)
            &&& first.after_cycles(n).can_enable()
            &&& first.after_cycles(n).after_enable().state == PluginState::Enabled(instance)
            &&& first.after_cycles(n).state.instance() == Some(instance)
            &&& first.after_cycles(n).after_unload().state is Unloaded
        }),
    decreases n,
{
    if n > 0 {
        lemma_instance_persists(life, instance, (n - 1) as nat);
    }
}

} // verus!
