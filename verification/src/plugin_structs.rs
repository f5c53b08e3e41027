//! Concrete plugin types shipped with the library.
//!
//! [`BasicPlugin`] is the smallest useful plugin: it carries its identity
//! and either succeeds or fails with a fixed message when executed.
//! [`InventoryPlugins`] bundles a collection of inventory plugins under one
//! identity and executes them in turn.

use vstd::prelude::*;

use crate::errors::PluginError;
use crate::plugin::Capability;
use crate::plugin::Plugin;
use crate::plugin::PluginInventory;

verus! {

/// A minimal plugin: an identity, and an outcome fixed at construction.
pub struct BasicPlugin {
    /// The identity the plugin reports.
    pub identity: String,
    /// `None` makes every execution succeed; `Some(message)` makes every
    /// execution fail with that message.
    pub failure: Option<String>,
}

impl BasicPlugin {
    /// A plugin whose executions all succeed.
    pub fn new(identity: String) -> (r: BasicPlugin)
        ensures
            r.identity@ == identity@,
            r.failure is None,
    {
        BasicPlugin { identity, failure: None }
    }

    /// A plugin whose executions all fail with `message`.
    pub fn failing(identity: String, message: String) -> (r: BasicPlugin)
        ensures
            r.identity@ == identity@,
            r.failure matches Some(m) && m@ == message@,
    {
        BasicPlugin { identity, failure: Some(message) }
    }
}

impl Plugin for BasicPlugin {
    open spec fn spec_name(&self) -> Seq<char> {
        self.identity@
    }

    fn name(&self) -> (r: String) {
        self.identity.clone()
    }

    fn execute(&self, context: &Capability<'_>) -> (r: Result<(), PluginError>) {
        match &self.failure {
            None => Ok(()),
            Some(message) => Err(PluginError::Execution(message.clone())),
        }
    }

    fn as_any<'b>(&'b self) -> Capability<'b> {
        Capability::of(self)
    }
}

impl PluginInventory for BasicPlugin {
    open spec fn spec_name(&self) -> Seq<char> {
        self.identity@
    }

    fn name(&self) -> (r: String) {
        self.identity.clone()
    }

    fn execute(&self, context: &Capability<'_>) -> (r: Result<(), PluginError>) {
        Plugin::execute(self, context)
    }

    fn as_any<'b>(&'b self) -> Capability<'b> {
        Capability::of(self)
    }

    fn load(&self) {
    }
}

/// One named slot of an [`InventoryPlugins`] collection.
pub struct InventoryEntry<P> {
    /// The name the plugin was added under.
    pub name: String,
    /// The plugin held in the slot.
    pub plugin: P,
}

/// A plugin that owns a collection of inventory plugins, keyed by the name
/// each was added under, and executes them in turn.  Generic over the held
/// handle type `P`; a host holding arbitrary loaded plugins instantiates it
/// with `Box<dyn PluginInventory>`.
pub struct InventoryPlugins<P> {
    /// The held plugins.  Names are unique; [`InventoryPlugins::wf`] states
    /// the invariant.
    pub plugins: Vec<InventoryEntry<P>>,
}

impl<P: PluginInventory> InventoryPlugins<P> {
    /// The names of the held plugins, in insertion order.
    pub open spec fn spec_names(&self) -> Seq<Seq<char>> {
        self.plugins@.map_values(|e: InventoryEntry<P>| e.name@)
    }

    /// Whether a plugin was added under `name`.
    pub open spec fn spec_contains(&self, name: Seq<char>) -> bool {
        exists|i: int| 0 <= i < self.plugins@.len() && self.plugins@[i].name@ == name
    }

    /// The collection's invariant: names are unique.
    pub open spec fn wf(&self) -> bool {
        forall|i: int, j: int|
            0 <= i < j < self.plugins@.len() ==> self.plugins@[i].name@ != self.plugins@[j].name@
    }

    /// An empty collection.
    pub fn new() -> (r: InventoryPlugins<P>)
        ensures
            r.plugins@.len() == 0,
            r.wf(),
    {
        InventoryPlugins { plugins: Vec::new() }
    }

    /// Adds a plugin under `name`.  A name may be used only once; adding
    /// under a present name is a configuration defect the caller rules out.
    pub fn add_plugin(&mut self, name: String, plugin: P)
        requires
            old(self).wf(),
            !old(self).spec_contains(name@),
        ensures
            final(self).wf(),
            final(self).plugins@.len() == old(self).plugins@.len() + 1,
            forall|i: int|
                0 <= i < old(self).plugins@.len() ==> final(self).plugins@[i] == old(self).plugins@[i],
            final(self).plugins@.last().name@ == name@,
            final(self).plugins@.last().plugin == plugin,
    {
        self.plugins.push(InventoryEntry { name, plugin });
        proof {
            assert forall|i: int, j: int|
                0 <= i < j < self.plugins@.len() implies self.plugins@[i].name@
                != self.plugins@[j].name@ by {
                if j < old(self).plugins@.len() {
                    assert(self.plugins@[i] == old(self).plugins@[i]);
                    assert(self.plugins@[j] == old(self).plugins@[j]);
                } else {
                    assert(self.plugins@[i] == old(self).plugins@[i]);
                    assert(!old(self).spec_contains(self.plugins@[j].name@));
                }
            }
        }
    }

    /// The plugin added under `name`, if any.
    pub fn get_plugin(&self, name: &str) -> (r: Option<&P>)
        ensures
            r is Some <==> self.spec_contains(name@),
            r matches Some(p) ==> exists|i: int|
                0 <= i < self.plugins@.len() && self.plugins@[i].name@ == name@ && *p
                    == self.plugins@[i].plugin,
    {
        let key: String = name.to_owned();
        let mut i: usize = 0;
        while i < self.plugins.len()
            invariant
                i <= self.plugins@.len(),
                key@ == name@,
                forall|j: int| 0 <= j < i ==> self.plugins@[j].name@ != name@,
            decreases self.plugins@.len() - i,
        {
            if self.plugins[i].name == key {
                return Some(&self.plugins[i].plugin);
            }
            i = i + 1;
        }
        None
    }

    /// The names of the held plugins, in insertion order.
    pub fn get_plugin_names(&self) -> (r: Vec<String>)
        ensures
            r@.len() == self.plugins@.len(),
            forall|i: int| 0 <= i < r@.len() ==> r@[i]@ == self.plugins@[i].name@,
    {
        let mut names: Vec<String> = Vec::new();
        let mut i: usize = 0;
        while i < self.plugins.len()
            invariant
                i <= self.plugins@.len(),
                names@.len() == i,
                forall|j: int| 0 <= j < i ==> names@[j]@ == self.plugins@[j].name@,
            decreases self.plugins@.len() - i,
        {
            names.push(self.plugins[i].name.clone());
            i = i + 1;
        }
        names
    }
}

impl<P: PluginInventory + 'static> Plugin for InventoryPlugins<P> {
    open spec fn spec_name(&self) -> Seq<char> {
        "Inventory Plugins"@
    }

    fn name(&self) -> (r: String) {
        "Inventory Plugins".to_owned()
    }

    fn execute(&self, context: &Capability<'_>) -> (r: Result<(), PluginError>) {
        let mut i: usize = 0;
        while i < self.plugins.len()
            invariant
                i <= self.plugins@.len(),
            decreases self.plugins@.len() - i,
        {
            let outcome = self.plugins[i].plugin.execute(context);
            if let Err(e) = outcome {
                return Err(e);
            }
            i = i + 1;
        }
        Ok(())
    }

    fn as_any<'b>(&'b self) -> Capability<'b> {
        Capability::of(self)
    }
}

impl<P: PluginInventory + 'static> PluginInventory for InventoryPlugins<P> {
    open spec fn spec_name(&self) -> Seq<char> {
        "Inventory Plugins"@
    }

    fn name(&self) -> (r: String) {
        "Inventory Plugins".to_owned()
    }

    fn execute(&self, context: &Capability<'_>) -> (r: Result<(), PluginError>) {
        Plugin::execute(self, context)
    }

    fn as_any<'b>(&'b self) -> Capability<'b> {
        Capability::of(self)
    }

    fn load(&self) {
    }
}

} // verus!
