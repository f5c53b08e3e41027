//! The capability contract.
//!
//! Every plugin implements [`Plugin`]: it reports a stable identity, executes
//! against an opaque context, and hands out a [`Capability`] view through
//! which a caller may narrow it to its concrete type.  The contract is kept
//! minimal on purpose: richer behaviour is reached by narrowing, not by
//! widening the trait, so the trait never changes when one plugin's needs
//! grow.

use vstd::prelude::*;

use crate::errors::PluginError;

verus! {

/// A type-erased view of a value, used for capability narrowing and for the
/// opaque execution context.  The value behind it has any shape the two ends
/// of the agreement choose; the library only carries it through.
#[verifier::external_body]
pub struct Capability<'a> {
    inner: &'a dyn core::any::Any,
}

impl<'a> Capability<'a> {
    /// Erases the concrete type of a reference.  The body is only the
    /// unsizing coercion to `&dyn core::any::Any`; nothing can be stated of
    /// the resulting view, so the function carries no contract.
    #[verifier::external_body]
    pub fn of<T: 'static>(t: &'a T) -> Capability<'a> {
        Capability { inner: t }
    }

    /// Relies on `core::any::Any::downcast_ref`: yields the reference back
    /// at its concrete type when that type is the one erased by
    /// [`Capability::of`], and nothing otherwise.  Which of the two happens
    /// is a fact about types that no contract here can speak of; callers
    /// state what holds of either outcome.
    #[verifier::external_body]
    pub fn narrow<P: 'static>(&self) -> (r: Option<&'a P>) {
        self.inner.downcast_ref::<P>()
    }
}

/// The contract every plugin implements.
///
/// Instances must be safe to share and execute across threads, hence the
/// `Send + Sync` bounds.  Registry mutation stays single-threaded; that
/// discipline is the caller's burden and is documented, not enforced.
pub trait Plugin: Send + Sync {
    /// The identity of the plugin as specification value.  The registry
    /// keys by it.
    spec fn spec_name(&self) -> Seq<char>;

    /// The self-reported identity of the plugin; stable, and used as the
    /// registry key.
    fn name(&self) -> (r: String)
        ensures
            r@ == self.spec_name(),
    ;

    /// Runs the plugin once against an opaque, caller-supplied context.
    /// A failure is always the plugin's own: it surfaces as
    /// [`PluginError::Execution`], never as any other variant.
    fn execute(&self, context: &Capability<'_>) -> (r: Result<(), PluginError>)
        ensures
            r is Ok || (r matches Err(e) && e matches PluginError::Execution(_)),
    ;

    /// A view of the plugin through which callers narrow it to its concrete
    /// type, for access to methods outside this contract.
    fn as_any<'b>(&'b self) -> Capability<'b>;
}

/// The contract of a plugin that also manages an inventory of its own.
///
/// It demands everything [`Plugin`] demands — the members are repeated here
/// so that the trait stands on its own behind a `dyn` pointer — plus a
/// [`PluginInventory::load`] hook.
pub trait PluginInventory: Send + Sync {
    /// The identity of the plugin as specification value.
    spec fn spec_name(&self) -> Seq<char>;

    /// The self-reported identity of the plugin.
    fn name(&self) -> (r: String)
        ensures
            r@ == self.spec_name(),
    ;

    /// Runs the plugin once against an opaque context; a failure is always
    /// reported as [`PluginError::Execution`].
    fn execute(&self, context: &Capability<'_>) -> (r: Result<(), PluginError>)
        ensures
            r is Ok || (r matches Err(e) && e matches PluginError::Execution(_)),
    ;

    /// A view for capability narrowing.
    fn as_any<'b>(&'b self) -> Capability<'b>;

    /// Brings the plugin's inventory into memory.
    fn load(&self);
}

/// A plugin instance of either kind, under one type.
pub enum Plugins {
    /// A plugin that only implements the base contract.
    Base(Box<dyn Plugin>),
    /// A plugin that manages an inventory.
    Inventory(Box<dyn PluginInventory>),
}

impl Plugins {
    /// The identity of the held plugin as specification value.
    pub open spec fn spec_name(&self) -> Seq<char> {
        match self {
            Plugins::Base(base) => base.spec_name(),
            Plugins::Inventory(inventory) => inventory.spec_name(),
        }
    }

    /// The self-reported identity of the held plugin.
    pub fn name(&self) -> (r: String)
        ensures
            r@ == self.spec_name(),
    {
        match self {
            Plugins::Base(base) => base.name(),
            Plugins::Inventory(inventory) => inventory.name(),
        }
    }

    /// The name of the kind of the held plugin.
    pub fn group_name(&self) -> (r: String)
        ensures
            self is Base ==> r@ == "Base"@,
            self is Inventory ==> r@ == "Inventory"@,
    {
        match self {
            Plugins::Base(_) => "Base".to_owned(),
            Plugins::Inventory(_) => "Inventory".to_owned(),
        }
    }
}

impl Plugin for Box<dyn Plugin> {
    open spec fn spec_name(&self) -> Seq<char> {
        (**self).spec_name()
    }

    fn name(&self) -> (r: String) {
        (**self).name()
    }

    fn execute(&self, context: &Capability<'_>) -> (r: Result<(), PluginError>) {
        (**self).execute(context)
    }

    fn as_any<'b>(&'b self) -> Capability<'b> {
        (**self).as_any()
    }
}

impl PluginInventory for Box<dyn PluginInventory> {
    open spec fn spec_name(&self) -> Seq<char> {
        (**self).spec_name()
    }

    fn name(&self) -> (r: String) {
        (**self).name()
    }

    fn execute(&self, context: &Capability<'_>) -> (r: Result<(), PluginError>) {
        (**self).execute(context)
    }

    fn as_any<'b>(&'b self) -> Capability<'b> {
        (**self).as_any()
    }

    fn load(&self) {
        (**self).load()
    }
}

} // verus!
