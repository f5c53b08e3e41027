//! The activation protocol.
//!
//! Activation brings a configured plugin set into a running registry.  The
//! manifest is resolved into an ordered load plan; then, for each step, the
//! file is checked for existence and — only after the check succeeded — the
//! module is loaded and every plugin it produced is registered under the
//! step's group tag.  A missing file, a loader fault, a missing entry
//! symbol or a duplicate identity aborts the whole activation; there is no
//! partial success and no retry.
//!
//! Opening a module and calling its entry symbol is work this library
//! cannot do itself: the call crosses an ABI boundary on trust.  The
//! protocol is therefore a step machine.  [`Activation::next_action`] tells
//! the host what to do next — check a file, load a module — and the host
//! reports what happened through [`Activation::advance`].  Every decision,
//! and the whole bookkeeping of the registry, stays here and is verified;
//! the host contributes only the two effects.  A loaded module must stay
//! mapped for the life of the process, since plugins produced by it may
//! still be executed: hosts leak the module handle deliberately and never
//! unload it.

use vstd::prelude::*;

use crate::errors::PluginError;
use crate::manifest::Instruction;
use crate::manifest::Metadata;
use crate::manifest::append_instructions;
use crate::manifest::manifest_instructions;
use crate::manifest::instructions_view;
use crate::plugin::Plugin;
use crate::registry::PluginManager;
use crate::registry::RegistryEntry;

verus! {

/// What the host must do next to carry activation forward.
pub enum LoaderAction {
    /// Ask the filesystem whether the file at the path exists.
    CheckFile(String),
    /// Open the module at the path, resolve its entry symbol, call it, and
    /// keep the module mapped for the process lifetime.
    LoadModule(String),
}

/// What happened when the host carried out the last action.
pub enum LoaderEvent<P> {
    /// The outcome of a file check.
    FileExists(bool),
    /// The module was loaded and its entry symbol produced these plugins.
    ModuleLoaded(Vec<P>),
    /// The native loader rejected the module; carries its message.
    LoadFailed(String),
    /// The module lacks the entry symbol; carries the loader's message.
    SymbolMissing(String),
}

/// Where an activation stands.
pub enum ActivationPhase {
    /// The current step's file has not been checked yet; when all steps are
    /// done, the activation rests here with the cursor past the plan.
    Pending,
    /// The current step's file exists; the module may be loaded.
    Cleared,
    /// Activation aborted with this error.
    Failed(PluginError),
}

/// An activation in progress: the load plan, the step the cursor stands
/// on, the phase within that step, and the registry being filled.
pub struct Activation<P> {
    /// The resolved load plan, in order.
    pub plan: Vec<Instruction>,
    /// The plan position the activation stands on.
    pub cursor: usize,
    /// Where the activation stands within the current step.
    pub phase: ActivationPhase,
    /// The registry being filled.
    pub registry: PluginManager<P>,
    /// The registry slots that were present when activation started.
    pub initial: Ghost<Seq<RegistryEntry<P>>>,
}

impl<P: Plugin> Activation<P> {
    /// Whether the activation has ended: it failed, or every step of the
    /// plan is done.
    pub open spec fn spec_done(&self) -> bool {
        self.phase is Failed || (self.phase is Pending && self.cursor == self.plan@.len())
    }

    /// How many plan steps the activation has touched: every step before
    /// the cursor, and — when it failed mid-step — the step it failed on.
    pub open spec fn steps_touched(&self) -> int {
        if self.phase is Failed {
            self.cursor + 1
        } else {
            self.cursor as int
        }
    }

    /// The machine's invariant: the registry is well formed, the cursor
    /// stays on the plan, the slots present at the start are untouched,
    /// and every slot added since carries the group tag of a step the
    /// activation has touched.
    pub open spec fn wf(&self) -> bool {
        &&& self.registry.wf()
        &&& self.cursor <= self.plan@.len()
        &&& self.phase is Cleared ==> self.cursor < self.plan@.len()
        &&& self.phase is Failed ==> self.cursor < self.plan@.len()
        &&& self.initial@.len() <= self.registry.plugins@.len()
        &&& forall|i: int|
            0 <= i < self.initial@.len() ==> #[trigger] self.registry.plugins@[i]
                == self.initial@[i]
        &&& forall|i: int|
            self.initial@.len() <= i && i < self.registry.plugins@.len() ==> exists|k: int|
                0 <= k < self.steps_touched() && (#[trigger] self.registry.plugins@[i]).info.group
                    == self.plan@[k].group
    }

    /// Starts an activation: resolves the manifest, together with the
    /// entries queued by [`PluginManager::with_path`], into the load plan.
    /// A manifest without a plugin section fails with
    /// [`PluginError::ManifestMissing`].
    pub fn start(manager: PluginManager<P>, metadata: Metadata) -> (r: Result<
        Activation<P>,
        PluginError,
    >)
        requires
            manager.wf(),
        ensures
            metadata.plugins is None <==> (r matches Err(e) && e matches
                PluginError::ManifestMissing),
            metadata.plugins matches Some(entries) ==> (r matches Ok(a) && {
                &&& a.wf()
                &&& a.cursor == 0
                &&& a.phase is Pending
                &&& a.registry == manager
                &&& a.initial@ == manager.plugins@
                &&& instructions_view(a.plan@) == manifest_instructions(entries@)
                    + manifest_instructions(manager.plugin_path@)
            }),
    {
        match &metadata.plugins {
            None => Err(PluginError::ManifestMissing),
            Some(entries) => {
                let mut plan: Vec<Instruction> = Vec::new();
                append_instructions(&mut plan, entries);
                append_instructions(&mut plan, &manager.plugin_path);
                let ghost snapshot: Seq<RegistryEntry<P>> = manager.plugins@;
                Ok(
                    Activation {
                        plan,
                        cursor: 0,
                        phase: ActivationPhase::Pending,
                        registry: manager,
                        initial: Ghost(snapshot),
                    },
                )
            },
        }
    }

    /// What the host must do next; `None` once the activation has ended.
    /// A module load is only ever asked for after the host reported that
    /// the file exists.
    pub fn next_action(&self) -> (r: Option<LoaderAction>)
        requires
            self.wf(),
        ensures
            self.phase is Pending && self.cursor < self.plan@.len() ==> (r matches Some(a) && a
                matches LoaderAction::CheckFile(p) && p@ == self.plan@[self.cursor as int].path@),
            self.phase is Cleared ==> (r matches Some(a) && a matches LoaderAction::LoadModule(p)
                && p@ == self.plan@[self.cursor as int].path@),
            r is None <==> self.spec_done(),
    {
        match &self.phase {
            ActivationPhase::Pending => {
                if self.cursor < self.plan.len() {
                    Some(LoaderAction::CheckFile(self.plan[self.cursor].path.clone()))
                } else {
                    None
                }
            },
            ActivationPhase::Cleared => {
                Some(LoaderAction::LoadModule(self.plan[self.cursor].path.clone()))
            },
            ActivationPhase::Failed(_) => None,
        }
    }

    /// Carries the outcome of the last action into the machine.  A missing
    /// file aborts with [`PluginError::FileNotFound`] before any load is
    /// asked for; a loader fault or missing symbol aborts with
    /// [`PluginError::LoadError`] or [`PluginError::SymbolNotFound`]; a
    /// duplicate identity among the produced plugins aborts with
    /// [`PluginError::DuplicateIdentity`].  An event that does not answer
    /// the pending action changes nothing.
    pub fn advance(&mut self, event: LoaderEvent<P>)
        requires
            old(self).wf(),
        ensures
            final(self).wf(),
            final(self).plan == old(self).plan,
            final(self).initial == old(self).initial,
            old(self).phase is Pending && old(self).cursor < old(self).plan@.len() ==> match event {
                LoaderEvent::FileExists(true) => {
                    &&& final(self).phase is Cleared
                    &&& final(self).cursor == old(self).cursor
                    &&& final(self).registry == old(self).registry
                },
                LoaderEvent::FileExists(false) => {
                    &&& final(self).phase matches ActivationPhase::Failed(e)
                    &&& e matches PluginError::FileNotFound(p)
                    &&& p@ == old(self).plan@[old(self).cursor as int].path@
                    &&& final(self).registry == old(self).registry
                },
                _ => *final(self) == *old(self),
            },
            old(self).phase is Pending && old(self).cursor == old(self).plan@.len() ==> *final(self) == *old(self),
            old(self).phase is Failed ==> *final(self) == *old(self),
            old(self).phase is Cleared ==> match event {
                LoaderEvent::ModuleLoaded(batch) => {
                    &&& old(self).registry.can_register_all(
                        batch@.map_values(|p: P| p.spec_name()),
                    ) ==> {
                        &&& final(self).phase is Pending
                        &&& final(self).cursor == old(self).cursor + 1
                        &&& final(self).registry.plugins@.len() == old(self).registry.plugins@.len() + batch@.len()
                        &&& forall|k: int|
                            0 <= k < batch@.len() ==> {
                                &&& (#[trigger] final(self).registry.plugins@[old(self).registry.plugins@.len() + k]).name@ == batch@[k].spec_name()
                                &&& final(self).registry.plugins@[old(self).registry.plugins@.len() + k].info.plugin == batch@[k]
                                &&& final(self).registry.plugins@[old(self).registry.plugins@.len() + k].info.group == old(self).plan@[old(self).cursor as int].group
                            }
                    }
                    &&& !old(self).registry.can_register_all(
                        batch@.map_values(|p: P| p.spec_name()),
                    ) ==> {
                        &&& final(self).phase matches ActivationPhase::Failed(e)
                        &&& e matches PluginError::DuplicateIdentity(n)
                        &&& exists|k: int|
                            0 <= k < batch@.len() && n@ == #[trigger] batch@[k].spec_name()
                    }
                    &&& forall|i: int|
                        0 <= i < old(self).registry.plugins@.len() ==> #[trigger] final(self).registry.plugins@[i] == old(self).registry.plugins@[i]
                },
                LoaderEvent::LoadFailed(m) => {
                    &&& final(self).phase matches ActivationPhase::Failed(e)
                    &&& e matches PluginError::LoadError(s)
                    &&& s@ == m@
                    &&& final(self).registry == old(self).registry
                },
                LoaderEvent::SymbolMissing(m) => {
                    &&& final(self).phase matches ActivationPhase::Failed(e)
                    &&& e matches PluginError::SymbolNotFound(s)
                    &&& s@ == m@
                    &&& final(self).registry == old(self).registry
                },
                LoaderEvent::FileExists(_) => *final(self) == *old(self),
            },
    {
        let done: bool = match &self.phase {
            ActivationPhase::Pending => self.cursor >= self.plan.len(),
            ActivationPhase::Cleared => false,
            ActivationPhase::Failed(_) => true,
        };
        if done {
            return ;
        }
        let cleared: bool = match &self.phase {
            ActivationPhase::Cleared => true,
            _ => false,
        };
        if !cleared {
            match event {
                LoaderEvent::FileExists(true) => {
                    self.phase = ActivationPhase::Cleared;
                },
                LoaderEvent::FileExists(false) => {
                    let path = self.plan[self.cursor].path.clone();
                    self.phase = ActivationPhase::Failed(PluginError::FileNotFound(path));
                },
                _ => {},
            }
            return ;
        }
        match event {
            LoaderEvent::ModuleLoaded(batch) => {
                let group: Option<String> = match &self.plan[self.cursor].group {
                    Some(g) => Some(g.clone()),
                    None => None,
                };
                let bound: usize = self.plan.len();
                let ghost before: Seq<RegistryEntry<P>> = self.registry.plugins@;
                let outcome = self.registry.register_plugins_vec(batch, group);
                proof {
                    assert(group == old(self).plan@[old(self).cursor as int].group);
                    assert forall|i: int|
                        self.initial@.len() <= i && i < before.len() implies exists|k: int|
                        0 <= k <= old(self).cursor && (#[trigger] self.registry.plugins@[i]).info.group
                            == self.plan@[k].group by {
                        assert(old(self).registry.plugins@[i] == before[i]);
                        assert(self.registry.plugins@[i] == before[i]);
                        let k = choose|k: int|
                            0 <= k < old(self).cursor && (old(self).registry.plugins@[i]).info.group
                                == old(self).plan@[k].group;
                        assert(0 <= k <= old(self).cursor && self.registry.plugins@[i].info.group
                            == self.plan@[k].group);
                    }
                    assert forall|i: int|
                        before.len() <= i && i < self.registry.plugins@.len()
                            implies (#[trigger] self.registry.plugins@[i]).info.group == self.plan@[
                        old(self).cursor as int].group by {}
                }
                match outcome {
                    Ok(()) => {
                        self.cursor = self.cursor + 1;
                        self.phase = ActivationPhase::Pending;
                    },
                    Err(e) => {
                        self.phase = ActivationPhase::Failed(e);
                    },
                }
                proof {
                    assert(self.registry.wf());
                    assert(self.cursor <= self.plan@.len());
                    assert(self.initial@.len() <= self.registry.plugins@.len());
                    assert(forall|i: int|
                        0 <= i < self.initial@.len() ==> #[trigger] self.registry.plugins@[i]
                            == self.initial@[i]);
                    assert forall|i: int|
                        self.initial@.len() <= i && i < self.registry.plugins@.len()
                            implies exists|k: int|
                        0 <= k < self.steps_touched() && (#[trigger] self.registry.plugins@[i]).info.group
                            == self.plan@[k].group by {
                        if i < before.len() {
                            let k = choose|k: int|
                                0 <= k <= old(self).cursor && (self.registry.plugins@[i]).info.group
                                    == self.plan@[k].group;
                            assert(0 <= k < self.steps_touched());
                        } else {
                            let k = old(self).cursor as int;
                            assert(0 <= k < self.steps_touched());
                            assert(self.registry.plugins@[i].info.group == self.plan@[k].group);
                        }
                    }
                }
            },
            LoaderEvent::LoadFailed(m) => {
                self.phase = ActivationPhase::Failed(PluginError::LoadError(m));
            },
            LoaderEvent::SymbolMissing(m) => {
                self.phase = ActivationPhase::Failed(PluginError::SymbolNotFound(m));
            },
            LoaderEvent::FileExists(_) => {},
        }
    }

    /// Whether the activation has ended, in failure or with the plan done.
    pub fn is_done(&self) -> (r: bool)
        requires
            self.wf(),
        ensures
            r == self.spec_done(),
    {
        match &self.phase {
            ActivationPhase::Pending => self.cursor >= self.plan.len(),
            ActivationPhase::Cleared => false,
            ActivationPhase::Failed(_) => true,
        }
    }

    /// Ends the activation: the filled registry when every step succeeded,
    /// the aborting error otherwise.  Callers check with
    /// [`Activation::is_done`] first; a registry with steps still pending
    /// is never handed out.
    pub fn finish(self) -> (r: Result<PluginManager<P>, PluginError>)
        requires
            self.wf(),
            self.spec_done(),
        ensures
            self.phase matches ActivationPhase::Failed(e) ==> (r matches Err(e2) && e2 == e),
            self.phase is Pending ==> (r matches Ok(m) && m == self.registry && m.wf()),
    {
        match self.phase {
            ActivationPhase::Failed(e) => Err(e),
            _ => Ok(self.registry),
        }
    }
}

impl<P: Plugin> PluginManager<P> {
    /// Begins activating the plugin set that `metadata`, together with any
    /// entries queued by [`PluginManager::with_path`], describes.  The
    /// manager is consumed into the returned [`Activation`], which the
    /// host drives to completion; see [`Activation`].
    pub fn activate_plugins(self, metadata: Metadata) -> (r: Result<Activation<P>, PluginError>)
        requires
            self.wf(),
        ensures
            metadata.plugins is None <==> (r matches Err(e) && e matches
                PluginError::ManifestMissing),
            metadata.plugins matches Some(entries) ==> (r matches Ok(a) && {
                &&& a.wf()
                &&& a.cursor == 0
                &&& a.phase is Pending
                &&& a.registry == self
                &&& a.initial@ == self.plugins@
                &&& instructions_view(a.plan@) == manifest_instructions(entries@)
                    + manifest_instructions(self.plugin_path@)
            }),
    {
        Activation::start(self, metadata)
    }
}

} // verus!
