//! The plugin registry.
//!
//! A [`PluginManager`] owns plugin instances keyed by the identity each one
//! reports for itself, together with the optional group tag given at
//! registration time.  Identities are unique: registering a plugin whose
//! identity is already present is a configuration defect, never a silent
//! overwrite.  The manager is generic over the handle type `P`; a host that
//! loads plugins dynamically instantiates it with `Box<dyn Plugin>`.
//!
//! Mutation is not synchronized internally: callers serialize registration
//! and deregistration themselves, and may share the manager read-only once
//! activation is complete.

use vstd::prelude::*;

use crate::errors::PluginError;
use crate::manifest::PluginEntry;
use crate::plugin::Capability;
use crate::plugin::Plugin;

verus! {

/// A registered plugin together with its group tag.
pub struct PluginInfo<P> {
    /// The plugin instance.
    pub plugin: P,
    /// The group the plugin was registered under, if any.
    pub group: Option<String>,
}

/// One slot of the registry: the identity the plugin reported at
/// registration time, and the plugin with its group.
pub struct RegistryEntry<P> {
    /// The key: what [`Plugin::name`] returned when the plugin was
    /// registered.
    pub name: String,
    /// The plugin and its group tag.
    pub info: PluginInfo<P>,
}

/// The registry of loaded plugins.
pub struct PluginManager<P> {
    /// The registered plugins.  Names are unique and each equals the
    /// identity of its plugin; [`PluginManager::wf`] states the invariant.
    pub plugins: Vec<RegistryEntry<P>>,
    /// Keyed manifest entries queued by [`PluginManager::with_path`],
    /// resolved in addition to the manifest on activation.
    pub plugin_path: Vec<(String, PluginEntry)>,
}

/// The registered [`PluginInfo`] values whose group tag is exactly `group`,
/// in registry order.  An ungrouped plugin never matches.
pub open spec fn group_members<P>(entries: Seq<RegistryEntry<P>>, group: Seq<char>) -> Seq<
    PluginInfo<P>,
>
    decreases entries.len(),
{
    if entries.len() == 0 {
        Seq::empty()
    } else {
        let rest = group_members(entries.drop_last(), group);
        if entries.last().info.group matches Some(g) && g@ == group {
            rest.push(entries.last().info)
        } else {
            rest
        }
    }
}

impl<P: Plugin> PluginManager<P> {
    /// The identities under which plugins are registered, in registry
    /// order.
    pub open spec fn spec_names(&self) -> Seq<Seq<char>> {
        self.plugins@.map_values(|e: RegistryEntry<P>| e.name@)
    }

    /// Whether a plugin is registered under `name`.
    pub open spec fn spec_contains(&self, name: Seq<char>) -> bool {
        exists|i: int| 0 <= i < self.plugins@.len() && self.plugins@[i].name@ == name
    }

    /// The position of the plugin registered under `name`; meaningful only
    /// when one is registered and names are unique.
    pub open spec fn index_of(&self, name: Seq<char>) -> int {
        choose|i: int| 0 <= i < self.plugins@.len() && self.plugins@[i].name@ == name
    }

    /// The plugin registered under `name` with its group, if any.
    pub open spec fn spec_get(&self, name: Seq<char>) -> Option<PluginInfo<P>> {
        if self.spec_contains(name) {
            Some(self.plugins@[self.index_of(name)].info)
        } else {
            None
        }
    }

    /// The registry's invariant: every key is the identity its plugin
    /// reports, and no two slots share a key.
    pub open spec fn wf(&self) -> bool {
        &&& forall|i: int, j: int|
            0 <= i < j < self.plugins@.len() ==> self.plugins@[i].name@
                != self.plugins@[j].name@
        &&& forall|i: int|
            0 <= i < self.plugins@.len() ==> #[trigger] self.plugins@[i].info.plugin.spec_name()
                == self.plugins@[i].name@
    }

    /// Whether every name of `names` is absent from the registry and the
    /// names are pairwise distinct — exactly when registering plugins with
    /// those identities, in order, succeeds.
    pub open spec fn can_register_all(&self, names: Seq<Seq<char>>) -> bool {
        &&& forall|i: int| 0 <= i < names.len() ==> !self.spec_contains(#[trigger] names[i])
        &&& forall|i: int, j: int| 0 <= i < j < names.len() ==> names[i] != names[j]
    }

    /// An empty registry.
    pub fn new() -> (r: PluginManager<P>)
        ensures
            r.plugins@.len() == 0,
            r.plugin_path@.len() == 0,
            r.wf(),
    {
        PluginManager { plugins: Vec::new(), plugin_path: Vec::new() }
    }

    /// The position of the plugin registered under `name`, if any.
    fn find_index(&self, name: &str) -> (r: Option<usize>)
        ensures
            r matches Some(i) ==> i < self.plugins@.len() && self.plugins@[i as int].name@
                == name@,
            r is None ==> !self.spec_contains(name@),
    {
        let key: String = name.to_owned();
        let mut i: usize = 0;
        while i < self.plugins.len()
            invariant
                i <= self.plugins@.len(),
                key@ == name@,
                forall|j: int| 0 <= j < i ==> self.plugins@[j].name@ != name@,
            decreases self.plugins@.len() - i,
        {
            if self.plugins[i].name == key {
                return Some(i);
            }
            i = i + 1;
        }
        None
    }

    /// When names are unique, a slot whose name is `name` stands at
    /// [`PluginManager::index_of`] `name`.
    pub proof fn lemma_index_of(&self, name: Seq<char>, i: int)
        requires
            self.wf(),
            0 <= i < self.plugins@.len(),
            self.plugins@[i].name@ == name,
        ensures
            self.spec_contains(name),
            self.index_of(name) == i,
    {
        let j = self.index_of(name);
        if j != i {
            if j < i {
                assert(self.plugins@[j].name@ != self.plugins@[i].name@);
            } else {
                assert(self.plugins@[i].name@ != self.plugins@[j].name@);
            }
        }
    }

    /// Registers `plugin` under the identity it reports, tagged with
    /// `group`.  A duplicate identity is a configuration defect: callers
    /// rule it out, as the registry would otherwise have to overwrite
    /// silently or fail loudly — see
    /// [`PluginManager::try_register_plugin`] for the checked form that
    /// activation uses.
    pub fn register_plugin(&mut self, plugin: P, group: Option<String>)
        requires
            old(self).wf(),
            !old(self).spec_contains(plugin.spec_name()),
        ensures
            final(self).wf(),
            final(self).plugins@.len() == old(self).plugins@.len() + 1,
            forall|i: int|
                0 <= i < old(self).plugins@.len() ==> final(self).plugins@[i] == old(self).plugins@[i],
            final(self).plugins@.last().name@ == plugin.spec_name(),
            final(self).plugins@.last().info.plugin == plugin,
            final(self).plugins@.last().info.group == group,
            final(self).plugin_path == old(self).plugin_path,
            forall|n: Seq<char>|
                final(self).spec_contains(n) <==> old(self).spec_contains(n) || n
                    == plugin.spec_name(),
    {
        let name = plugin.name();
        self.plugins.push(RegistryEntry { name, info: PluginInfo { plugin, group } });
        proof {
            let prev = old(self).plugins@;
            let now = self.plugins@;
            assert(now.len() == prev.len() + 1);
            assert forall|i: int, j: int| 0 <= i < j < now.len() implies now[i].name@
                != now[j].name@ by {
                if j < prev.len() {
                    assert(now[i] == prev[i]);
                    assert(now[j] == prev[j]);
                } else {
                    assert(now[i] == prev[i]);
                    assert(now[j].name@ == plugin.spec_name());
                    assert(!old(self).spec_contains(plugin.spec_name()));
                }
            }
            assert forall|n: Seq<char>|
                self.spec_contains(n) <==> old(self).spec_contains(n) || n
                    == plugin.spec_name() by {
                if old(self).spec_contains(n) {
                    let w = choose|i: int|
                        0 <= i < prev.len() && prev[i].name@ == n;
                    assert(now[w].name@ == n);
                }
                if self.spec_contains(n) {
                    let w = choose|i: int|
                        0 <= i < now.len() && now[i].name@ == n;
                    if w < prev.len() {
                        assert(prev[w].name@ == n);
                    }
                }
            }
        }
    }

    /// Registers `plugin` under the identity it reports, tagged with
    /// `group`; reports [`PluginError::DuplicateIdentity`] — and changes
    /// nothing — when that identity is already registered.  Hosts treat the
    /// error as fatal.
    pub fn try_register_plugin(&mut self, plugin: P, group: Option<String>) -> (r: Result<
        (),
        PluginError,
    >)
        requires
            old(self).wf(),
        ensures
            final(self).wf(),
            final(self).plugin_path == old(self).plugin_path,
            old(self).spec_contains(plugin.spec_name()) ==> {
                &&& r matches Err(e) && e matches PluginError::DuplicateIdentity(n) && n@
                    == plugin.spec_name()
                &&& *final(self) == *old(self)
            },
            !old(self).spec_contains(plugin.spec_name()) ==> {
                &&& r is Ok
                &&& final(self).plugins@.len() == old(self).plugins@.len() + 1
                &&& forall|i: int|
                    0 <= i < old(self).plugins@.len() ==> final(self).plugins@[i] == old(self).plugins@[i]
                &&& final(self).plugins@.last().name@ == plugin.spec_name()
                &&& final(self).plugins@.last().info.plugin == plugin
                &&& final(self).plugins@.last().info.group == group
            },
    {
        let name = plugin.name();
        match self.find_index(name.as_str()) {
            Some(i) => {
                proof {
                    assert(self.spec_contains(plugin.spec_name()));
                }
                Err(PluginError::DuplicateIdentity(name))
            },
            None => {
                self.register_plugin(plugin, group);
                Ok(())
            },
        }
    }

    /// Deregisters the plugin registered under `name` and returns its
    /// identity; returns `None`, and changes nothing, when no plugin is
    /// registered under `name`.  Idempotent, never fails.
    pub fn deregister_plugin(&mut self, name: &str) -> (r: Option<String>)
        requires
            old(self).wf(),
        ensures
            final(self).wf(),
            final(self).plugin_path == old(self).plugin_path,
            !final(self).spec_contains(name@),
            r is Some <==> old(self).spec_contains(name@),
            r matches Some(s) ==> s@ == name@,
            old(self).spec_contains(name@) ==> final(self).plugins@ == old(self).plugins@.remove(old(self).index_of(name@)),
            !old(self).spec_contains(name@) ==> *final(self) == *old(self),
    {
        match self.find_index(name) {
            None => None,
            Some(i) => {
                proof {
                    old(self).lemma_index_of(name@, i as int);
                }
                let entry = self.plugins.remove(i);
                proof {
                    let prev = old(self).plugins@;
                    let now = self.plugins@;
                    assert(now == prev.remove(i as int));
                    assert forall|k: int| 0 <= k < now.len() implies now[k] == (if k < i {
                        prev[k]
                    } else {
                        prev[k + 1]
                    }) by {}
                    assert forall|k: int| 0 <= k < now.len() implies now[k].name@ != name@ by {
                        if k < i {
                            assert(prev[k].name@ != prev[i as int].name@);
                        } else {
                            assert(prev[i as int].name@ != prev[k + 1].name@);
                        }
                    }
                }
                Some(entry.info.plugin.name())
            },
        }
    }

    /// Deregisters every plugin and returns the identities that were
    /// registered, in registry order.
    pub fn deregister_all_plugins(&mut self) -> (r: Vec<String>)
        ensures
            final(self).wf(),
            final(self).plugins@.len() == 0,
            final(self).plugin_path == old(self).plugin_path,
            r@.len() == old(self).plugins@.len(),
            forall|i: int| 0 <= i < r@.len() ==> r@[i]@ == old(self).plugins@[i].name@,
    {
        let mut names: Vec<String> = Vec::new();
        let mut i: usize = 0;
        while i < self.plugins.len()
            invariant
                self == old(self),
                i <= self.plugins@.len(),
                names@.len() == i,
                forall|j: int| 0 <= j < i ==> names@[j]@ == self.plugins@[j].name@,
            decreases self.plugins@.len() - i,
        {
            names.push(self.plugins[i].name.clone());
            i = i + 1;
        }
        self.plugins.clear();
        names
    }

    /// The plugin registered under `name` with its group, if any.
    pub fn get_plugin(&self, name: &str) -> (r: Option<&PluginInfo<P>>)
        requires
            self.wf(),
        ensures
            r is Some <==> self.spec_contains(name@),
            r matches Some(p) ==> self.spec_get(name@) == Some(*p),
    {
        match self.find_index(name) {
            None => None,
            Some(i) => {
                proof {
                    self.lemma_index_of(name@, i as int);
                }
                Some(&self.plugins[i].info)
            },
        }
    }

    /// Every plugin registered under exactly the group `group`, in registry
    /// order.  Ungrouped plugins never match.
    pub fn get_plugins_by_group(&self, group: &str) -> (r: Vec<&PluginInfo<P>>)
        ensures
            r@.map_values(|p: &PluginInfo<P>| *p) == group_members(self.plugins@, group@),
    {
        let key: String = group.to_owned();
        let mut found: Vec<&PluginInfo<P>> = Vec::new();
        let mut i: usize = 0;
        while i < self.plugins.len()
            invariant
                i <= self.plugins@.len(),
                key@ == group@,
                found@.map_values(|p: &PluginInfo<P>| *p) == group_members(
                    self.plugins@.subrange(0, i as int),
                    group@,
                ),
            decreases self.plugins@.len() - i,
        {
            proof {
                assert(self.plugins@.subrange(0, i + 1 as int).drop_last() =~= self.plugins@.subrange(
                    0,
                    i as int,
                ));
                assert(self.plugins@.subrange(0, i + 1 as int).last() == self.plugins@[i as int]);
            }
            let matched: bool = match &self.plugins[i].info.group {
                Some(g) => *g == key,
                None => false,
            };
            if matched {
                found.push(&self.plugins[i].info);
                proof {
                    assert(found@.map_values(|p: &PluginInfo<P>| *p) =~= group_members(
                        self.plugins@.subrange(0, i + 1 as int),
                        group@,
                    ));
                }
            }
            i = i + 1;
        }
        proof {
            assert(self.plugins@.subrange(0, self.plugins@.len() as int) =~= self.plugins@);
        }
        found
    }

    /// The identities of all registered plugins, in registry order.
    pub fn get_all_plugin_names(&self) -> (r: Vec<&String>)
        ensures
            r@.len() == self.plugins@.len(),
            forall|i: int| 0 <= i < r@.len() ==> r@[i]@ == self.plugins@[i].name@,
    {
        let mut names: Vec<&String> = Vec::new();
        let mut i: usize = 0;
        while i < self.plugins.len()
            invariant
                i <= self.plugins@.len(),
                names@.len() == i,
                forall|j: int| 0 <= j < i ==> names@[j]@ == self.plugins@[j].name@,
            decreases self.plugins@.len() - i,
        {
            names.push(&self.plugins[i].name);
            i = i + 1;
        }
        names
    }

    /// The identities and group tags of all registered plugins, in registry
    /// order.
    pub fn get_all_plugin_names_and_groups(&self) -> (r: Vec<(String, Option<String>)>)
        ensures
            r@.len() == self.plugins@.len(),
            forall|i: int|
                0 <= i < r@.len() ==> r@[i].0@ == self.plugins@[i].name@ && r@[i].1
                    == self.plugins@[i].info.group,
    {
        let mut pairs: Vec<(String, Option<String>)> = Vec::new();
        let mut i: usize = 0;
        while i < self.plugins.len()
            invariant
                i <= self.plugins@.len(),
                pairs@.len() == i,
                forall|j: int|
                    0 <= j < i ==> pairs@[j].0@ == self.plugins@[j].name@ && pairs@[j].1
                        == self.plugins@[j].info.group,
            decreases self.plugins@.len() - i,
        {
            let group: Option<String> = match &self.plugins[i].info.group {
                Some(g) => Some(g.clone()),
                None => None,
            };
            pairs.push((self.plugins[i].name.clone(), group));
            i = i + 1;
        }
        pairs
    }

    /// Looks the plugin up by identity and runs it against `context`.
    /// Fails with [`PluginError::NotFound`] exactly when no plugin is
    /// registered under `name`; any other failure is the plugin's own.
    pub fn execute_plugin<C: 'static>(&self, name: &str, context: &C) -> (r: Result<
        (),
        PluginError,
    >)
        requires
            self.wf(),
        ensures
            !self.spec_contains(name@) <==> (r matches Err(e) && e matches PluginError::NotFound(
                n,
            ) && n@ == name@),
            self.spec_contains(name@) ==> r is Ok || (r matches Err(e) && e
                matches PluginError::Execution(_)),
    {
        match self.find_index(name) {
            None => Err(PluginError::NotFound(name.to_owned())),
            Some(i) => {
                let capability = Capability::of(context);
                self.plugins[i].info.plugin.execute(&capability)
            },
        }
    }

    /// Looks the plugin up by identity and narrows it to its concrete type
    /// `T`.  Fails with [`PluginError::NotFound`] exactly when no plugin is
    /// registered under `name`, and with [`PluginError::TypeMismatch`] when
    /// one is but its concrete type is not `T`.
    pub fn with_any<T: 'static>(&self, name: &str) -> (r: Result<&T, PluginError>)
        requires
            self.wf(),
        ensures
            !self.spec_contains(name@) <==> (r matches Err(e) && e matches PluginError::NotFound(
                n,
            ) && n@ == name@),
            self.spec_contains(name@) ==> r is Ok || (r matches Err(e) && e
                matches PluginError::TypeMismatch(n) && n@ == name@),
    {
        match self.find_index(name) {
            None => Err(PluginError::NotFound(name.to_owned())),
            Some(i) => {
                let capability = self.plugins[i].info.plugin.as_any();
                match capability.narrow::<T>() {
                    Some(concrete) => Ok(concrete),
                    None => Err(PluginError::TypeMismatch(name.to_owned())),
                }
            },
        }
    }

    /// Queues the module at `path` for the next activation, under `group`
    /// when one is given.  Fails with [`PluginError::FileNotFound`] when
    /// nothing exists at `path`; whether it does is the disk's answer at
    /// call time, so the contract speaks of both outcomes.
    pub fn with_path(self, path: &str, group: Option<&str>) -> (r: Result<
        PluginManager<P>,
        PluginError,
    >)
        requires
            self.wf(),
        ensures
            r matches Err(e) ==> (e matches PluginError::FileNotFound(p) && p@ == path@),
            r matches Ok(m) ==> {
                &&& m.wf()
                &&& m.plugins == self.plugins
                &&& m.plugin_path@.len() == self.plugin_path@.len() + 1
                &&& forall|i: int|
                    0 <= i < self.plugin_path@.len() ==> m.plugin_path@[i]
                        == self.plugin_path@[i]
                &&& match group {
                    Some(g) => {
                        &&& m.plugin_path@.last().0@ == g@
                        &&& m.plugin_path@.last().1 matches PluginEntry::Group(subs)
                        &&& subs@.len() == 1
                        &&& subs@[0].1@ == path@
                    },
                    None => {
                        &&& m.plugin_path@.last().0@ == path@
                        &&& m.plugin_path@.last().1 matches PluginEntry::Individual(p2)
                        &&& p2@ == path@
                    },
                }
            },
    {
        if !path_exists(path) {
            return Err(PluginError::FileNotFound(path.to_owned()));
        }
        let mut this = self;
        match group {
            Some(g) => {
                let mut subs: Vec<(String, String)> = Vec::new();
                subs.push((g.to_owned(), path.to_owned()));
                this.plugin_path.push((g.to_owned(), PluginEntry::Group(subs)));
            },
            None => {
                this.plugin_path.push((path.to_owned(), PluginEntry::Individual(path.to_owned())));
            },
        }
        Ok(this)
    }

    /// Registers every plugin of `plugins`, in order, all tagged with
    /// `group`.  Succeeds exactly when the reported identities are fresh
    /// and pairwise distinct; stops at the first duplicate and reports it
    /// as [`PluginError::DuplicateIdentity`].  Plugins registered before a
    /// duplicate stay registered; activation discards the whole registry on
    /// failure.
    #[verifier::loop_isolation(false)]
    pub fn register_plugins_vec(&mut self, plugins: Vec<P>, group: Option<String>) -> (r: Result<
        (),
        PluginError,
    >)
        requires
            old(self).wf(),
        ensures
            final(self).wf(),
            final(self).plugin_path == old(self).plugin_path,
            r is Ok <==> old(self).can_register_all(
                plugins@.map_values(|p: P| p.spec_name()),
            ),
            r matches Err(e) ==> e matches PluginError::DuplicateIdentity(n) && exists|k: int|
                0 <= k < plugins@.len() && n@ == #[trigger] plugins@[k].spec_name(),
            final(self).plugins@.len() >= old(self).plugins@.len(),
            forall|i: int|
                0 <= i < old(self).plugins@.len() ==> final(self).plugins@[i] == old(self).plugins@[i],
            forall|i: int|
                old(self).plugins@.len() <= i && i < final(self).plugins@.len() ==> final(self).plugins@[i].info.group == group,
            r is Ok ==> {
                &&& final(self).plugins@.len() == old(self).plugins@.len() + plugins@.len()
                &&& forall|k: int|
                    0 <= k < plugins@.len() ==> {
                        &&& final(self).plugins@[old(self).plugins@.len() + k].name@
                            == plugins@[k].spec_name()
                        &&& final(self).plugins@[old(self).plugins@.len() + k].info.plugin
                            == plugins@[k]
                    }
            },
    {
        let ghost batch: Seq<P> = plugins@;
        let ghost start: Seq<RegistryEntry<P>> = old(self).plugins@;
        let mut rest = plugins;
        let total: usize = rest.len();
        let mut consumed: usize = 0;
        while rest.len() != 0
            invariant
                self.wf(),
                self.plugin_path == old(self).plugin_path,
                total == batch.len(),
                consumed <= total,
                rest@ == batch.subrange(consumed as int, batch.len() as int),
                start == old(self).plugins@,
                self.plugins@.len() == start.len() + consumed,
                forall|i: int| 0 <= i < start.len() ==> #[trigger] self.plugins@[i] == start[i],
                forall|i: int|
                    start.len() <= i && i < self.plugins@.len() ==> {
                        &&& (#[trigger] self.plugins@[i]).name@ == batch[
                            i - start.len()
                        ].spec_name()
                        &&& self.plugins@[i].info.plugin == batch[i - start.len()]
                        &&& self.plugins@[i].info.group == group
                    },
                old(self).can_register_all(
                    batch.subrange(0, consumed as int).map_values(|p: P| p.spec_name()),
                ),
            decreases rest@.len(),
        {
            let p = rest.remove(0);
            proof {
                assert(p == batch[consumed as int]);
                assert(rest@ =~= batch.subrange(consumed + 1 as int, batch.len() as int));
            }
            let tag: Option<String> = match &group {
                Some(g) => Some(g.clone()),
                None => None,
            };
            let ghost before: Seq<RegistryEntry<P>> = self.plugins@;
            let outcome = self.try_register_plugin(p, tag);
            if let Err(e) = outcome {
                proof {
                    let names = batch.map_values(|p: P| p.spec_name());
                    let k = consumed as int;
                    assert(self.plugins@ == before);
                    assert(self.spec_contains(batch[k].spec_name()));
                    let w = choose|i: int|
                        0 <= i < self.plugins@.len() && self.plugins@[i].name@ == batch[k].spec_name();
                    assert(names[k] == batch[k].spec_name());
                    if old(self).can_register_all(names) {
                        if w < start.len() {
                            assert(self.plugins@[w] == start[w]);
                            assert(old(self).plugins@[w].name@ == batch[k].spec_name());
                            assert(old(self).spec_contains(names[k]));
                            assert(false);
                        } else {
                            let d = w - start.len();
                            assert(self.plugins@[start.len() + d].name@ == batch[d].spec_name());
                            assert(names[d] == batch[d].spec_name());
                            assert(names[d] == names[k]);
                            assert(d < k);
                            assert(names[d] != names[k]);
                            assert(false);
                        }
                    }
                    assert(!old(self).can_register_all(names));
                    assert forall|i: int|
                        start.len() <= i && i < self.plugins@.len() implies self.plugins@[i].info.group
                        == group by {
                        let d = i - start.len();
                        assert(self.plugins@[start.len() + d].info.group == group);
                    }
                }
                return Err(e);
            }
            proof {
                let k = consumed as int;
                assert(tag == group);
                assert(self.plugins@.len() == before.len() + 1);
                assert(self.plugins@[start.len() + k] == self.plugins@.last());
                let prefix = batch.subrange(0, k + 1).map_values(|p: P| p.spec_name());
                let shorter = batch.subrange(0, k).map_values(|p: P| p.spec_name());
                assert forall|i: int| 0 <= i < prefix.len() implies !old(self).spec_contains(
                    #[trigger] prefix[i],
                ) by {
                    assert(prefix[i] == batch[i].spec_name());
                    if i < k {
                        assert(shorter[i] == batch[i].spec_name());
                    } else {
                        if old(self).spec_contains(batch[k].spec_name()) {
                            let w = choose|t: int|
                                0 <= t < start.len() && start[t].name@ == batch[k].spec_name();
                            assert(before[w] == start[w]);
                            assert(false);
                        }
                    }
                }
                assert forall|i: int, j: int| 0 <= i < j < prefix.len() implies prefix[i]
                    != prefix[j] by {
                    assert(prefix[i] == batch[i].spec_name());
                    assert(prefix[j] == batch[j].spec_name());
                    if j < k {
                        assert(shorter[i] == batch[i].spec_name());
                        assert(shorter[j] == batch[j].spec_name());
                    } else {
                        assert(before[start.len() + i].name@ == batch[i].spec_name());
                        if batch[i].spec_name() == batch[k].spec_name() {
                            assert(false);
                        }
                    }
                }
            }
            consumed = consumed + 1;
        }
        proof {
            assert(batch.subrange(0, batch.len() as int) =~= batch);
            assert(batch.subrange(0, consumed as int) =~= batch);
            assert forall|i: int|
                start.len() <= i && i < self.plugins@.len() implies self.plugins@[i].info.group
                == group by {
                let d = i - start.len();
                assert(self.plugins@[start.len() + d].info.group == group);
            }
        }
        Ok(())
    }
}


impl<P: Plugin> Default for PluginManager<P> {
    /// An empty registry, as [`PluginManager::new`] builds it.
    fn default() -> (r: PluginManager<P>)
        ensures
            r.plugins@.len() == 0,
            r.plugin_path@.len() == 0,
            r.wf(),
    {
        PluginManager::new()
    }
}

/// Relies on `std::path::Path::exists`: whether something exists on the
/// filesystem at `path` right now.  The answer depends on the state of the
/// disk, so no contract can pin it; callers state what holds of either
/// answer.
#[verifier::external_body]
fn path_exists(path: &str) -> bool {
    std::path::Path::new(path).exists()
}

} // verus!
