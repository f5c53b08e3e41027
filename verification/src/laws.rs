//! Laws of the registry and of activation.
//!
//! These proof functions state, over the same specification values the
//! executable contracts use, the properties the library promises as a
//! whole: what lookup misses, what uniqueness means, what a manifest's
//! shape dictates about group tags, and when registration must be refused.

use vstd::prelude::*;

use crate::activation::Activation;
use crate::manifest::PluginEntry;
use crate::manifest::entry_instructions;
use crate::manifest::group_instructions;
use crate::manifest::manifest_instructions;
use crate::plugin::Plugin;
use crate::registry::PluginManager;

verus! {

/// Deregistration is observable: a registry that does not contain an
/// identifier — as [`PluginManager::deregister_plugin`] leaves it — yields
/// nothing for that identifier on lookup, and deregistering it again
/// returns nothing without error.
pub proof fn lemma_absent_identifier_not_found<P: Plugin>(m: PluginManager<P>, name: Seq<char>)
    requires
        !m.spec_contains(name),
    ensures
        m.spec_get(name) is None,
{
}

/// In a well-formed registry the plugins' self-reported identities are
/// pairwise distinct: each identity owns exactly one slot.
pub proof fn lemma_identities_unique<P: Plugin>(m: PluginManager<P>, i: int, j: int)
    requires
        m.wf(),
        0 <= i < j < m.plugins@.len(),
    ensures
        m.plugins@[i].info.plugin.spec_name() != m.plugins@[j].info.plugin.spec_name(),
{
    assert(m.plugins@[i].info.plugin.spec_name() == m.plugins@[i].name@);
    assert(m.plugins@[j].info.plugin.spec_name() == m.plugins@[j].name@);
}

/// What draining returns is a set of the registry's size: the identifier
/// list that [`PluginManager::deregister_all_plugins`] hands back — one
/// identifier per slot, in slot order — holds no identifier twice.
pub proof fn lemma_drained_names_distinct<P: Plugin>(m: PluginManager<P>, names: Seq<String>)
    requires
        m.wf(),
        names.len() == m.plugins@.len(),
        forall|i: int| 0 <= i < names.len() ==> names[i]@ == m.plugins@[i].name@,
    ensures
        forall|i: int, j: int| 0 <= i < j < names.len() ==> names[i]@ != names[j]@,
{
}

/// A batch that holds the same identity twice can never be registered,
/// whatever groups are involved: registration of it is refused as a
/// duplicate identity.
pub proof fn lemma_duplicate_in_batch_refused<P: Plugin>(
    m: PluginManager<P>,
    names: Seq<Seq<char>>,
    i: int,
    j: int,
)
    requires
        0 <= i < j < names.len(),
        names[i] == names[j],
    ensures
        !m.can_register_all(names),
{
}

/// An identity already present in the registry can never be registered
/// again, whatever group either registration used: a batch that carries it
/// is refused as a duplicate identity.  Activating the same plugin set
/// twice into one registry is therefore fatal.
pub proof fn lemma_present_identity_refused<P: Plugin>(
    m: PluginManager<P>,
    names: Seq<Seq<char>>,
    i: int,
)
    requires
        0 <= i < names.len(),
        m.spec_contains(names[i]),
    ensures
        !m.can_register_all(names),
{
}

/// A manifest of individual entries alone resolves to a plan in which no
/// step carries a group tag.
pub proof fn lemma_individual_manifest_plan(entries: Seq<(String, PluginEntry)>)
    requires
        forall|i: int| 0 <= i < entries.len() ==> entries[i].1 is Individual,
    ensures
        forall|k: int|
            0 <= k < manifest_instructions(entries).len() ==> (#[trigger] manifest_instructions(
                entries,
            )[k]).0 is None,
    decreases entries.len(),
{
    if entries.len() > 0 {
        let head = entries.drop_last();
        assert(forall|i: int| 0 <= i < head.len() ==> head[i] == entries[i]);
        lemma_individual_manifest_plan(head);
        let tail = entry_instructions(entries.last().0@, entries.last().1);
        assert(tail.len() == 1);
        assert(tail[0].0 is None);
        assert forall|k: int|
            0 <= k < manifest_instructions(entries).len() implies (#[trigger] manifest_instructions(
            entries,
        )[k]).0 is None by {
            if k < manifest_instructions(head).len() {
                assert(manifest_instructions(entries)[k] == manifest_instructions(head)[k]);
            } else {
                assert(manifest_instructions(entries)[k] == tail[k - manifest_instructions(
                    head,
                ).len()]);
            }
        }
    }
}

/// A group entry under `key` resolves to one load step per sub-path, in
/// order, every one tagged with the group `key` — whatever the sub-names
/// say.
pub proof fn lemma_group_entry_plan(key: Seq<char>, subs: Seq<(String, String)>)
    ensures
        group_instructions(key, subs).len() == subs.len(),
        forall|k: int|
            0 <= k < subs.len() ==> #[trigger] group_instructions(key, subs)[k] == (
                Some(key),
                subs[k].1@,
            ),
    decreases subs.len(),
{
    if subs.len() > 0 {
        lemma_group_entry_plan(key, subs.drop_last());
        assert(forall|k: int|
            0 <= k < subs.len() - 1 ==> #[trigger] subs.drop_last()[k] == subs[k]);
    }
}

/// Activation never invents a group: on a plan in which no step carries a
/// group tag — as an individual-only manifest resolves to — every plugin
/// registered since the start is ungrouped.
pub proof fn lemma_ungrouped_plan_ungrouped_registry<P: Plugin>(a: Activation<P>)
    requires
        a.wf(),
        forall|k: int| 0 <= k < a.plan@.len() ==> (#[trigger] a.plan@[k]).group is None,
    ensures
        forall|i: int|
            a.initial@.len() <= i && i < a.registry.plugins@.len()
                ==> (#[trigger] a.registry.plugins@[i]).info.group is None,
{
    assert forall|i: int|
        a.initial@.len() <= i && i < a.registry.plugins@.len()
            implies (#[trigger] a.registry.plugins@[i]).info.group is None by {
        let k = choose|k: int|
            0 <= k < a.steps_touched() && a.registry.plugins@[i].info.group == a.plan@[k].group;
        assert(a.plan@[k].group is None);
    }
}

/// Registration is deterministic: two registries filled from scratch with
/// plugins that report the same identities, in the same order, end up with
/// the same identifier lists.
pub proof fn lemma_same_batch_same_identifiers<P: Plugin>(
    first: PluginManager<P>,
    second: PluginManager<P>,
    names: Seq<Seq<char>>,
)
    requires
        first.plugins@.len() == names.len(),
        second.plugins@.len() == names.len(),
        forall|k: int| 0 <= k < names.len() ==> (#[trigger] first.plugins@[k]).name@ == names[k],
        forall|k: int| 0 <= k < names.len() ==> (#[trigger] second.plugins@[k]).name@ == names[k],
    ensures
        first.spec_names() =~= second.spec_names(),
{
}

} // verus!
