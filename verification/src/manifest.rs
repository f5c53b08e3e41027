//! The manifest model and its resolution into a load plan.
//!
//! A manifest maps a key either to a single module path — an individual
//! plugin — or to a nested mapping of sub-names to paths — a group, tagged
//! with the key.  Resolution flattens the entries, in order, into
//! [`Instruction`] values: the path of a module to load together with the
//! group tag, if any, under which every plugin it produces is registered.
//! A group's sub-names are informational only; the registry keys by each
//! plugin's self-reported identity.

use vstd::prelude::*;

verus! {

/// One manifest entry: a single plugin, or a named group of plugins.
pub enum PluginEntry {
    /// A single module path.
    Individual(String),
    /// Sub-name to module path, in manifest order.  The sub-names carry no
    /// meaning beyond documentation.
    Group(Vec<(String, String)>),
}

/// The plugin configuration carried by a manifest, already shaped: `None`
/// when the manifest holds no plugin section at all.
pub struct Metadata {
    /// Key to entry, in manifest order.
    pub plugins: Option<Vec<(String, PluginEntry)>>,
}

/// One step of a load plan: load the module at `path` and register every
/// plugin it produces under `group`.
pub struct Instruction {
    /// The group tag, `None` for plugins of an individual entry.
    pub group: Option<String>,
    /// The path of the module to load.
    pub path: String,
}

/// The group tag of an optional group, as specification value.
pub open spec fn opt_view(g: Option<String>) -> Option<Seq<char>> {
    match g {
        Some(s) => Some(s@),
        None => None,
    }
}

/// The load steps a group entry under `key` resolves to: one per sub-path,
/// in order, all tagged with `key`.
pub open spec fn group_instructions(key: Seq<char>, subs: Seq<(String, String)>) -> Seq<
    (Option<Seq<char>>, Seq<char>),
>
    decreases subs.len(),
{
    if subs.len() == 0 {
        Seq::empty()
    } else {
        group_instructions(key, subs.drop_last()).push((Some(key), subs.last().1@))
    }
}

/// The load steps one manifest entry resolves to.
pub open spec fn entry_instructions(key: Seq<char>, entry: PluginEntry) -> Seq<
    (Option<Seq<char>>, Seq<char>),
> {
    match entry {
        PluginEntry::Individual(path) => seq![(None::<Seq<char>>, path@)],
        PluginEntry::Group(subs) => group_instructions(key, subs@),
    }
}

/// The load plan a sequence of manifest entries resolves to: the entries'
/// own plans, concatenated in order.
pub open spec fn manifest_instructions(entries: Seq<(String, PluginEntry)>) -> Seq<
    (Option<Seq<char>>, Seq<char>),
>
    decreases entries.len(),
{
    if entries.len() == 0 {
        Seq::empty()
    } else {
        manifest_instructions(entries.drop_last()) + entry_instructions(
            entries.last().0@,
            entries.last().1,
        )
    }
}

/// The abstract value of an executable load plan.
pub open spec fn instructions_view(plan: Seq<Instruction>) -> Seq<
    (Option<Seq<char>>, Seq<char>),
> {
    plan.map_values(|ins: Instruction| (opt_view(ins.group), ins.path@))
}

/// Appends to `plan` the load steps that `entries` describe, in order.
pub fn append_instructions(plan: &mut Vec<Instruction>, entries: &Vec<(String, PluginEntry)>)
    ensures
        instructions_view(final(plan)@) == instructions_view(old(plan)@) + manifest_instructions(
            entries@,
        ),
{
    let ghost initial: Seq<Instruction> = plan@;
    let mut i: usize = 0;
    while i < entries.len()
        invariant
            i <= entries@.len(),
            instructions_view(plan@) == instructions_view(initial) + manifest_instructions(
                entries@.subrange(0, i as int),
            ),
        decreases entries@.len() - i,
    {
        proof {
            assert(entries@.subrange(0, i + 1 as int).drop_last() =~= entries@.subrange(
                0,
                i as int,
            ));
            assert(entries@.subrange(0, i + 1 as int).last() == entries@[i as int]);
        }
        let ghost mid: Seq<Instruction> = plan@;
        match &entries[i].1 {
            PluginEntry::Individual(path) => {
                plan.push(Instruction { group: None, path: path.clone() });
                proof {
                    assert(instructions_view(plan@) =~= instructions_view(mid).push(
                        (None::<Seq<char>>, entries@[i as int].1->Individual_0@),
                    ));
                    assert(instructions_view(mid).push(
                        (None::<Seq<char>>, entries@[i as int].1->Individual_0@),
                    ) =~= instructions_view(mid) + entry_instructions(
                        entries@[i as int].0@,
                        entries@[i as int].1,
                    ));
                }
            },
            PluginEntry::Group(subs) => {
                let key = &entries[i].0;
                let mut k: usize = 0;
                while k < subs.len()
                    invariant
                        k <= subs@.len(),
                        key@ == entries@[i as int].0@,
                        entries@[i as int].1 is Group,
                        subs@ == entries@[i as int].1->Group_0@,
                        instructions_view(plan@) == instructions_view(mid) + group_instructions(
                            key@,
                            subs@.subrange(0, k as int),
                        ),
                    decreases subs@.len() - k,
                {
                    plan.push(
                        Instruction { group: Some(key.clone()), path: subs[k].1.clone() },
                    );
                    proof {
                        assert(subs@.subrange(0, k + 1 as int).drop_last() =~= subs@.subrange(
                            0,
                            k as int,
                        ));
                        assert(subs@.subrange(0, k + 1 as int).last() == subs@[k as int]);
                        assert(instructions_view(plan@) =~= (instructions_view(mid)
                            + group_instructions(key@, subs@.subrange(0, k as int))).push(
                            (Some(key@), subs@[k as int].1@),
                        ));
                        assert((instructions_view(mid) + group_instructions(
                            key@,
                            subs@.subrange(0, k as int),
                        )).push((Some(key@), subs@[k as int].1@)) =~= instructions_view(mid)
                            + group_instructions(key@, subs@.subrange(0, k + 1 as int)));
                    }
                    k = k + 1;
                }
                proof {
                    assert(subs@.subrange(0, subs@.len() as int) =~= subs@);
                }
            },
        }
        i = i + 1;
    }
    proof {
        assert(entries@.subrange(0, entries@.len() as int) =~= entries@);
    }
}

} // verus!
