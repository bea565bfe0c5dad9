//! The metadata accumulator: a left-to-right fold of the configuration
//! into one immutable `PluginMetadata` record.
//!
//! Each category list concatenates the declared items in first-seen order;
//! repeated declarations of one category concatenate rather than
//! deduplicate. The scalar version and description are overwritten field
//! by field — a later meta block updates only the fields it gives, so the
//! last-seen value of each field wins. The state-entry and state-exit
//! counts sum the systems over all arms of the respective maps. A
//! by-value resource insertion joins the resource list as the identity
//! record of its expression; entries that carry no metadata (callables,
//! the opt-in map) are skipped.

use vstd::prelude::*;

use crate::config::ConfigEntry;
use crate::config::ConfigEntryV;
use crate::config::Expr;
use crate::config::ExprV;
use crate::config::StateArm;
use crate::config::StateArmV;
use crate::config::expr_type_infos;
use crate::config::spec_expr_type_info;
use crate::deps::dependency_names;
use crate::metadata::PluginMetadata;
use crate::metadata::PluginMetadataV;
use crate::metadata::PluginSystemsV;
use crate::metadata::TypeInfoV;
use crate::metadata::copy_type_list;
use crate::metadata::spec_empty_metadata;

verus! {

/// The display names of an expression list, in order.
pub fn expr_names(es: &Vec<Expr>) -> (r: Vec<String>)
    ensures
        r.deep_view() == es.deep_view().map_values(|x: ExprV| x.name),
{
    let mut out: Vec<String> = Vec::new();
    let mut i: usize = 0;
    while i < es.len()
        invariant
            i <= es.len(),
            out@.len() == i,
            forall|j: int|
                0 <= j < i ==> out.deep_view()[j] == (#[trigger] es.deep_view()[j]).name,
        decreases es.len() - i,
    {
        out.push(es[i].name.clone());
        i = i + 1;
    }
    assert(out.deep_view() =~= es.deep_view().map_values(|x: ExprV| x.name));
    out
}

/// The number of systems over all arms of a state map.
pub open spec fn spec_arm_sum(arms: Seq<StateArmV>) -> nat
    decreases arms.len(),
{
    if arms.len() == 0 {
        0
    } else {
        spec_arm_sum(arms.drop_last()) + arms.last().systems.len()
    }
}

/// A prefix of a state map never counts more systems than the whole.
proof fn lemma_arm_sum_prefix(arms: Seq<StateArmV>, n: int)
    requires
        0 <= n <= arms.len(),
    ensures
        spec_arm_sum(arms.take(n)) <= spec_arm_sum(arms),
    decreases arms.len() - n,
{
    if n < arms.len() {
        assert(arms.take(n + 1).drop_last() =~= arms.take(n));
        lemma_arm_sum_prefix(arms, n + 1);
    } else {
        assert(arms.take(n) =~= arms);
    }
}

/// The number of systems over all arms of a state map.
pub fn arm_systems_count(arms: &Vec<StateArm>) -> (r: usize)
    requires
        spec_arm_sum(arms.deep_view()) <= usize::MAX,
    ensures
        r == spec_arm_sum(arms.deep_view()),
{
    let mut acc: usize = 0;
    let mut i: usize = 0;
    assert(arms.deep_view().take(0) =~= Seq::<StateArmV>::empty());
    while i < arms.len()
        invariant
            i <= arms.len(),
            spec_arm_sum(arms.deep_view()) <= usize::MAX,
            acc == spec_arm_sum(arms.deep_view().take(i as int)),
        decreases arms.len() - i,
    {
        let ghost cur = arms.deep_view().take(i + 1);
        assert(cur.drop_last() =~= arms.deep_view().take(i as int));
        assert(cur.last() == arms.deep_view()[i as int]);
        proof {
            lemma_arm_sum_prefix(arms.deep_view(), i + 1);
        }
        acc = acc + arms[i].systems.len();
        i = i + 1;
    }
    assert(arms.deep_view().take(arms.len() as int) =~= arms.deep_view());
    acc
}

/// The effect of one recognized entry on the accumulated record.
pub open spec fn spec_meta_step(m: PluginMetadataV, e: ConfigEntryV) -> PluginMetadataV {
    match e {
        ConfigEntryV::Meta(mb) => PluginMetadataV {
            version: if mb.version is Some {
                mb.version
            } else {
                m.version
            },
            description: if mb.description is Some {
                mb.description
            } else {
                m.description
            },
            ..m
        },
        ConfigEntryV::DependsOn(ts) => PluginMetadataV {
            dependencies: m.dependencies + ts.map_values(|t: TypeInfoV| t.name),
            ..m
        },
        ConfigEntryV::InitResource(ts) => PluginMetadataV {
            resources: m.resources + ts,
            ..m
        },
        ConfigEntryV::InsertResource(es) => PluginMetadataV {
            resources: m.resources + es.map_values(|x: ExprV| spec_expr_type_info(x)),
            ..m
        },
        ConfigEntryV::AddMessage(ts) => PluginMetadataV { messages: m.messages + ts, ..m },
        ConfigEntryV::AddPlugins(es) => PluginMetadataV {
            sub_plugins: m.sub_plugins + es.map_values(|x: ExprV| x.name),
            ..m
        },
        ConfigEntryV::InitState(ts) => PluginMetadataV { states: m.states + ts, ..m },
        ConfigEntryV::AddSubState(ts) => PluginMetadataV {
            sub_states: m.sub_states + ts,
            ..m
        },
        ConfigEntryV::RegisterType(ts) => PluginMetadataV {
            reflected_types: m.reflected_types + ts,
            ..m
        },
        ConfigEntryV::SystemsStartup(ss) => PluginMetadataV {
            systems: PluginSystemsV {
                startup: m.systems.startup + ss.map_values(|x: ExprV| x.name),
                ..m.systems
            },
            ..m
        },
        ConfigEntryV::SystemsUpdate(ss) => PluginMetadataV {
            systems: PluginSystemsV {
                update: m.systems.update + ss.map_values(|x: ExprV| x.name),
                ..m.systems
            },
            ..m
        },
        ConfigEntryV::SystemsFixedUpdate(ss) => PluginMetadataV {
            systems: PluginSystemsV {
                fixed_update: m.systems.fixed_update + ss.map_values(|x: ExprV| x.name),
                ..m.systems
            },
            ..m
        },
        ConfigEntryV::SystemsOnEnter(arms) => PluginMetadataV {
            systems: PluginSystemsV {
                on_enter_count: m.systems.on_enter_count + spec_arm_sum(arms),
                ..m.systems
            },
            ..m
        },
        ConfigEntryV::SystemsOnExit(arms) => PluginMetadataV {
            systems: PluginSystemsV {
                on_exit_count: m.systems.on_exit_count + spec_arm_sum(arms),
                ..m.systems
            },
            ..m
        },
        ConfigEntryV::CustomBuild(_) => m,
        ConfigEntryV::CustomFinish(_) => m,
        ConfigEntryV::GenerateTests(_) => m,
    }
}

/// The metadata record a configuration folds into, left to right, from
/// the empty record with the given name.
pub open spec fn spec_metadata_of(name: Seq<char>, cfg: Seq<ConfigEntryV>) -> PluginMetadataV
    decreases cfg.len(),
{
    if cfg.len() == 0 {
        spec_empty_metadata(name)
    } else {
        spec_meta_step(spec_metadata_of(name, cfg.drop_last()), cfg.last())
    }
}

/// A prefix of the configuration never counts more hook systems than the
/// whole.
proof fn lemma_meta_counts_prefix(name: Seq<char>, cfg: Seq<ConfigEntryV>, n: int)
    requires
        0 <= n <= cfg.len(),
    ensures
        spec_metadata_of(name, cfg.take(n)).systems.on_enter_count <= spec_metadata_of(
            name,
            cfg,
        ).systems.on_enter_count,
        spec_metadata_of(name, cfg.take(n)).systems.on_exit_count <= spec_metadata_of(
            name,
            cfg,
        ).systems.on_exit_count,
    decreases cfg.len() - n,
{
    if n < cfg.len() {
        assert(cfg.take(n + 1).drop_last() =~= cfg.take(n));
        lemma_meta_counts_prefix(name, cfg, n + 1);
    } else {
        assert(cfg.take(n) =~= cfg);
    }
}

/// The fold of the configuration into its metadata record. The machine
/// bound on the hook counts is the one demand on the input: the summed
/// counts must fit the host's word size.
pub fn collect_metadata(name: String, entries: &Vec<ConfigEntry>) -> (r: PluginMetadata)
    requires
        spec_metadata_of(name@, entries.deep_view()).systems.on_enter_count <= usize::MAX,
        spec_metadata_of(name@, entries.deep_view()).systems.on_exit_count <= usize::MAX,
    ensures
        r.deep_view() == spec_metadata_of(name@, entries.deep_view()),
{
    let ghost name_view = name@;
    let mut m = PluginMetadata::empty(name);
    let mut i: usize = 0;
    assert(entries.deep_view().take(0) =~= Seq::<ConfigEntryV>::empty());
    while i < entries.len()
        invariant
            i <= entries.len(),
            spec_metadata_of(name_view, entries.deep_view()).systems.on_enter_count
                <= usize::MAX,
            spec_metadata_of(name_view, entries.deep_view()).systems.on_exit_count
                <= usize::MAX,
            m.deep_view() == spec_metadata_of(
                name_view,
                entries.deep_view().take(i as int),
            ),
        decreases entries.len() - i,
    {
        let ghost cur = entries.deep_view().take(i + 1);
        assert(cur.drop_last() =~= entries.deep_view().take(i as int));
        assert(cur.last() == entries.deep_view()[i as int]);
        proof {
            lemma_meta_counts_prefix(name_view, entries.deep_view(), i + 1);
        }
        match &entries[i] {
            ConfigEntry::Meta(mb) => {
                match &mb.version {
                    Some(v) => {
                        m.version = Some(v.clone());
                    },
                    None => {},
                }
                match &mb.description {
                    Some(d) => {
                        m.description = Some(d.clone());
                    },
                    None => {},
                }
            },
            ConfigEntry::DependsOn(ts) => {
                let mut names = dependency_names(ts);
                m.dependencies.append(&mut names);
            },
            ConfigEntry::InitResource(ts) => {
                let mut more = copy_type_list(ts);
                m.resources.append(&mut more);
            },
            ConfigEntry::InsertResource(es) => {
                let mut more = expr_type_infos(es);
                m.resources.append(&mut more);
            },
            ConfigEntry::AddMessage(ts) => {
                let mut more = copy_type_list(ts);
                m.messages.append(&mut more);
            },
            ConfigEntry::AddPlugins(es) => {
                let mut names = expr_names(es);
                m.sub_plugins.append(&mut names);
            },
            ConfigEntry::InitState(ts) => {
                let mut more = copy_type_list(ts);
                m.states.append(&mut more);
            },
            ConfigEntry::AddSubState(ts) => {
                let mut more = copy_type_list(ts);
                m.sub_states.append(&mut more);
            },
            ConfigEntry::RegisterType(ts) => {
                let mut more = copy_type_list(ts);
                m.reflected_types.append(&mut more);
            },
            ConfigEntry::SystemsStartup(ss) => {
                let mut names = expr_names(ss);
                m.systems.startup.append(&mut names);
            },
            ConfigEntry::SystemsUpdate(ss) => {
                let mut names = expr_names(ss);
                m.systems.update.append(&mut names);
            },
            ConfigEntry::SystemsFixedUpdate(ss) => {
                let mut names = expr_names(ss);
                m.systems.fixed_update.append(&mut names);
            },
            ConfigEntry::SystemsOnEnter(arms) => {
                let more = arm_systems_count(arms);
                m.systems.on_enter_count = m.systems.on_enter_count + more;
            },
            ConfigEntry::SystemsOnExit(arms) => {
                let more = arm_systems_count(arms);
                m.systems.on_exit_count = m.systems.on_exit_count + more;
            },
            ConfigEntry::CustomBuild(_) => {},
            ConfigEntry::CustomFinish(_) => {},
            ConfigEntry::GenerateTests(_) => {},
        }
        assert(m.deep_view() =~= spec_metadata_of(name_view, cur));
        i = i + 1;
    }
    assert(entries.deep_view().take(entries.len() as int) =~= entries.deep_view());
    m
}

} // verus!
