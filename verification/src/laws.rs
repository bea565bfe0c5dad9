//! Laws of the passes, stated and proved once for every configuration:
//! idempotent registration, order preservation of the accumulated lists,
//! and the parity of the metadata record with the build-phase calls.

use vstd::prelude::*;

use crate::build_pass::spec_build_calls;
use crate::build_pass::spec_entry_calls;
use crate::build_pass::spec_type_call;
use crate::build_pass::spec_expr_call;
use crate::build_pass::spec_arm_call;
use crate::builder::BuilderCallV;
use crate::builder::ScheduleV;
use crate::config::ConfigEntryV;
use crate::config::ExprV;
use crate::config::StateArmV;
use crate::meta_pass::spec_arm_sum;
use crate::meta_pass::spec_metadata_of;
use crate::metadata::PluginMetadataV;
use crate::metadata::TypeInfoV;
use crate::registry::spec_register;
use crate::registry::spec_registered;
use crate::config::spec_expr_type_info;
use crate::testgen::spec_entry_resources;
use crate::testgen::spec_resources_declared;

verus! {

/// Idempotent registration: registering an identity a second time — with
/// any metadata — leaves the registry exactly as the first registration
/// left it: the same records, the same number of plugins, the same
/// registration order.
pub proof fn lemma_register_idempotent(
    s: Seq<(u64, PluginMetadataV)>,
    id: u64,
    m1: PluginMetadataV,
    m2: PluginMetadataV,
)
    ensures
        spec_register(spec_register(s, id, m1), id, m2) == spec_register(s, id, m1),
{
    if !spec_registered(s, id) {
        let s1 = spec_register(s, id, m1);
        assert(s1[s.len() as int].0 == id);
        assert(spec_registered(s1, id));
    }
}

/// Whether an entry feeds the resource list: a default-construction
/// declaration or a by-value insertion.
pub open spec fn declares_resources(e: ConfigEntryV) -> bool {
    e matches ConfigEntryV::InitResource(_) || e matches ConfigEntryV::InsertResource(_)
}

/// The resource list of the metadata record is the fold of the declared
/// resource lists alone.
proof fn lemma_metadata_resources(name: Seq<char>, cfg: Seq<ConfigEntryV>)
    ensures
        spec_metadata_of(name, cfg).resources == spec_resources_declared(cfg),
    decreases cfg.len(),
{
    if cfg.len() > 0 {
        lemma_metadata_resources(name, cfg.drop_last());
        assert(spec_metadata_of(name, cfg).resources =~= spec_resources_declared(cfg));
    }
}

/// The declared resources of a concatenation are the concatenations of
/// the declared resources.
proof fn lemma_resources_declared_concat(a: Seq<ConfigEntryV>, b: Seq<ConfigEntryV>)
    ensures
        spec_resources_declared(a + b) == spec_resources_declared(a)
            + spec_resources_declared(b),
    decreases b.len(),
{
    if b.len() == 0 {
        assert(a + b =~= a);
        assert(spec_resources_declared(a) + spec_resources_declared(b)
            =~= spec_resources_declared(a));
    } else {
        assert((a + b).drop_last() =~= a + b.drop_last());
        lemma_resources_declared_concat(a, b.drop_last());
        assert(spec_resources_declared(a) + spec_resources_declared(b.drop_last())
            + spec_entry_resources(b.last()) =~= spec_resources_declared(a)
            + spec_resources_declared(b));
    }
}

/// A configuration fragment with no resource declaration declares no
/// resources.
proof fn lemma_resources_declared_none(c: Seq<ConfigEntryV>)
    requires
        forall|j: int| 0 <= j < c.len() ==> !declares_resources(#[trigger] c[j]),
    ensures
        spec_resources_declared(c) == Seq::<TypeInfoV>::empty(),
    decreases c.len(),
{
    if c.len() > 0 {
        assert(forall|j: int|
            0 <= j < c.drop_last().len() ==> !declares_resources(
                #[trigger] c.drop_last()[j],
            ));
        lemma_resources_declared_none(c.drop_last());
        assert(!declares_resources(c[c.len() - 1]));
        assert(spec_resources_declared(c) =~= Seq::<TypeInfoV>::empty());
    }
}

/// Order preservation: in a configuration whose resource declarations are
/// exactly two lists, the first and then the second — whatever other
/// entries stand around them — the accumulated resource list is exactly
/// the first list followed by the second, in that order.
pub proof fn lemma_init_resource_order(
    name: Seq<char>,
    a: Seq<ConfigEntryV>,
    xs: Seq<TypeInfoV>,
    b: Seq<ConfigEntryV>,
    ys: Seq<TypeInfoV>,
    c: Seq<ConfigEntryV>,
)
    requires
        forall|j: int| 0 <= j < a.len() ==> !declares_resources(#[trigger] a[j]),
        forall|j: int| 0 <= j < b.len() ==> !declares_resources(#[trigger] b[j]),
        forall|j: int| 0 <= j < c.len() ==> !declares_resources(#[trigger] c[j]),
    ensures
        spec_metadata_of(
            name,
            a + seq![ConfigEntryV::InitResource(xs)] + b + seq![
                ConfigEntryV::InitResource(ys),
            ] + c,
        ).resources == xs + ys,
{
    reveal_with_fuel(spec_resources_declared, 2);
    let cfg = a + seq![ConfigEntryV::InitResource(xs)] + b + seq![
        ConfigEntryV::InitResource(ys),
    ] + c;
    lemma_metadata_resources(name, cfg);
    lemma_resources_declared_concat(
        a + seq![ConfigEntryV::InitResource(xs)] + b + seq![
            ConfigEntryV::InitResource(ys),
        ],
        c,
    );
    lemma_resources_declared_concat(
        a + seq![ConfigEntryV::InitResource(xs)] + b,
        seq![ConfigEntryV::InitResource(ys)],
    );
    lemma_resources_declared_concat(a + seq![ConfigEntryV::InitResource(xs)], b);
    lemma_resources_declared_concat(a, seq![ConfigEntryV::InitResource(xs)]);
    lemma_resources_declared_none(a);
    lemma_resources_declared_none(b);
    lemma_resources_declared_none(c);
    assert(seq![ConfigEntryV::InitResource(xs)].drop_last() =~= Seq::<
        ConfigEntryV,
    >::empty());
    assert(seq![ConfigEntryV::InitResource(ys)].drop_last() =~= Seq::<
        ConfigEntryV,
    >::empty());
    assert(spec_resources_declared(seq![ConfigEntryV::InitResource(xs)]) =~= xs);
    assert(spec_resources_declared(seq![ConfigEntryV::InitResource(ys)]) =~= ys);
    assert(spec_resources_declared(cfg) =~= xs + ys);
}

/// A category of the metadata record, for the parity law.
pub enum Category {
    Resources,
    Messages,
    States,
    SubStates,
    Reflected,
    SubPlugins,
    StartupSystems,
    UpdateSystems,
    FixedUpdateSystems,
    OnEnterSystems,
    OnExitSystems,
}

/// How many items of a category one registration call registers: one for
/// the matching type-registration call — a by-value insertion counts as
/// a resource — the batch size for the matching schedule, nothing
/// otherwise. Callables register no tracked item.
pub open spec fn spec_cat_weight(c: BuilderCallV, cat: Category) -> nat {
    match c {
        BuilderCallV::InitResource(_) => if cat is Resources {
            1
        } else {
            0
        },
        BuilderCallV::InsertResource(_) => if cat is Resources {
            1
        } else {
            0
        },
        BuilderCallV::AddMessage(_) => if cat is Messages {
            1
        } else {
            0
        },
        BuilderCallV::AddPlugin(_) => if cat is SubPlugins {
            1
        } else {
            0
        },
        BuilderCallV::InitState(_) => if cat is States {
            1
        } else {
            0
        },
        BuilderCallV::AddSubState(_) => if cat is SubStates {
            1
        } else {
            0
        },
        BuilderCallV::RegisterType(_) => if cat is Reflected {
            1
        } else {
            0
        },
        BuilderCallV::AddSystems(sched, ss) => match sched {
            ScheduleV::Startup => if cat is StartupSystems {
                ss.len()
            } else {
                0
            },
            ScheduleV::Update => if cat is UpdateSystems {
                ss.len()
            } else {
                0
            },
            ScheduleV::FixedUpdate => if cat is FixedUpdateSystems {
                ss.len()
            } else {
                0
            },
            ScheduleV::OnEnter(_) => if cat is OnEnterSystems {
                ss.len()
            } else {
                0
            },
            ScheduleV::OnExit(_) => if cat is OnExitSystems {
                ss.len()
            } else {
                0
            },
        },
        BuilderCallV::RunBuildHook(_) => 0,
    }
}

/// How many items of a category a sequence of calls registers.
pub open spec fn spec_cat_count(calls: Seq<BuilderCallV>, cat: Category) -> nat
    decreases calls.len(),
{
    if calls.len() == 0 {
        0
    } else {
        spec_cat_count(calls.drop_last(), cat) + spec_cat_weight(calls.last(), cat)
    }
}

/// How many items of a category the metadata record holds.
pub open spec fn spec_meta_cat_len(m: PluginMetadataV, cat: Category) -> nat {
    match cat {
        Category::Resources => m.resources.len(),
        Category::Messages => m.messages.len(),
        Category::States => m.states.len(),
        Category::SubStates => m.sub_states.len(),
        Category::Reflected => m.reflected_types.len(),
        Category::SubPlugins => m.sub_plugins.len(),
        Category::StartupSystems => m.systems.startup.len(),
        Category::UpdateSystems => m.systems.update.len(),
        Category::FixedUpdateSystems => m.systems.fixed_update.len(),
        Category::OnEnterSystems => m.systems.on_enter_count,
        Category::OnExitSystems => m.systems.on_exit_count,
    }
}

/// Category counts add up over concatenated call sequences.
proof fn lemma_cat_count_concat(a: Seq<BuilderCallV>, b: Seq<BuilderCallV>, cat: Category)
    ensures
        spec_cat_count(a + b, cat) == spec_cat_count(a, cat) + spec_cat_count(b, cat),
    decreases b.len(),
{
    if b.len() == 0 {
        assert(a + b =~= a);
    } else {
        assert((a + b).drop_last() =~= a + b.drop_last());
        lemma_cat_count_concat(a, b.drop_last(), cat);
    }
}

/// The category a kind tag of a type-registration call stands for.
pub open spec fn spec_type_category(kind: u8) -> Category {
    if kind == 0 {
        Category::Resources
    } else if kind == 1 {
        Category::Messages
    } else if kind == 2 {
        Category::States
    } else if kind == 3 {
        Category::SubStates
    } else {
        Category::Reflected
    }
}

/// A mapped type list counts its whole length in its own category and
/// nothing elsewhere.
proof fn lemma_cat_count_type_map(ts: Seq<TypeInfoV>, kind: u8, cat: Category)
    requires
        kind < 5,
    ensures
        spec_cat_count(ts.map_values(|t: TypeInfoV| spec_type_call(kind, t)), cat) == (
        if cat == spec_type_category(kind) {
            ts.len()
        } else {
            0
        }),
    decreases ts.len(),
{
    let mapped = ts.map_values(|t: TypeInfoV| spec_type_call(kind, t));
    if ts.len() == 0 {
        assert(mapped.len() == 0);
    } else {
        assert(mapped.drop_last() =~= ts.drop_last().map_values(
            |t: TypeInfoV| spec_type_call(kind, t),
        ));
        lemma_cat_count_type_map(ts.drop_last(), kind, cat);
        assert(mapped.last() == spec_type_call(kind, ts.last()));
    }
}

/// A mapped expression list counts its whole length as sub-plugins when
/// it adds plugins, as resources when it inserts them by value, and
/// nothing elsewhere.
proof fn lemma_cat_count_expr_map(es: Seq<ExprV>, as_plugin: bool, cat: Category)
    ensures
        spec_cat_count(es.map_values(|x: ExprV| spec_expr_call(as_plugin, x)), cat) == (
        if as_plugin && cat is SubPlugins {
            es.len()
        } else if !as_plugin && cat is Resources {
            es.len()
        } else {
            0
        }),
    decreases es.len(),
{
    let mapped = es.map_values(|x: ExprV| spec_expr_call(as_plugin, x));
    if es.len() == 0 {
        assert(mapped.len() == 0);
    } else {
        assert(mapped.drop_last() =~= es.drop_last().map_values(
            |x: ExprV| spec_expr_call(as_plugin, x),
        ));
        lemma_cat_count_expr_map(es.drop_last(), as_plugin, cat);
        assert(mapped.last() == spec_expr_call(as_plugin, es.last()));
    }
}

/// A mapped state map counts all its systems in its own hook category and
/// nothing elsewhere.
proof fn lemma_cat_count_arm_map(arms: Seq<StateArmV>, on_enter: bool, cat: Category)
    ensures
        spec_cat_count(arms.map_values(|a: StateArmV| spec_arm_call(on_enter, a)), cat)
            == (if on_enter && cat is OnEnterSystems {
            spec_arm_sum(arms)
        } else if !on_enter && cat is OnExitSystems {
            spec_arm_sum(arms)
        } else {
            0
        }),
    decreases arms.len(),
{
    let mapped = arms.map_values(|a: StateArmV| spec_arm_call(on_enter, a));
    if arms.len() == 0 {
        assert(mapped.len() == 0);
    } else {
        assert(mapped.drop_last() =~= arms.drop_last().map_values(
            |a: StateArmV| spec_arm_call(on_enter, a),
        ));
        lemma_cat_count_arm_map(arms.drop_last(), on_enter, cat);
        assert(mapped.last() == spec_arm_call(on_enter, arms.last()));
    }
}

/// A single call counts exactly its own weight.
proof fn lemma_cat_count_single(c: BuilderCallV, cat: Category)
    ensures
        spec_cat_count(seq![c], cat) == spec_cat_weight(c, cat),
{
    reveal_with_fuel(spec_cat_count, 2);
    assert(seq![c].drop_last() =~= Seq::<BuilderCallV>::empty());
    assert(seq![c].last() == c);
}

/// Metadata/build parity: for every category the metadata record tracks,
/// the number of items the build phase registers equals the number the
/// metadata pass accumulates — the two passes cannot drift apart. A
/// by-value resource insertion counts as a resource on both sides.
pub proof fn lemma_metadata_build_parity(
    name: Seq<char>,
    cfg: Seq<ConfigEntryV>,
    cat: Category,
)
    ensures
        spec_meta_cat_len(spec_metadata_of(name, cfg), cat) == spec_cat_count(
            spec_build_calls(cfg),
            cat,
        ),
    decreases cfg.len(),
{
    if cfg.len() > 0 {
        lemma_metadata_build_parity(name, cfg.drop_last(), cat);
        lemma_cat_count_concat(
            spec_build_calls(cfg.drop_last()),
            spec_entry_calls(cfg.last()),
            cat,
        );
        match cfg.last() {
            ConfigEntryV::InitResource(ts) => lemma_cat_count_type_map(ts, 0, cat),
            ConfigEntryV::AddMessage(ts) => lemma_cat_count_type_map(ts, 1, cat),
            ConfigEntryV::InitState(ts) => lemma_cat_count_type_map(ts, 2, cat),
            ConfigEntryV::AddSubState(ts) => lemma_cat_count_type_map(ts, 3, cat),
            ConfigEntryV::RegisterType(ts) => lemma_cat_count_type_map(ts, 4, cat),
            ConfigEntryV::InsertResource(es) => lemma_cat_count_expr_map(es, false, cat),
            ConfigEntryV::AddPlugins(es) => lemma_cat_count_expr_map(es, true, cat),
            ConfigEntryV::SystemsOnEnter(arms) => lemma_cat_count_arm_map(arms, true, cat),
            ConfigEntryV::SystemsOnExit(arms) => lemma_cat_count_arm_map(arms, false, cat),
            ConfigEntryV::SystemsStartup(ss) => lemma_cat_count_single(
                BuilderCallV::AddSystems(ScheduleV::Startup, ss),
                cat,
            ),
            ConfigEntryV::SystemsUpdate(ss) => lemma_cat_count_single(
                BuilderCallV::AddSystems(ScheduleV::Update, ss),
                cat,
            ),
            ConfigEntryV::SystemsFixedUpdate(ss) => lemma_cat_count_single(
                BuilderCallV::AddSystems(ScheduleV::FixedUpdate, ss),
                cat,
            ),
            ConfigEntryV::CustomBuild(h) => lemma_cat_count_single(
                BuilderCallV::RunBuildHook(h),
                cat,
            ),
            ConfigEntryV::Meta(_) => {},
            ConfigEntryV::DependsOn(_) => {},
            ConfigEntryV::CustomFinish(_) => {},
            ConfigEntryV::GenerateTests(_) => {},
        }
    }
}

} // verus!
