//! The build-pass synthesizer: one descent over the configuration that
//! emits, in declaration order, the registration calls of the build phase.
//!
//! Each item of a type-registration key becomes one call; each
//! system-scheduling key becomes one batched call per schedule (one per
//! state-map arm), so that ordering and run-condition combinators attached
//! to the expressions survive in a single call. The dependency
//! declaration, the meta block, the opt-in map and the finish-phase
//! callable emit nothing here.

use vstd::prelude::*;

use crate::builder::BuilderCall;
use crate::builder::BuilderCallV;
use crate::builder::Schedule;
use crate::builder::ScheduleV;
use crate::config::ConfigEntry;
use crate::config::ConfigEntryV;
use crate::config::Expr;
use crate::config::StateArm;
use crate::config::copy_expr;
use crate::config::copy_expr_list;
use crate::metadata::TypeInfo;
use crate::metadata::copy_type_info;

verus! {

/// The registration calls one recognized entry contributes to the build
/// phase, in declaration order.
pub open spec fn spec_entry_calls(e: ConfigEntryV) -> Seq<BuilderCallV> {
    match e {
        ConfigEntryV::Meta(_) => Seq::empty(),
        ConfigEntryV::DependsOn(_) => Seq::empty(),
        ConfigEntryV::InitResource(ts) => ts.map_values(|t| spec_type_call(0, t)),
        ConfigEntryV::InsertResource(es) => es.map_values(|x| spec_expr_call(false, x)),
        ConfigEntryV::AddMessage(ts) => ts.map_values(|t| spec_type_call(1, t)),
        ConfigEntryV::AddPlugins(es) => es.map_values(|x| spec_expr_call(true, x)),
        ConfigEntryV::InitState(ts) => ts.map_values(|t| spec_type_call(2, t)),
        ConfigEntryV::AddSubState(ts) => ts.map_values(|t| spec_type_call(3, t)),
        ConfigEntryV::RegisterType(ts) => ts.map_values(|t| spec_type_call(4, t)),
        ConfigEntryV::SystemsStartup(ss) => seq![
            BuilderCallV::AddSystems(ScheduleV::Startup, ss),
        ],
        ConfigEntryV::SystemsUpdate(ss) => seq![
            BuilderCallV::AddSystems(ScheduleV::Update, ss),
        ],
        ConfigEntryV::SystemsFixedUpdate(ss) => seq![
            BuilderCallV::AddSystems(ScheduleV::FixedUpdate, ss),
        ],
        ConfigEntryV::SystemsOnEnter(arms) => arms.map_values(
            |a: crate::config::StateArmV| spec_arm_call(true, a),
        ),
        ConfigEntryV::SystemsOnExit(arms) => arms.map_values(
            |a: crate::config::StateArmV| spec_arm_call(false, a),
        ),
        ConfigEntryV::CustomBuild(h) => seq![BuilderCallV::RunBuildHook(h)],
        ConfigEntryV::CustomFinish(_) => Seq::empty(),
        ConfigEntryV::GenerateTests(_) => Seq::empty(),
    }
}

/// The registration calls of the whole build phase: the contributions of
/// the entries, concatenated in declaration order.
pub open spec fn spec_build_calls(cfg: Seq<ConfigEntryV>) -> Seq<BuilderCallV>
    decreases cfg.len(),
{
    if cfg.len() == 0 {
        Seq::empty()
    } else {
        spec_build_calls(cfg.drop_last()) + spec_entry_calls(cfg.last())
    }
}

/// The call a type-list item becomes, by kind of key.
pub open spec fn spec_type_call(kind: u8, t: crate::metadata::TypeInfoV) -> BuilderCallV {
    if kind == 0 {
        BuilderCallV::InitResource(t)
    } else if kind == 1 {
        BuilderCallV::AddMessage(t)
    } else if kind == 2 {
        BuilderCallV::InitState(t)
    } else if kind == 3 {
        BuilderCallV::AddSubState(t)
    } else {
        BuilderCallV::RegisterType(t)
    }
}

/// The call an expression-list item becomes.
pub open spec fn spec_expr_call(as_plugin: bool, x: crate::config::ExprV) -> BuilderCallV {
    if as_plugin {
        BuilderCallV::AddPlugin(x)
    } else {
        BuilderCallV::InsertResource(x)
    }
}

/// The batched call a state-map arm becomes.
pub open spec fn spec_arm_call(on_enter: bool, a: crate::config::StateArmV) -> BuilderCallV {
    if on_enter {
        BuilderCallV::AddSystems(ScheduleV::OnEnter(a.state), a.systems)
    } else {
        BuilderCallV::AddSystems(ScheduleV::OnExit(a.state), a.systems)
    }
}

/// One call per item of a type list, under the given constructor.
fn type_list_calls(ts: &Vec<TypeInfo>, kind: u8) -> (r: Vec<BuilderCall>)
    requires
        kind < 5,
    ensures
        r.deep_view() == ts.deep_view().map_values(
            |t: crate::metadata::TypeInfoV| spec_type_call(kind, t),
        ),
{
    let mut out: Vec<BuilderCall> = Vec::new();
    let mut i: usize = 0;
    while i < ts.len()
        invariant
            i <= ts.len(),
            kind < 5,
            out@.len() == i,
            forall|j: int|
                0 <= j < i ==> out.deep_view()[j] == spec_type_call(
                    kind,
                    #[trigger] ts.deep_view()[j],
                ),
        decreases ts.len() - i,
    {
        let t = copy_type_info(&ts[i]);
        if kind == 0 {
            out.push(BuilderCall::InitResource(t));
        } else if kind == 1 {
            out.push(BuilderCall::AddMessage(t));
        } else if kind == 2 {
            out.push(BuilderCall::InitState(t));
        } else if kind == 3 {
            out.push(BuilderCall::AddSubState(t));
        } else {
            out.push(BuilderCall::RegisterType(t));
        }
        i = i + 1;
    }
    assert(out.deep_view() =~= ts.deep_view().map_values(
        |t: crate::metadata::TypeInfoV| spec_type_call(kind, t),
    ));
    out
}

/// One call per expression, either inserting a resource or adding a
/// sub-plugin.
fn expr_list_calls(es: &Vec<Expr>, as_plugin: bool) -> (r: Vec<BuilderCall>)
    ensures
        r.deep_view() == es.deep_view().map_values(
            |x: crate::config::ExprV| spec_expr_call(as_plugin, x),
        ),
{
    let mut out: Vec<BuilderCall> = Vec::new();
    let mut i: usize = 0;
    while i < es.len()
        invariant
            i <= es.len(),
            out@.len() == i,
            forall|j: int|
                0 <= j < i ==> out.deep_view()[j] == spec_expr_call(
                    as_plugin,
                    #[trigger] es.deep_view()[j],
                ),
        decreases es.len() - i,
    {
        let x = copy_expr(&es[i]);
        if as_plugin {
            out.push(BuilderCall::AddPlugin(x));
        } else {
            out.push(BuilderCall::InsertResource(x));
        }
        i = i + 1;
    }
    assert(out.deep_view() =~= es.deep_view().map_values(
        |x: crate::config::ExprV| spec_expr_call(as_plugin, x),
    ));
    out
}

/// One batched call per state-map arm, on entry or on exit.
fn arm_calls(arms: &Vec<StateArm>, on_enter: bool) -> (r: Vec<BuilderCall>)
    ensures
        r.deep_view() == arms.deep_view().map_values(
            |a: crate::config::StateArmV| spec_arm_call(on_enter, a),
        ),
{
    let mut out: Vec<BuilderCall> = Vec::new();
    let mut i: usize = 0;
    while i < arms.len()
        invariant
            i <= arms.len(),
            out@.len() == i,
            forall|j: int|
                0 <= j < i ==> out.deep_view()[j] == spec_arm_call(
                    on_enter,
                    #[trigger] arms.deep_view()[j],
                ),
        decreases arms.len() - i,
    {
        let state = copy_expr(&arms[i].state);
        let systems = copy_expr_list(&arms[i].systems);
        if on_enter {
            out.push(BuilderCall::AddSystems(Schedule::OnEnter(state), systems));
        } else {
            out.push(BuilderCall::AddSystems(Schedule::OnExit(state), systems));
        }
        i = i + 1;
    }
    assert(out.deep_view() =~= arms.deep_view().map_values(
        |a: crate::config::StateArmV| spec_arm_call(on_enter, a),
    ));
    out
}

/// The registration calls of one recognized entry.
fn entry_calls(e: &ConfigEntry) -> (r: Vec<BuilderCall>)
    ensures
        r.deep_view() == spec_entry_calls(e.deep_view()),
{
    let r: Vec<BuilderCall> = match e {
        ConfigEntry::Meta(_) => Vec::new(),
        ConfigEntry::DependsOn(_) => Vec::new(),
        ConfigEntry::InitResource(ts) => type_list_calls(ts, 0),
        ConfigEntry::InsertResource(es) => expr_list_calls(es, false),
        ConfigEntry::AddMessage(ts) => type_list_calls(ts, 1),
        ConfigEntry::AddPlugins(es) => expr_list_calls(es, true),
        ConfigEntry::InitState(ts) => type_list_calls(ts, 2),
        ConfigEntry::AddSubState(ts) => type_list_calls(ts, 3),
        ConfigEntry::RegisterType(ts) => type_list_calls(ts, 4),
        ConfigEntry::SystemsStartup(ss) => {
            let mut one: Vec<BuilderCall> = Vec::new();
            one.push(BuilderCall::AddSystems(Schedule::Startup, copy_expr_list(ss)));
            one
        },
        ConfigEntry::SystemsUpdate(ss) => {
            let mut one: Vec<BuilderCall> = Vec::new();
            one.push(BuilderCall::AddSystems(Schedule::Update, copy_expr_list(ss)));
            one
        },
        ConfigEntry::SystemsFixedUpdate(ss) => {
            let mut one: Vec<BuilderCall> = Vec::new();
            one.push(BuilderCall::AddSystems(Schedule::FixedUpdate, copy_expr_list(ss)));
            one
        },
        ConfigEntry::SystemsOnEnter(arms) => arm_calls(arms, true),
        ConfigEntry::SystemsOnExit(arms) => arm_calls(arms, false),
        ConfigEntry::CustomBuild(h) => {
            let mut one: Vec<BuilderCall> = Vec::new();
            one.push(BuilderCall::RunBuildHook(*h));
            one
        },
        ConfigEntry::CustomFinish(_) => Vec::new(),
        ConfigEntry::GenerateTests(_) => Vec::new(),
    };
    assert(r.deep_view() =~= spec_entry_calls(e.deep_view()));
    r
}

/// The registration calls of the whole build phase, in declaration order.
pub fn build_calls(entries: &Vec<ConfigEntry>) -> (r: Vec<BuilderCall>)
    ensures
        r.deep_view() == spec_build_calls(entries.deep_view()),
{
    let mut out: Vec<BuilderCall> = Vec::new();
    let mut i: usize = 0;
    assert(entries.deep_view().take(0) =~= Seq::<ConfigEntryV>::empty());
    while i < entries.len()
        invariant
            i <= entries.len(),
            out.deep_view() == spec_build_calls(entries.deep_view().take(i as int)),
        decreases entries.len() - i,
    {
        let ghost cur = entries.deep_view().take(i + 1);
        assert(cur.drop_last() =~= entries.deep_view().take(i as int));
        assert(cur.last() == entries.deep_view()[i as int]);
        let mut cs = entry_calls(&entries[i]);
        out.append(&mut cs);
        assert(out.deep_view() =~= spec_build_calls(cur));
        i = i + 1;
    }
    assert(entries.deep_view().take(entries.len() as int) =~= entries.deep_view());
    out
}

} // verus!
