//! The conformance-check synthesizer: a fourth, independent pass that
//! emits check routines only when the configuration opts in.
//!
//! The pass scans for the opt-in map; absent one, it emits nothing. With
//! one present, it accumulates the same four categories the metadata pass
//! tracks — resources (default-constructed and inserted by value),
//! message types, states and dependencies — on its own, not reusing the
//! metadata pass, and emits one routine per category whose flag is on and
//! whose accumulated list is non-empty, in a fixed order: resources,
//! messages, states, dependencies.

use vstd::prelude::*;

use crate::builder::Builder;
use crate::builder::BuilderV;
use crate::builder::builder_has_message;
use crate::builder::builder_has_resource;
use crate::builder::builder_has_state;
use crate::config::ConfigEntry;
use crate::config::ConfigEntryV;
use crate::config::ExprV;
use crate::config::TestFlags;
use crate::config::expr_type_infos;
use crate::config::spec_expr_type_info;
use crate::deps::spec_first_missing;
use crate::metadata::TypeInfo;
use crate::metadata::TypeInfoV;
use crate::metadata::copy_type_list;
use crate::plugin::PluginDef;
use crate::plugin::collect_deps;
use crate::plugin::spec_deps_of;
use crate::plugin::spec_install;

verus! {

/// One conformance-check routine: the category it checks and the declared
/// items it asserts.
#[derive(Debug)]
pub enum ConformanceTest {
    /// A fresh host gets the plugin; every declared resource must be
    /// present.
    Resources(Vec<TypeInfo>),
    /// A fresh host gets the plugin; every declared message channel must
    /// be present.
    Messages(Vec<TypeInfo>),
    /// A fresh host with state-machine support gets the plugin; every
    /// declared state must be present.
    States(Vec<TypeInfo>),
    /// A fresh host gets the plugin without its declared predecessors;
    /// installation must fail with a missing-dependency error.
    Dependencies(Vec<TypeInfo>),
}

/// Specification-level image of a `ConformanceTest`.
#[verifier::ext_equal]
pub enum ConformanceTestV {
    Resources(Seq<TypeInfoV>),
    Messages(Seq<TypeInfoV>),
    States(Seq<TypeInfoV>),
    Dependencies(Seq<TypeInfoV>),
}

impl DeepView for ConformanceTest {
    type V = ConformanceTestV;

    open spec fn deep_view(&self) -> ConformanceTestV {
        match self {
            ConformanceTest::Resources(ts) => ConformanceTestV::Resources(ts.deep_view()),
            ConformanceTest::Messages(ts) => ConformanceTestV::Messages(ts.deep_view()),
            ConformanceTest::States(ts) => ConformanceTestV::States(ts.deep_view()),
            ConformanceTest::Dependencies(ts) => ConformanceTestV::Dependencies(
                ts.deep_view(),
            ),
        }
    }
}

/// The flags of the first opt-in map in the configuration, if any.
pub open spec fn spec_test_flags(cfg: Seq<ConfigEntryV>) -> Option<TestFlags>
    decreases cfg.len(),
{
    if cfg.len() == 0 {
        None
    } else {
        match cfg[0] {
            ConfigEntryV::GenerateTests(f) => Some(f),
            _ => spec_test_flags(cfg.drop_first()),
        }
    }
}

/// The resources one entry declares: a default-construction list as it
/// stands, a by-value insertion list as the identity records of its
/// expressions, nothing otherwise.
pub open spec fn spec_entry_resources(e: ConfigEntryV) -> Seq<TypeInfoV> {
    match e {
        ConfigEntryV::InitResource(ts) => ts,
        ConfigEntryV::InsertResource(es) => es.map_values(
            |x: ExprV| spec_expr_type_info(x),
        ),
        _ => Seq::empty(),
    }
}

/// The resources declared — default-constructed or inserted by value —
/// concatenated in declaration order.
pub open spec fn spec_resources_declared(cfg: Seq<ConfigEntryV>) -> Seq<TypeInfoV>
    decreases cfg.len(),
{
    if cfg.len() == 0 {
        Seq::empty()
    } else {
        spec_resources_declared(cfg.drop_last()) + spec_entry_resources(cfg.last())
    }
}

/// The message channel types declared, concatenated in declaration order.
pub open spec fn spec_messages_declared(cfg: Seq<ConfigEntryV>) -> Seq<TypeInfoV>
    decreases cfg.len(),
{
    if cfg.len() == 0 {
        Seq::empty()
    } else {
        spec_messages_declared(cfg.drop_last()) + (match cfg.last() {
            ConfigEntryV::AddMessage(ts) => ts,
            _ => Seq::empty(),
        })
    }
}

/// The top-level states declared, concatenated in declaration order.
pub open spec fn spec_states_declared(cfg: Seq<ConfigEntryV>) -> Seq<TypeInfoV>
    decreases cfg.len(),
{
    if cfg.len() == 0 {
        Seq::empty()
    } else {
        spec_states_declared(cfg.drop_last()) + (match cfg.last() {
            ConfigEntryV::InitState(ts) => ts,
            _ => Seq::empty(),
        })
    }
}

/// The conformance-check routines a configuration gives rise to: nothing
/// without an opt-in map; with one, a routine per category whose flag is
/// on and whose accumulated list is non-empty.
pub open spec fn spec_conformance(cfg: Seq<ConfigEntryV>) -> Seq<ConformanceTestV> {
    match spec_test_flags(cfg) {
        None => Seq::empty(),
        Some(f) => (if f.test_resources && spec_resources_declared(cfg).len() > 0 {
            seq![ConformanceTestV::Resources(spec_resources_declared(cfg))]
        } else {
            Seq::empty()
        }) + (if f.test_messages && spec_messages_declared(cfg).len() > 0 {
            seq![ConformanceTestV::Messages(spec_messages_declared(cfg))]
        } else {
            Seq::empty()
        }) + (if f.test_states && spec_states_declared(cfg).len() > 0 {
            seq![ConformanceTestV::States(spec_states_declared(cfg))]
        } else {
            Seq::empty()
        }) + (if f.test_dependencies && spec_deps_of(cfg).len() > 0 {
            seq![ConformanceTestV::Dependencies(spec_deps_of(cfg))]
        } else {
            Seq::empty()
        }),
    }
}

/// The flags of the first opt-in map, if any.
fn scan_test_flags(entries: &Vec<ConfigEntry>) -> (r: Option<TestFlags>)
    ensures
        r == spec_test_flags(entries.deep_view()),
{
    let mut i: usize = 0;
    assert(entries.deep_view().skip(0) =~= entries.deep_view());
    while i < entries.len()
        invariant
            i <= entries.len(),
            spec_test_flags(entries.deep_view()) == spec_test_flags(
                entries.deep_view().skip(i as int),
            ),
        decreases entries.len() - i,
    {
        let ghost rest = entries.deep_view().skip(i as int);
        assert(rest[0] == entries.deep_view()[i as int]);
        assert(rest.drop_first() =~= entries.deep_view().skip(i + 1));
        match &entries[i] {
            ConfigEntry::GenerateTests(f) => {
                return Some(*f);
            },
            _ => {},
        }
        i = i + 1;
    }
    assert(entries.deep_view().skip(entries.len() as int) =~= Seq::<ConfigEntryV>::empty());
    None
}

/// A category accumulator: the type lists of one kind of entry,
/// concatenated in declaration order.
fn collect_category(entries: &Vec<ConfigEntry>, cat: u8) -> (r: Vec<TypeInfo>)
    requires
        cat < 3,
    ensures
        cat == 0 ==> r.deep_view() == spec_resources_declared(entries.deep_view()),
        cat == 1 ==> r.deep_view() == spec_messages_declared(entries.deep_view()),
        cat == 2 ==> r.deep_view() == spec_states_declared(entries.deep_view()),
{
    let mut out: Vec<TypeInfo> = Vec::new();
    let mut i: usize = 0;
    assert(entries.deep_view().take(0) =~= Seq::<ConfigEntryV>::empty());
    while i < entries.len()
        invariant
            i <= entries.len(),
            cat < 3,
            cat == 0 ==> out.deep_view() == spec_resources_declared(
                entries.deep_view().take(i as int),
            ),
            cat == 1 ==> out.deep_view() == spec_messages_declared(
                entries.deep_view().take(i as int),
            ),
            cat == 2 ==> out.deep_view() == spec_states_declared(
                entries.deep_view().take(i as int),
            ),
        decreases entries.len() - i,
    {
        let ghost cur = entries.deep_view().take(i + 1);
        assert(cur.drop_last() =~= entries.deep_view().take(i as int));
        assert(cur.last() == entries.deep_view()[i as int]);
        match &entries[i] {
            ConfigEntry::InitResource(ts) => if cat == 0 {
                let mut more = copy_type_list(ts);
                out.append(&mut more);
            },
            ConfigEntry::InsertResource(es) => if cat == 0 {
                let mut more = expr_type_infos(es);
                out.append(&mut more);
            },
            ConfigEntry::AddMessage(ts) => if cat == 1 {
                let mut more = copy_type_list(ts);
                out.append(&mut more);
            },
            ConfigEntry::InitState(ts) => if cat == 2 {
                let mut more = copy_type_list(ts);
                out.append(&mut more);
            },
            _ => {},
        }
        proof {
            if cat == 0 {
                assert(out.deep_view() =~= spec_resources_declared(cur));
            } else if cat == 1 {
                assert(out.deep_view() =~= spec_messages_declared(cur));
            } else {
                assert(out.deep_view() =~= spec_states_declared(cur));
            }
        }
        i = i + 1;
    }
    assert(entries.deep_view().take(entries.len() as int) =~= entries.deep_view());
    out
}

/// The synthesis of the conformance-check routines of a configuration.
pub fn conformance_tests(entries: &Vec<ConfigEntry>) -> (r: Vec<ConformanceTest>)
    ensures
        r.deep_view() == spec_conformance(entries.deep_view()),
{
    let mut out: Vec<ConformanceTest> = Vec::new();
    match scan_test_flags(entries) {
        None => {},
        Some(f) => {
            if f.test_resources {
                let ts = collect_category(entries, 0);
                if ts.len() > 0 {
                    out.push(ConformanceTest::Resources(ts));
                }
            }
            if f.test_messages {
                let ts = collect_category(entries, 1);
                if ts.len() > 0 {
                    out.push(ConformanceTest::Messages(ts));
                }
            }
            if f.test_states {
                let ts = collect_category(entries, 2);
                if ts.len() > 0 {
                    out.push(ConformanceTest::States(ts));
                }
            }
            if f.test_dependencies {
                let ts = collect_deps(entries);
                if ts.len() > 0 {
                    out.push(ConformanceTest::Dependencies(ts));
                }
            }
        },
    }
    assert(out.deep_view() =~= spec_conformance(entries.deep_view()));
    out
}

/// A host builder with nothing installed and no calls received.
pub open spec fn spec_fresh_builder() -> BuilderV {
    BuilderV {
        log: Seq::empty(),
        installed: Seq::empty(),
        finish_log: Seq::empty(),
    }
}

/// Whether one listed item is present in the builder, per category: a
/// resource, a message channel, or a state machine.
pub open spec fn spec_item_present(after: BuilderV, t: TypeInfoV, cat: u8) -> bool {
    if cat == 0 {
        builder_has_resource(after, t.id)
    } else if cat == 1 {
        builder_has_message(after, t.id)
    } else {
        builder_has_state(after, t.id)
    }
}

/// Whether every listed item is present in the builder, per category.
pub open spec fn spec_all_present(after: BuilderV, ts: Seq<TypeInfoV>, cat: u8) -> bool
    decreases ts.len(),
{
    if ts.len() == 0 {
        true
    } else {
        spec_item_present(after, ts[0], cat) && spec_all_present(after, ts.drop_first(), cat)
    }
}

/// What it is for a conformance-check routine to pass against a freshly
/// built host: for the presence categories, installing the plugin
/// succeeds and every listed item is present afterwards; for the
/// dependency category, installing the plugin without its predecessors
/// fails.
pub open spec fn spec_check_passes(t: ConformanceTestV, id: u64, cfg: Seq<ConfigEntryV>) -> bool {
    let installed_ok = spec_first_missing(spec_fresh_builder().installed, spec_deps_of(cfg))
        is None;
    let after = spec_install(spec_fresh_builder(), id, cfg);
    match t {
        ConformanceTestV::Resources(ts) => installed_ok && spec_all_present(after, ts, 0),
        ConformanceTestV::Messages(ts) => installed_ok && spec_all_present(after, ts, 1),
        ConformanceTestV::States(ts) => installed_ok && spec_all_present(after, ts, 2),
        ConformanceTestV::Dependencies(_) => !installed_ok,
    }
}

/// The items a presence routine checks, or nothing for the dependency
/// routine.
fn routine_items(t: &ConformanceTest) -> (r: Option<(&Vec<TypeInfo>, u8)>)
    ensures
        (match t.deep_view() {
            ConformanceTestV::Resources(ts) => r matches Some(p) && p.0.deep_view() == ts
                && p.1 == 0,
            ConformanceTestV::Messages(ts) => r matches Some(p) && p.0.deep_view() == ts
                && p.1 == 1,
            ConformanceTestV::States(ts) => r matches Some(p) && p.0.deep_view() == ts
                && p.1 == 2,
            ConformanceTestV::Dependencies(_) => r is None,
        }),
{
    match t {
        ConformanceTest::Resources(ts) => Some((ts, 0)),
        ConformanceTest::Messages(ts) => Some((ts, 1)),
        ConformanceTest::States(ts) => Some((ts, 2)),
        ConformanceTest::Dependencies(_) => None,
    }
}

impl ConformanceTest {
    /// Run this routine against a freshly built host model: install the
    /// plugin and check what the category demands. A host-side runner
    /// realizes the same routine against the real host.
    #[verifier::loop_isolation(false)]
    pub fn run(&self, plugin: &PluginDef) -> (r: bool)
        ensures
            r == spec_check_passes(
                self.deep_view(),
                plugin.id,
                plugin.entries.deep_view(),
            ),
    {
        let mut b = Builder::new();
        let outcome = plugin.install(&mut b);
        match routine_items(self) {
            None => outcome.is_err(),
            Some((ts, cat)) => {
                if outcome.is_err() {
                    return false;
                }
                let ghost after = b.deep_view();
                let mut i: usize = 0;
                assert(ts.deep_view().skip(0) =~= ts.deep_view());
                while i < ts.len()
                    invariant
                        i <= ts.len(),
                        cat < 3,
                        b.deep_view() == after,
                        spec_all_present(after, ts.deep_view(), cat as u8)
                            == spec_all_present(
                            after,
                            ts.deep_view().skip(i as int),
                            cat as u8,
                        ),
                    decreases ts.len() - i,
                {
                    let ghost rest = ts.deep_view().skip(i as int);
                    assert(rest[0] == ts.deep_view()[i as int]);
                    assert(rest.drop_first() =~= ts.deep_view().skip(i + 1));
                    let present = if cat == 0 {
                        b.contains_resource(ts[i].id)
                    } else if cat == 1 {
                        b.contains_message(ts[i].id)
                    } else {
                        b.contains_state(ts[i].id)
                    };
                    if !present {
                        return false;
                    }
                    i = i + 1;
                }
                assert(ts.deep_view().skip(ts.len() as int) =~= Seq::<TypeInfoV>::empty());
                true
            },
        }
    }
}

} // verus!
