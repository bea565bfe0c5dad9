//! A defined plugin: a name, an identity, and its parsed configuration,
//! with the two-phase lifecycle against the host builder.
//!
//! Installing a plugin first verifies its declared predecessors — failing
//! fast, before any registration, so a missing dependency leaves the
//! builder untouched — then marks the plugin installed and applies the
//! build-phase calls in declaration order. The finish phase is a second,
//! independent descent that runs exactly the finish-phase callables and
//! skips every other entry, so custom finish logic runs strictly after
//! every build-phase registration.

use vstd::prelude::*;

use crate::build_pass::build_calls;
use crate::build_pass::spec_build_calls;
use crate::builder::Builder;
use crate::builder::BuilderV;
use crate::builder::copy_call;
use crate::builder::spec_apply_calls;
use crate::config::ConfigEntry;
use crate::config::ConfigEntryV;
use crate::config::ConfigError;
use crate::config::RawEntry;
use crate::config::parse_config;
use crate::config::spec_parse;
use crate::deps::MissingPluginError;
use crate::deps::MissingPluginErrorV;
use crate::deps::spec_first_missing;
use crate::deps::verify_dependencies;
use crate::meta_pass::collect_metadata;
use crate::meta_pass::spec_metadata_of;
use crate::metadata::PluginMetadata;
use crate::metadata::TypeInfo;
use crate::metadata::TypeInfoV;
use crate::metadata::copy_type_list;
use crate::testgen::ConformanceTest;
use crate::testgen::conformance_tests;
use crate::testgen::spec_conformance;

verus! {

/// A plugin as defined by its declaration: display name, identity token,
/// and the parsed configuration entries in declaration order.
#[derive(Debug)]
pub struct PluginDef {
    /// Display name of the plugin.
    pub name: String,
    /// Identity token of the plugin.
    pub id: u64,
    /// The parsed configuration.
    pub entries: Vec<ConfigEntry>,
}

/// The declared predecessor plugins of a configuration: the dependency
/// lists, concatenated in declaration order.
pub open spec fn spec_deps_of(cfg: Seq<ConfigEntryV>) -> Seq<TypeInfoV>
    decreases cfg.len(),
{
    if cfg.len() == 0 {
        Seq::empty()
    } else {
        spec_deps_of(cfg.drop_last()) + (match cfg.last() {
            ConfigEntryV::DependsOn(ts) => ts,
            _ => Seq::empty(),
        })
    }
}

/// The finish-phase callables of a configuration, in declaration order.
pub open spec fn spec_finish_hooks(cfg: Seq<ConfigEntryV>) -> Seq<u64>
    decreases cfg.len(),
{
    if cfg.len() == 0 {
        Seq::empty()
    } else {
        spec_finish_hooks(cfg.drop_last()) + (match cfg.last() {
            ConfigEntryV::CustomFinish(h) => seq![h],
            _ => Seq::empty(),
        })
    }
}

/// The builder after a successful installation: the plugin's identity
/// marked installed, then every build-phase call applied in order.
pub open spec fn spec_install(b: BuilderV, id: u64, cfg: Seq<ConfigEntryV>) -> BuilderV {
    spec_apply_calls(
        BuilderV { installed: b.installed.push(id), ..b },
        spec_build_calls(cfg),
    )
}

/// The declared predecessor plugins, in declaration order.
pub fn collect_deps(entries: &Vec<ConfigEntry>) -> (r: Vec<TypeInfo>)
    ensures
        r.deep_view() == spec_deps_of(entries.deep_view()),
{
    let mut out: Vec<TypeInfo> = Vec::new();
    let mut i: usize = 0;
    assert(entries.deep_view().take(0) =~= Seq::<ConfigEntryV>::empty());
    while i < entries.len()
        invariant
            i <= entries.len(),
            out.deep_view() == spec_deps_of(entries.deep_view().take(i as int)),
        decreases entries.len() - i,
    {
        let ghost cur = entries.deep_view().take(i + 1);
        assert(cur.drop_last() =~= entries.deep_view().take(i as int));
        assert(cur.last() == entries.deep_view()[i as int]);
        match &entries[i] {
            ConfigEntry::DependsOn(ts) => {
                let mut more = copy_type_list(ts);
                out.append(&mut more);
            },
            _ => {},
        }
        assert(out.deep_view() =~= spec_deps_of(cur));
        i = i + 1;
    }
    assert(entries.deep_view().take(entries.len() as int) =~= entries.deep_view());
    out
}

impl PluginDef {
    /// Definition of a plugin from its raw configuration: the single parse
    /// whose result every pass folds over. A configuration the grammar
    /// rejects is a definition-time error.
    pub fn define(name: String, id: u64, raw: &Vec<RawEntry>) -> (r: Result<
        PluginDef,
        ConfigError,
    >)
        ensures
            (match spec_parse(raw.deep_view()) {
                Ok(cfg) => r matches Ok(p) && p.name@ == name@ && p.id == id
                    && p.entries.deep_view() == cfg,
                Err(e) => r matches Err(err) && err.deep_view() == e,
            }),
    {
        match parse_config(raw) {
            Ok(entries) => Ok(PluginDef { name, id, entries }),
            Err(e) => Err(e),
        }
    }

    /// The registration calls of this plugin's build phase, in declaration
    /// order.
    pub fn build_calls(&self) -> (r: Vec<crate::builder::BuilderCall>)
        ensures
            r.deep_view() == spec_build_calls(self.entries.deep_view()),
    {
        build_calls(&self.entries)
    }

    /// Installation against the host builder. The declared predecessors
    /// are verified first, in declared order; if one is missing, the
    /// install reports the first missing one and the builder is left
    /// exactly as it was — no partial registration. Otherwise the plugin
    /// is marked installed and every build-phase call is applied in
    /// declaration order.
    pub fn install(&self, b: &mut Builder) -> (r: Result<(), MissingPluginError>)
        ensures
            (match spec_first_missing(
                old(b).deep_view().installed,
                spec_deps_of(self.entries.deep_view()),
            ) {
                Some(d) => r matches Err(e) && e.deep_view() == (MissingPluginErrorV {
                    required_by: self.name@,
                    missing: d.name,
                }) && *final(b) == *old(b),
                None => r matches Ok(_) && final(b).deep_view() == spec_install(
                    old(b).deep_view(),
                    self.id,
                    self.entries.deep_view(),
                ),
            }),
    {
        let deps = collect_deps(&self.entries);
        match verify_dependencies(b, self.name.as_str(), &deps) {
            Err(e) => Err(e),
            Ok(_) => {
                b.mark_installed(self.id);
                let calls = build_calls(&self.entries);
                let ghost b1 = b.deep_view();
                let mut i: usize = 0;
                assert(calls.deep_view().take(0) =~= Seq::<
                    crate::builder::BuilderCallV,
                >::empty());
                while i < calls.len()
                    invariant
                        i <= calls.len(),
                        b.deep_view() == spec_apply_calls(
                            b1,
                            calls.deep_view().take(i as int),
                        ),
                    decreases calls.len() - i,
                {
                    let ghost cur = calls.deep_view().take(i + 1);
                    assert(cur.drop_last() =~= calls.deep_view().take(i as int));
                    assert(cur.last() == calls.deep_view()[i as int]);
                    b.apply(copy_call(&calls[i]));
                    i = i + 1;
                }
                assert(calls.deep_view().take(calls.len() as int) =~= calls.deep_view());
                Ok(())
            },
        }
    }

    /// The metadata record this plugin's configuration folds into. The
    /// machine bound on the hook counts is the one demand on the input.
    pub fn metadata(&self) -> (r: PluginMetadata)
        requires
            spec_metadata_of(
                self.name@,
                self.entries.deep_view(),
            ).systems.on_enter_count <= usize::MAX,
            spec_metadata_of(
                self.name@,
                self.entries.deep_view(),
            ).systems.on_exit_count <= usize::MAX,
        ensures
            r.deep_view() == spec_metadata_of(self.name@, self.entries.deep_view()),
    {
        collect_metadata(self.name.clone(), &self.entries)
    }

    /// The conformance-check routines this plugin's configuration gives
    /// rise to.
    pub fn conformance_tests(&self) -> (r: Vec<ConformanceTest>)
        ensures
            r.deep_view() == spec_conformance(self.entries.deep_view()),
    {
        conformance_tests(&self.entries)
    }

    /// The finish phase: a second, independent descent over the identical
    /// configuration that runs exactly the finish-phase callables, in
    /// declaration order, and skips every other entry.
    pub fn finish(&self, b: &mut Builder)
        ensures
            final(b).deep_view() == (BuilderV {
                finish_log: old(b).deep_view().finish_log + spec_finish_hooks(
                    self.entries.deep_view(),
                ),
                ..old(b).deep_view()
            }),
    {
        let ghost b0 = b.deep_view();
        let mut i: usize = 0;
        assert(self.entries.deep_view().take(0) =~= Seq::<ConfigEntryV>::empty());
        while i < self.entries.len()
            invariant
                i <= self.entries.len(),
                b.deep_view() == (BuilderV {
                    finish_log: b0.finish_log + spec_finish_hooks(
                        self.entries.deep_view().take(i as int),
                    ),
                    ..b0
                }),
            decreases self.entries.len() - i,
        {
            let ghost cur = self.entries.deep_view().take(i + 1);
            assert(cur.drop_last() =~= self.entries.deep_view().take(i as int));
            assert(cur.last() == self.entries.deep_view()[i as int]);
            match &self.entries[i] {
                ConfigEntry::CustomFinish(h) => {
                    b.run_finish_hook(*h);
                },
                _ => {},
            }
            assert(b.deep_view() =~= (BuilderV {
                finish_log: b0.finish_log + spec_finish_hooks(cur),
                ..b0
            }));
            i = i + 1;
        }
        assert(self.entries.deep_view().take(self.entries.len() as int)
            =~= self.entries.deep_view());
        assert(b.deep_view() =~= (BuilderV {
            finish_log: b0.finish_log + spec_finish_hooks(self.entries.deep_view()),
            ..b0
        }));
    }
}

} // verus!
