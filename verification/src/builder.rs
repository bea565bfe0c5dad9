//! The model of the host-application builder: the registration calls a
//! plugin's build phase emits, and a recording builder that the calls are
//! applied to.
//!
//! The host application itself is an external collaborator; what the
//! library specifies is the sequence of registration calls handed to it.
//! `Builder` records that sequence together with the set of installed
//! plugin identities, so that presence — of a resource, a message channel,
//! a state machine, an installed plugin — is a statement about the record.

use vstd::prelude::*;

use crate::config::Expr;
use crate::config::ExprV;
use crate::config::copy_expr;
use crate::config::copy_expr_list;
use crate::metadata::TypeInfo;
use crate::metadata::TypeInfoV;
use crate::metadata::copy_type_info;

verus! {

/// A named execution phase a batch of systems is attached to.
#[derive(Debug)]
pub enum Schedule {
    /// One-time initialization.
    Startup,
    /// Per-frame update.
    Update,
    /// Fixed-timestep update.
    FixedUpdate,
    /// Entry into the given state value.
    OnEnter(Expr),
    /// Exit from the given state value.
    OnExit(Expr),
}

/// Specification-level image of a `Schedule`.
#[verifier::ext_equal]
pub enum ScheduleV {
    Startup,
    Update,
    FixedUpdate,
    OnEnter(ExprV),
    OnExit(ExprV),
}

impl DeepView for Schedule {
    type V = ScheduleV;

    open spec fn deep_view(&self) -> ScheduleV {
        match self {
            Schedule::Startup => ScheduleV::Startup,
            Schedule::Update => ScheduleV::Update,
            Schedule::FixedUpdate => ScheduleV::FixedUpdate,
            Schedule::OnEnter(s) => ScheduleV::OnEnter(s.deep_view()),
            Schedule::OnExit(s) => ScheduleV::OnExit(s.deep_view()),
        }
    }
}

/// One registration call against the host builder.
#[derive(Debug)]
pub enum BuilderCall {
    /// Default-construct and register a resource.
    InitResource(TypeInfo),
    /// Register a resource instance by value.
    InsertResource(Expr),
    /// Register a message channel type.
    AddMessage(TypeInfo),
    /// Add a nested sub-plugin.
    AddPlugin(Expr),
    /// Initialize a top-level state machine.
    InitState(TypeInfo),
    /// Add a hierarchical sub-state.
    AddSubState(TypeInfo),
    /// Register a type with the reflection collaborator.
    RegisterType(TypeInfo),
    /// Attach a batch of systems to a schedule, in one call, preserving
    /// whatever ordering or run-condition combinators the expressions carry.
    AddSystems(Schedule, Vec<Expr>),
    /// Run a build-phase escape-hatch callable, by its handle.
    RunBuildHook(u64),
}

/// Specification-level image of a `BuilderCall`.
#[verifier::ext_equal]
pub enum BuilderCallV {
    InitResource(TypeInfoV),
    InsertResource(ExprV),
    AddMessage(TypeInfoV),
    AddPlugin(ExprV),
    InitState(TypeInfoV),
    AddSubState(TypeInfoV),
    RegisterType(TypeInfoV),
    AddSystems(ScheduleV, Seq<ExprV>),
    RunBuildHook(u64),
}

impl DeepView for BuilderCall {
    type V = BuilderCallV;

    open spec fn deep_view(&self) -> BuilderCallV {
        match self {
            BuilderCall::InitResource(t) => BuilderCallV::InitResource(t.deep_view()),
            BuilderCall::InsertResource(e) => BuilderCallV::InsertResource(e.deep_view()),
            BuilderCall::AddMessage(t) => BuilderCallV::AddMessage(t.deep_view()),
            BuilderCall::AddPlugin(e) => BuilderCallV::AddPlugin(e.deep_view()),
            BuilderCall::InitState(t) => BuilderCallV::InitState(t.deep_view()),
            BuilderCall::AddSubState(t) => BuilderCallV::AddSubState(t.deep_view()),
            BuilderCall::RegisterType(t) => BuilderCallV::RegisterType(t.deep_view()),
            BuilderCall::AddSystems(s, es) => BuilderCallV::AddSystems(
                s.deep_view(),
                es.deep_view(),
            ),
            BuilderCall::RunBuildHook(h) => BuilderCallV::RunBuildHook(*h),
        }
    }
}

/// A recording host builder: the build-phase calls it received, in order;
/// the identities of installed plugins; and the finish-phase callables run
/// after the build phase.
#[derive(Debug)]
pub struct Builder {
    /// Build-phase registration calls, in the order received.
    pub log: Vec<BuilderCall>,
    /// Identity tokens of installed plugins, in installation order.
    pub installed: Vec<u64>,
    /// Handles of finish-phase callables run, in order.
    pub finish_log: Vec<u64>,
}

/// Specification-level image of a `Builder`.
#[verifier::ext_equal]
pub struct BuilderV {
    pub log: Seq<BuilderCallV>,
    pub installed: Seq<u64>,
    pub finish_log: Seq<u64>,
}

impl DeepView for Builder {
    type V = BuilderV;

    open spec fn deep_view(&self) -> BuilderV {
        BuilderV {
            log: self.log.deep_view(),
            installed: self.installed.deep_view(),
            finish_log: self.finish_log.deep_view(),
        }
    }
}

/// Whether a single call makes the resource with the given token present.
pub open spec fn call_registers_resource(c: BuilderCallV, id: u64) -> bool {
    match c {
        BuilderCallV::InitResource(t) => t.id == id,
        BuilderCallV::InsertResource(e) => e.id == id,
        _ => false,
    }
}

/// Whether the builder holds the resource with the given token.
pub open spec fn builder_has_resource(b: BuilderV, id: u64) -> bool {
    exists|i: int| 0 <= i < b.log.len() && call_registers_resource(b.log[i], id)
}

/// Whether a single call registers the message channel with the given token.
pub open spec fn call_registers_message(c: BuilderCallV, id: u64) -> bool {
    match c {
        BuilderCallV::AddMessage(t) => t.id == id,
        _ => false,
    }
}

/// Whether the builder holds the message channel with the given token.
pub open spec fn builder_has_message(b: BuilderV, id: u64) -> bool {
    exists|i: int| 0 <= i < b.log.len() && call_registers_message(b.log[i], id)
}

/// Whether a single call initializes the state machine with the given token.
pub open spec fn call_registers_state(c: BuilderCallV, id: u64) -> bool {
    match c {
        BuilderCallV::InitState(t) => t.id == id,
        _ => false,
    }
}

/// Whether the builder holds the state machine with the given token.
pub open spec fn builder_has_state(b: BuilderV, id: u64) -> bool {
    exists|i: int| 0 <= i < b.log.len() && call_registers_state(b.log[i], id)
}

/// Whether a plugin with the given identity has been installed, either
/// directly or as a nested sub-plugin.
pub open spec fn builder_has_plugin(b: BuilderV, id: u64) -> bool {
    b.installed.contains(id)
}

/// The effect of one registration call on the builder: the call joins the
/// log, and a nested sub-plugin joins the installed identities.
pub open spec fn spec_apply_call(b: BuilderV, c: BuilderCallV) -> BuilderV {
    let logged = BuilderV { log: b.log.push(c), ..b };
    match c {
        BuilderCallV::AddPlugin(e) => BuilderV {
            installed: b.installed.push(e.id),
            ..logged
        },
        _ => logged,
    }
}

/// The effect of a sequence of registration calls, applied in order.
pub open spec fn spec_apply_calls(b: BuilderV, cs: Seq<BuilderCallV>) -> BuilderV
    decreases cs.len(),
{
    if cs.len() == 0 {
        b
    } else {
        spec_apply_call(spec_apply_calls(b, cs.drop_last()), cs.last())
    }
}

/// Exact copy of a registration call.
pub fn copy_call(c: &BuilderCall) -> (r: BuilderCall)
    ensures
        r.deep_view() == c.deep_view(),
{
    match c {
        BuilderCall::InitResource(t) => BuilderCall::InitResource(copy_type_info(t)),
        BuilderCall::InsertResource(e) => BuilderCall::InsertResource(copy_expr(e)),
        BuilderCall::AddMessage(t) => BuilderCall::AddMessage(copy_type_info(t)),
        BuilderCall::AddPlugin(e) => BuilderCall::AddPlugin(copy_expr(e)),
        BuilderCall::InitState(t) => BuilderCall::InitState(copy_type_info(t)),
        BuilderCall::AddSubState(t) => BuilderCall::AddSubState(copy_type_info(t)),
        BuilderCall::RegisterType(t) => BuilderCall::RegisterType(copy_type_info(t)),
        BuilderCall::AddSystems(s, es) => BuilderCall::AddSystems(
            match s {
                Schedule::Startup => Schedule::Startup,
                Schedule::Update => Schedule::Update,
                Schedule::FixedUpdate => Schedule::FixedUpdate,
                Schedule::OnEnter(sv) => Schedule::OnEnter(copy_expr(sv)),
                Schedule::OnExit(sv) => Schedule::OnExit(copy_expr(sv)),
            },
            copy_expr_list(es),
        ),
        BuilderCall::RunBuildHook(h) => BuilderCall::RunBuildHook(*h),
    }
}

impl Builder {
    /// A fresh builder: no calls received, nothing installed.
    pub fn new() -> (r: Builder)
        ensures
            r.deep_view() == (BuilderV {
                log: Seq::<BuilderCallV>::empty(),
                installed: Seq::<u64>::empty(),
                finish_log: Seq::<u64>::empty(),
            }),
    {
        let r = Builder { log: Vec::new(), installed: Vec::new(), finish_log: Vec::new() };
        assert(r.deep_view() =~= (BuilderV {
            log: Seq::<BuilderCallV>::empty(),
            installed: Seq::<u64>::empty(),
            finish_log: Seq::<u64>::empty(),
        }));
        r
    }

    /// Receive one registration call.
    pub fn apply(&mut self, c: BuilderCall)
        ensures
            final(self).deep_view() == spec_apply_call(old(self).deep_view(), c.deep_view()),
    {
        let is_plugin: Option<u64> = match &c {
            BuilderCall::AddPlugin(e) => Some(e.id),
            _ => None,
        };
        self.log.push(c);
        match is_plugin {
            Some(id) => {
                self.installed.push(id);
            },
            None => {},
        }
        assert(self.deep_view() =~= spec_apply_call(old(self).deep_view(), c.deep_view()));
    }

    /// Mark a plugin identity installed.
    pub fn mark_installed(&mut self, id: u64)
        ensures
            final(self).deep_view() == (BuilderV {
                installed: old(self).deep_view().installed.push(id),
                ..old(self).deep_view()
            }),
    {
        self.installed.push(id);
        assert(self.deep_view() =~= (BuilderV {
            installed: old(self).deep_view().installed.push(id),
            ..old(self).deep_view()
        }));
    }

    /// Run a finish-phase callable.
    pub fn run_finish_hook(&mut self, h: u64)
        ensures
            final(self).deep_view() == (BuilderV {
                finish_log: old(self).deep_view().finish_log.push(h),
                ..old(self).deep_view()
            }),
    {
        self.finish_log.push(h);
        assert(self.deep_view() =~= (BuilderV {
            finish_log: old(self).deep_view().finish_log.push(h),
            ..old(self).deep_view()
        }));
    }

    /// Whether the resource with the given token is present.
    pub fn contains_resource(&self, id: u64) -> (r: bool)
        ensures
            r == builder_has_resource(self.deep_view(), id),
    {
        let mut i: usize = 0;
        while i < self.log.len()
            invariant
                i <= self.log.len(),
                forall|j: int|
                    0 <= j < i ==> !call_registers_resource(self.deep_view().log[j], id),
            decreases self.log.len() - i,
        {
            let hit = match &self.log[i] {
                BuilderCall::InitResource(t) => t.id == id,
                BuilderCall::InsertResource(e) => e.id == id,
                _ => false,
            };
            if hit {
                assert(call_registers_resource(self.deep_view().log[i as int], id));
                return true;
            }
            i = i + 1;
        }
        false
    }

    /// Whether the message channel with the given token is present.
    pub fn contains_message(&self, id: u64) -> (r: bool)
        ensures
            r == builder_has_message(self.deep_view(), id),
    {
        let mut i: usize = 0;
        while i < self.log.len()
            invariant
                i <= self.log.len(),
                forall|j: int|
                    0 <= j < i ==> !call_registers_message(self.deep_view().log[j], id),
            decreases self.log.len() - i,
        {
            let hit = match &self.log[i] {
                BuilderCall::AddMessage(t) => t.id == id,
                _ => false,
            };
            if hit {
                assert(call_registers_message(self.deep_view().log[i as int], id));
                return true;
            }
            i = i + 1;
        }
        false
    }

    /// Whether the state machine with the given token is present.
    pub fn contains_state(&self, id: u64) -> (r: bool)
        ensures
            r == builder_has_state(self.deep_view(), id),
    {
        let mut i: usize = 0;
        while i < self.log.len()
            invariant
                i <= self.log.len(),
                forall|j: int|
                    0 <= j < i ==> !call_registers_state(self.deep_view().log[j], id),
            decreases self.log.len() - i,
        {
            let hit = match &self.log[i] {
                BuilderCall::InitState(t) => t.id == id,
                _ => false,
            };
            if hit {
                assert(call_registers_state(self.deep_view().log[i as int], id));
                return true;
            }
            i = i + 1;
        }
        false
    }

    /// Whether a plugin with the given identity is installed.
    pub fn is_plugin_added(&self, id: u64) -> (r: bool)
        ensures
            r == builder_has_plugin(self.deep_view(), id),
    {
        let mut i: usize = 0;
        while i < self.installed.len()
            invariant
                i <= self.installed.len(),
                forall|j: int| 0 <= j < i ==> self.deep_view().installed[j] != id,
            decreases self.installed.len() - i,
        {
            if self.installed[i] == id {
                assert(self.deep_view().installed[i as int] == id);
                return true;
            }
            i = i + 1;
        }
        false
    }
}

} // verus!
