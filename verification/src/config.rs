//! The configuration grammar: raw entries, the closed key vocabulary, and
//! the parse into an ordered list of tagged entries.
//!
//! A plugin's configuration arrives as an ordered sequence of raw entries,
//! each a key with a shaped value (a type list, an expression list, a map
//! from state values to expression lists, a callable handle, a nested meta
//! map, or a map of named booleans). The parser walks the sequence once,
//! in order. An entry whose key and shape do not match a row of the
//! vocabulary stops the parse with an error naming the offending key; a
//! dependency declaration anywhere but first stops it as well. The
//! successful result is the tagged representation that every later pass
//! folds over.

use vstd::prelude::*;

use vstd::string::StringExecFns;

use crate::metadata::TypeInfo;
use crate::metadata::TypeInfoV;
use crate::metadata::copy_type_info;
use crate::metadata::copy_type_list;
use crate::text::str_eq;

verus! {

/// An expression occurring in a configuration: its display form together
/// with the identity token of whatever it constructs or names (a resource
/// value's type, a sub-plugin, a system).
#[derive(Debug)]
pub struct Expr {
    /// Display form of the expression.
    pub name: String,
    /// Identity token of what the expression stands for.
    pub id: u64,
}

/// Specification-level image of an `Expr`.
#[verifier::ext_equal]
pub struct ExprV {
    pub name: Seq<char>,
    pub id: u64,
}

impl DeepView for Expr {
    type V = ExprV;

    open spec fn deep_view(&self) -> ExprV {
        ExprV { name: self.name@, id: self.id }
    }
}

impl Expr {
    /// Wrap a display form and an identity token.
    pub fn new(name: String, id: u64) -> (r: Expr)
        ensures
            r.deep_view() == (ExprV { name: name@, id: id }),
    {
        Expr { name, id }
    }
}

/// A copy of an expression with the same display form and token.
pub fn copy_expr(e: &Expr) -> (r: Expr)
    ensures
        r.deep_view() == e.deep_view(),
{
    Expr { name: e.name.clone(), id: e.id }
}

/// A copy of an expression list with the same contents.
pub fn copy_expr_list(v: &Vec<Expr>) -> (r: Vec<Expr>)
    ensures
        r.deep_view() == v.deep_view(),
{
    let mut out: Vec<Expr> = Vec::new();
    let mut i: usize = 0;
    while i < v.len()
        invariant
            i <= v.len(),
            out@.len() == i,
            forall|j: int| 0 <= j < i ==> out.deep_view()[j] == v.deep_view()[j],
        decreases v.len() - i,
    {
        out.push(copy_expr(&v[i]));
        i = i + 1;
    }
    assert(out.deep_view() =~= v.deep_view());
    out
}

/// The identity record a resource-constructing expression registers: the
/// expression's display form as the name, with its token.
pub open spec fn spec_expr_type_info(x: ExprV) -> TypeInfoV {
    TypeInfoV { name: x.name, id: x.id }
}

/// The identity records of an expression list, in order.
pub fn expr_type_infos(es: &Vec<Expr>) -> (r: Vec<TypeInfo>)
    ensures
        r.deep_view() == es.deep_view().map_values(|x: ExprV| spec_expr_type_info(x)),
{
    let mut out: Vec<TypeInfo> = Vec::new();
    let mut i: usize = 0;
    while i < es.len()
        invariant
            i <= es.len(),
            out@.len() == i,
            forall|j: int|
                0 <= j < i ==> out.deep_view()[j] == spec_expr_type_info(
                    #[trigger] es.deep_view()[j],
                ),
        decreases es.len() - i,
    {
        out.push(TypeInfo { name: es[i].name.clone(), id: es[i].id });
        i = i + 1;
    }
    assert(out.deep_view() =~= es.deep_view().map_values(
        |x: ExprV| spec_expr_type_info(x),
    ));
    out
}

/// One arm of a state map: a state value and the systems attached to it.
#[derive(Debug)]
pub struct StateArm {
    /// Display form of the state value.
    pub state: Expr,
    /// Systems run for that state value.
    pub systems: Vec<Expr>,
}

/// Specification-level image of a `StateArm`.
#[verifier::ext_equal]
pub struct StateArmV {
    pub state: ExprV,
    pub systems: Seq<ExprV>,
}

impl DeepView for StateArm {
    type V = StateArmV;

    open spec fn deep_view(&self) -> StateArmV {
        StateArmV { state: self.state.deep_view(), systems: self.systems.deep_view() }
    }
}

/// A copy of a state-map arm with the same contents.
pub fn copy_state_arm(a: &StateArm) -> (r: StateArm)
    ensures
        r.deep_view() == a.deep_view(),
{
    let r = StateArm { state: copy_expr(&a.state), systems: copy_expr_list(&a.systems) };
    assert(r.deep_view() =~= a.deep_view());
    r
}

/// A copy of a state map with the same arms.
pub fn copy_state_arms(v: &Vec<StateArm>) -> (r: Vec<StateArm>)
    ensures
        r.deep_view() == v.deep_view(),
{
    let mut out: Vec<StateArm> = Vec::new();
    let mut i: usize = 0;
    while i < v.len()
        invariant
            i <= v.len(),
            out@.len() == i,
            forall|j: int| 0 <= j < i ==> out.deep_view()[j] == v.deep_view()[j],
        decreases v.len() - i,
    {
        out.push(copy_state_arm(&v[i]));
        i = i + 1;
    }
    assert(out.deep_view() =~= v.deep_view());
    out
}

/// The nested meta map: an optional version and an optional description.
#[derive(Debug)]
pub struct MetaBlock {
    /// Version text, if given.
    pub version: Option<String>,
    /// Description text, if given.
    pub description: Option<String>,
}

/// Specification-level image of a `MetaBlock`.
#[verifier::ext_equal]
pub struct MetaBlockV {
    pub version: Option<Seq<char>>,
    pub description: Option<Seq<char>>,
}

impl DeepView for MetaBlock {
    type V = MetaBlockV;

    open spec fn deep_view(&self) -> MetaBlockV {
        MetaBlockV {
            version: self.version.deep_view(),
            description: self.description.deep_view(),
        }
    }
}

/// A copy of a meta block with the same contents.
pub fn copy_meta_block(m: &MetaBlock) -> (r: MetaBlock)
    ensures
        r.deep_view() == m.deep_view(),
{
    let r = MetaBlock {
        version: match &m.version {
            Some(v) => Some(v.clone()),
            None => None,
        },
        description: match &m.description {
            Some(d) => Some(d.clone()),
            None => None,
        },
    };
    assert(r.deep_view() =~= m.deep_view());
    r
}

/// The four independent booleans that opt into conformance-check emission.
/// A flag that the opt-in map does not name stays `false`.
#[derive(Clone, Copy, PartialEq, Eq, Structural, Debug)]
pub struct TestFlags {
    pub test_resources: bool,
    pub test_messages: bool,
    pub test_states: bool,
    pub test_dependencies: bool,
}

impl DeepView for TestFlags {
    type V = TestFlags;

    open spec fn deep_view(&self) -> TestFlags {
        *self
    }
}

impl TestFlags {
    /// All four flags off.
    pub fn none() -> (r: TestFlags)
        ensures
            r == (TestFlags {
                test_resources: false,
                test_messages: false,
                test_states: false,
                test_dependencies: false,
            }),
    {
        TestFlags {
            test_resources: false,
            test_messages: false,
            test_states: false,
            test_dependencies: false,
        }
    }
}

/// One named boolean inside the opt-in map.
#[derive(Debug)]
pub struct FlagSetting {
    /// Flag name.
    pub name: String,
    /// Flag value.
    pub value: bool,
}

/// Specification-level image of a `FlagSetting`.
#[verifier::ext_equal]
pub struct FlagSettingV {
    pub name: Seq<char>,
    pub value: bool,
}

impl DeepView for FlagSetting {
    type V = FlagSettingV;

    open spec fn deep_view(&self) -> FlagSettingV {
        FlagSettingV { name: self.name@, value: self.value }
    }
}

/// The shaped value attached to a configuration key.
#[derive(Debug)]
pub enum RawValue {
    /// A list of type references.
    Types(Vec<TypeInfo>),
    /// A list of expressions.
    Exprs(Vec<Expr>),
    /// A map from state values to expression lists.
    StateMap(Vec<StateArm>),
    /// A single callable, by its handle.
    Callable(u64),
    /// The nested meta map.
    MetaMap(MetaBlock),
    /// A map of named booleans.
    FlagMap(Vec<FlagSetting>),
}

/// Specification-level image of a `RawValue`.
#[verifier::ext_equal]
pub enum RawValueV {
    Types(Seq<TypeInfoV>),
    Exprs(Seq<ExprV>),
    StateMap(Seq<StateArmV>),
    Callable(u64),
    MetaMap(MetaBlockV),
    FlagMap(Seq<FlagSettingV>),
}

impl DeepView for RawValue {
    type V = RawValueV;

    open spec fn deep_view(&self) -> RawValueV {
        match self {
            RawValue::Types(ts) => RawValueV::Types(ts.deep_view()),
            RawValue::Exprs(es) => RawValueV::Exprs(es.deep_view()),
            RawValue::StateMap(arms) => RawValueV::StateMap(arms.deep_view()),
            RawValue::Callable(h) => RawValueV::Callable(*h),
            RawValue::MetaMap(m) => RawValueV::MetaMap(m.deep_view()),
            RawValue::FlagMap(fs) => RawValueV::FlagMap(fs.deep_view()),
        }
    }
}

/// One raw configuration entry: a key with its shaped value.
#[derive(Debug)]
pub struct RawEntry {
    /// The key.
    pub key: String,
    /// The value.
    pub value: RawValue,
}

/// Specification-level image of a `RawEntry`.
#[verifier::ext_equal]
pub struct RawEntryV {
    pub key: Seq<char>,
    pub value: RawValueV,
}

impl DeepView for RawEntry {
    type V = RawEntryV;

    open spec fn deep_view(&self) -> RawEntryV {
        RawEntryV { key: self.key@, value: self.value.deep_view() }
    }
}

/// A recognized configuration entry, tagged by key.
#[derive(Debug)]
pub enum ConfigEntry {
    /// `meta`: feeds the metadata pass only.
    Meta(MetaBlock),
    /// `depends_on`: required predecessor plugins; must be first.
    DependsOn(Vec<TypeInfo>),
    /// `init_resource`: default-constructed resources.
    InitResource(Vec<TypeInfo>),
    /// `insert_resource`: resource instances by value.
    InsertResource(Vec<Expr>),
    /// `add_message`: message channel types.
    AddMessage(Vec<TypeInfo>),
    /// `add_plugins`: nested sub-plugins.
    AddPlugins(Vec<Expr>),
    /// `init_state`: top-level state machines.
    InitState(Vec<TypeInfo>),
    /// `add_sub_state`: hierarchical sub-states.
    AddSubState(Vec<TypeInfo>),
    /// `register_type`: types for the reflection collaborator.
    RegisterType(Vec<TypeInfo>),
    /// `add_systems_startup`: one-time initialization systems.
    SystemsStartup(Vec<Expr>),
    /// `add_systems_update`: per-frame systems.
    SystemsUpdate(Vec<Expr>),
    /// `add_systems_fixed_update`: fixed-timestep systems.
    SystemsFixedUpdate(Vec<Expr>),
    /// `add_systems_on_enter`: systems run on state entry.
    SystemsOnEnter(Vec<StateArm>),
    /// `add_systems_on_exit`: systems run on state exit.
    SystemsOnExit(Vec<StateArm>),
    /// `custom_build`: escape-hatch callable for the build phase.
    CustomBuild(u64),
    /// `custom_finish`: escape-hatch callable for the finish phase.
    CustomFinish(u64),
    /// `generate_tests`: opts into conformance-check emission.
    GenerateTests(TestFlags),
}

/// Specification-level image of a `ConfigEntry`.
#[verifier::ext_equal]
pub enum ConfigEntryV {
    Meta(MetaBlockV),
    DependsOn(Seq<TypeInfoV>),
    InitResource(Seq<TypeInfoV>),
    InsertResource(Seq<ExprV>),
    AddMessage(Seq<TypeInfoV>),
    AddPlugins(Seq<ExprV>),
    InitState(Seq<TypeInfoV>),
    AddSubState(Seq<TypeInfoV>),
    RegisterType(Seq<TypeInfoV>),
    SystemsStartup(Seq<ExprV>),
    SystemsUpdate(Seq<ExprV>),
    SystemsFixedUpdate(Seq<ExprV>),
    SystemsOnEnter(Seq<StateArmV>),
    SystemsOnExit(Seq<StateArmV>),
    CustomBuild(u64),
    CustomFinish(u64),
    GenerateTests(TestFlags),
}

impl DeepView for ConfigEntry {
    type V = ConfigEntryV;

    open spec fn deep_view(&self) -> ConfigEntryV {
        match self {
            ConfigEntry::Meta(m) => ConfigEntryV::Meta(m.deep_view()),
            ConfigEntry::DependsOn(ts) => ConfigEntryV::DependsOn(ts.deep_view()),
            ConfigEntry::InitResource(ts) => ConfigEntryV::InitResource(ts.deep_view()),
            ConfigEntry::InsertResource(es) => ConfigEntryV::InsertResource(es.deep_view()),
            ConfigEntry::AddMessage(ts) => ConfigEntryV::AddMessage(ts.deep_view()),
            ConfigEntry::AddPlugins(es) => ConfigEntryV::AddPlugins(es.deep_view()),
            ConfigEntry::InitState(ts) => ConfigEntryV::InitState(ts.deep_view()),
            ConfigEntry::AddSubState(ts) => ConfigEntryV::AddSubState(ts.deep_view()),
            ConfigEntry::RegisterType(ts) => ConfigEntryV::RegisterType(ts.deep_view()),
            ConfigEntry::SystemsStartup(es) => ConfigEntryV::SystemsStartup(es.deep_view()),
            ConfigEntry::SystemsUpdate(es) => ConfigEntryV::SystemsUpdate(es.deep_view()),
            ConfigEntry::SystemsFixedUpdate(es) => ConfigEntryV::SystemsFixedUpdate(
                es.deep_view(),
            ),
            ConfigEntry::SystemsOnEnter(arms) => ConfigEntryV::SystemsOnEnter(arms.deep_view()),
            ConfigEntry::SystemsOnExit(arms) => ConfigEntryV::SystemsOnExit(arms.deep_view()),
            ConfigEntry::CustomBuild(h) => ConfigEntryV::CustomBuild(*h),
            ConfigEntry::CustomFinish(h) => ConfigEntryV::CustomFinish(*h),
            ConfigEntry::GenerateTests(f) => ConfigEntryV::GenerateTests(*f),
        }
    }
}

/// The error a configuration can fail with.
#[derive(Debug)]
pub enum ConfigError {
    /// An entry whose key (or opt-in flag name) lies outside the closed
    /// vocabulary, or whose value has the wrong shape for its key.
    UnknownKey(String),
    /// A dependency declaration anywhere but the first entry.
    MisplacedDependsOn,
}

/// Specification-level image of a `ConfigError`.
#[verifier::ext_equal]
pub enum ConfigErrorV {
    UnknownKey(Seq<char>),
    MisplacedDependsOn,
}

impl DeepView for ConfigError {
    type V = ConfigErrorV;

    open spec fn deep_view(&self) -> ConfigErrorV {
        match self {
            ConfigError::UnknownKey(k) => ConfigErrorV::UnknownKey(k@),
            ConfigError::MisplacedDependsOn => ConfigErrorV::MisplacedDependsOn,
        }
    }
}

/// The rendered diagnostic of a configuration error: an unrecognized key
/// is named, and the whole vocabulary is listed.
pub open spec fn spec_config_error_message(e: ConfigErrorV) -> Seq<char> {
    match e {
        ConfigErrorV::UnknownKey(k) => "Unknown plugin configuration option: "@ + k
            + "\nSupported options: depends_on, meta, init_resource, insert_resource, add_message, add_plugins, init_state, add_sub_state, register_type, add_systems_startup, add_systems_update, add_systems_fixed_update, add_systems_on_enter, add_systems_on_exit, custom_build, custom_finish, generate_tests"@,
        ConfigErrorV::MisplacedDependsOn => "Configuration option depends_on must be the first entry"@,
    }
}

impl ConfigError {
    /// The rendered diagnostic.
    pub fn message(&self) -> (r: String)
        ensures
            r@ == spec_config_error_message(self.deep_view()),
    {
        match self {
            ConfigError::UnknownKey(k) => {
                let r = String::from_str("Unknown plugin configuration option: ").concat(
                    k.as_str(),
                ).concat(
                    "\nSupported options: depends_on, meta, init_resource, insert_resource, add_message, add_plugins, init_state, add_sub_state, register_type, add_systems_startup, add_systems_update, add_systems_fixed_update, add_systems_on_enter, add_systems_on_exit, custom_build, custom_finish, generate_tests",
                );
                assert(r@ =~= spec_config_error_message(self.deep_view()));
                r
            },
            ConfigError::MisplacedDependsOn => {
                String::from_str("Configuration option depends_on must be the first entry")
            },
        }
    }
}

/// Folding of the named booleans of an opt-in map, in order, over defaults
/// of `false`; a later setting of the same flag wins. A name outside the
/// four recognized flags fails the fold.
pub open spec fn spec_fold_flags(acc: TestFlags, fs: Seq<FlagSettingV>) -> Option<TestFlags>
    decreases fs.len(),
{
    if fs.len() == 0 {
        Some(acc)
    } else {
        let f = fs[0];
        if f.name == "test_resources"@ {
            spec_fold_flags(TestFlags { test_resources: f.value, ..acc }, fs.drop_first())
        } else if f.name == "test_messages"@ {
            spec_fold_flags(TestFlags { test_messages: f.value, ..acc }, fs.drop_first())
        } else if f.name == "test_states"@ {
            spec_fold_flags(TestFlags { test_states: f.value, ..acc }, fs.drop_first())
        } else if f.name == "test_dependencies"@ {
            spec_fold_flags(TestFlags { test_dependencies: f.value, ..acc }, fs.drop_first())
        } else {
            None
        }
    }
}

/// The first flag name that `spec_fold_flags` rejects, if any.
pub open spec fn spec_bad_flag(fs: Seq<FlagSettingV>) -> Seq<char>
    decreases fs.len(),
{
    if fs.len() == 0 {
        Seq::empty()
    } else {
        let f = fs[0];
        if f.name == "test_resources"@ || f.name == "test_messages"@ || f.name
            == "test_states"@ || f.name == "test_dependencies"@ {
            spec_bad_flag(fs.drop_first())
        } else {
            f.name
        }
    }
}

/// What a raw entry parses to: the tagged entry for a recognized key of
/// the right shape; otherwise the error naming the offending key (for an
/// opt-in map that folded badly, the offending flag name). The rows of the
/// vocabulary are tried in the order the diagnostic lists them.
pub open spec fn spec_parse_entry(e: RawEntryV) -> Result<ConfigEntryV, ConfigErrorV> {
    if e.key == "depends_on"@ {
        match e.value {
            RawValueV::Types(ts) => Ok(ConfigEntryV::DependsOn(ts)),
            _ => Err(ConfigErrorV::UnknownKey(e.key)),
        }
    } else if e.key == "meta"@ {
        match e.value {
            RawValueV::MetaMap(m) => Ok(ConfigEntryV::Meta(m)),
            _ => Err(ConfigErrorV::UnknownKey(e.key)),
        }
    } else if e.key == "init_resource"@ {
        match e.value {
            RawValueV::Types(ts) => Ok(ConfigEntryV::InitResource(ts)),
            _ => Err(ConfigErrorV::UnknownKey(e.key)),
        }
    } else if e.key == "insert_resource"@ {
        match e.value {
            RawValueV::Exprs(es) => Ok(ConfigEntryV::InsertResource(es)),
            _ => Err(ConfigErrorV::UnknownKey(e.key)),
        }
    } else if e.key == "add_message"@ {
        match e.value {
            RawValueV::Types(ts) => Ok(ConfigEntryV::AddMessage(ts)),
            _ => Err(ConfigErrorV::UnknownKey(e.key)),
        }
    } else if e.key == "add_plugins"@ {
        match e.value {
            RawValueV::Exprs(es) => Ok(ConfigEntryV::AddPlugins(es)),
            _ => Err(ConfigErrorV::UnknownKey(e.key)),
        }
    } else if e.key == "init_state"@ {
        match e.value {
            RawValueV::Types(ts) => Ok(ConfigEntryV::InitState(ts)),
            _ => Err(ConfigErrorV::UnknownKey(e.key)),
        }
    } else if e.key == "add_sub_state"@ {
        match e.value {
            RawValueV::Types(ts) => Ok(ConfigEntryV::AddSubState(ts)),
            _ => Err(ConfigErrorV::UnknownKey(e.key)),
        }
    } else if e.key == "register_type"@ {
        match e.value {
            RawValueV::Types(ts) => Ok(ConfigEntryV::RegisterType(ts)),
            _ => Err(ConfigErrorV::UnknownKey(e.key)),
        }
    } else if e.key == "add_systems_startup"@ {
        match e.value {
            RawValueV::Exprs(es) => Ok(ConfigEntryV::SystemsStartup(es)),
            _ => Err(ConfigErrorV::UnknownKey(e.key)),
        }
    } else if e.key == "add_systems_update"@ {
        match e.value {
            RawValueV::Exprs(es) => Ok(ConfigEntryV::SystemsUpdate(es)),
            _ => Err(ConfigErrorV::UnknownKey(e.key)),
        }
    } else if e.key == "add_systems_fixed_update"@ {
        match e.value {
            RawValueV::Exprs(es) => Ok(ConfigEntryV::SystemsFixedUpdate(es)),
            _ => Err(ConfigErrorV::UnknownKey(e.key)),
        }
    } else if e.key == "add_systems_on_enter"@ {
        match e.value {
            RawValueV::StateMap(arms) => Ok(ConfigEntryV::SystemsOnEnter(arms)),
            _ => Err(ConfigErrorV::UnknownKey(e.key)),
        }
    } else if e.key == "add_systems_on_exit"@ {
        match e.value {
            RawValueV::StateMap(arms) => Ok(ConfigEntryV::SystemsOnExit(arms)),
            _ => Err(ConfigErrorV::UnknownKey(e.key)),
        }
    } else if e.key == "custom_build"@ {
        match e.value {
            RawValueV::Callable(h) => Ok(ConfigEntryV::CustomBuild(h)),
            _ => Err(ConfigErrorV::UnknownKey(e.key)),
        }
    } else if e.key == "custom_finish"@ {
        match e.value {
            RawValueV::Callable(h) => Ok(ConfigEntryV::CustomFinish(h)),
            _ => Err(ConfigErrorV::UnknownKey(e.key)),
        }
    } else if e.key == "generate_tests"@ {
        match e.value {
            RawValueV::FlagMap(fs) => match spec_fold_flags(TestFlags::spec_none(), fs) {
                Some(flags) => Ok(ConfigEntryV::GenerateTests(flags)),
                None => Err(ConfigErrorV::UnknownKey(spec_bad_flag(fs))),
            },
            _ => Err(ConfigErrorV::UnknownKey(e.key)),
        }
    } else {
        Err(ConfigErrorV::UnknownKey(e.key))
    }
}

/// What a raw configuration parses to: the tagged entries in order, or the
/// error of the first offending entry. A dependency declaration is in
/// place only as the very first entry.
pub open spec fn spec_parse(raw: Seq<RawEntryV>) -> Result<Seq<ConfigEntryV>, ConfigErrorV>
    decreases raw.len(),
{
    if raw.len() == 0 {
        Ok(Seq::empty())
    } else {
        match spec_parse(raw.drop_last()) {
            Err(e) => Err(e),
            Ok(pre) => match spec_parse_entry(raw.last()) {
                Err(e) => Err(e),
                Ok(ce) => if (ce matches ConfigEntryV::DependsOn(_)) && raw.len() > 1 {
                    Err(ConfigErrorV::MisplacedDependsOn)
                } else {
                    Ok(pre.push(ce))
                },
            },
        }
    }
}

/// Folding of an opt-in map's named booleans, from all-off defaults.
fn fold_flags(fs: &Vec<FlagSetting>) -> (r: Result<TestFlags, ConfigError>)
    ensures
        (match spec_fold_flags(TestFlags::spec_none(), fs.deep_view()) {
            Some(flags) => r matches Ok(f) && f == flags,
            None => r matches Err(e) && e.deep_view() == ConfigErrorV::UnknownKey(
                spec_bad_flag(fs.deep_view()),
            ),
        }),
{
    let mut acc = TestFlags::none();
    let mut i: usize = 0;
    assert(fs.deep_view().skip(0) =~= fs.deep_view());
    while i < fs.len()
        invariant
            i <= fs.len(),
            spec_fold_flags(TestFlags::spec_none(), fs.deep_view()) == spec_fold_flags(
                acc,
                fs.deep_view().skip(i as int),
            ),
            spec_bad_flag(fs.deep_view()) == spec_bad_flag(fs.deep_view().skip(i as int)),
        decreases fs.len() - i,
    {
        let ghost rest = fs.deep_view().skip(i as int);
        assert(rest[0] == fs.deep_view()[i as int]);
        assert(rest.drop_first() =~= fs.deep_view().skip(i + 1));
        let f = &fs[i];
        if str_eq(f.name.as_str(), "test_resources") {
            acc = TestFlags { test_resources: f.value, ..acc };
        } else if str_eq(f.name.as_str(), "test_messages") {
            acc = TestFlags { test_messages: f.value, ..acc };
        } else if str_eq(f.name.as_str(), "test_states") {
            acc = TestFlags { test_states: f.value, ..acc };
        } else if str_eq(f.name.as_str(), "test_dependencies") {
            acc = TestFlags { test_dependencies: f.value, ..acc };
        } else {
            return Err(ConfigError::UnknownKey(f.name.clone()));
        }
        i = i + 1;
    }
    assert(fs.deep_view().skip(fs.len() as int) =~= Seq::<FlagSettingV>::empty());
    Ok(acc)
}

impl TestFlags {
    /// All four flags off, at the specification level.
    pub open spec fn spec_none() -> TestFlags {
        TestFlags {
            test_resources: false,
            test_messages: false,
            test_states: false,
            test_dependencies: false,
        }
    }
}

/// Parsing of one raw entry against the vocabulary.
#[verifier::rlimit(60)]
fn parse_entry(e: &RawEntry) -> (r: Result<ConfigEntry, ConfigError>)
    ensures
        (match spec_parse_entry(e.deep_view()) {
            Ok(ce) => r matches Ok(c) && c.deep_view() == ce,
            Err(ev) => r matches Err(err) && err.deep_view() == ev,
        }),
{
    let k = e.key.as_str();
    if str_eq(k, "depends_on") {
        match &e.value {
            RawValue::Types(ts) => Ok(ConfigEntry::DependsOn(copy_type_list(ts))),
            _ => Err(ConfigError::UnknownKey(e.key.clone())),
        }
    } else if str_eq(k, "meta") {
        match &e.value {
            RawValue::MetaMap(m) => Ok(ConfigEntry::Meta(copy_meta_block(m))),
            _ => Err(ConfigError::UnknownKey(e.key.clone())),
        }
    } else if str_eq(k, "init_resource") {
        match &e.value {
            RawValue::Types(ts) => Ok(ConfigEntry::InitResource(copy_type_list(ts))),
            _ => Err(ConfigError::UnknownKey(e.key.clone())),
        }
    } else if str_eq(k, "insert_resource") {
        match &e.value {
            RawValue::Exprs(es) => Ok(ConfigEntry::InsertResource(copy_expr_list(es))),
            _ => Err(ConfigError::UnknownKey(e.key.clone())),
        }
    } else if str_eq(k, "add_message") {
        match &e.value {
            RawValue::Types(ts) => Ok(ConfigEntry::AddMessage(copy_type_list(ts))),
            _ => Err(ConfigError::UnknownKey(e.key.clone())),
        }
    } else if str_eq(k, "add_plugins") {
        match &e.value {
            RawValue::Exprs(es) => Ok(ConfigEntry::AddPlugins(copy_expr_list(es))),
            _ => Err(ConfigError::UnknownKey(e.key.clone())),
        }
    } else if str_eq(k, "init_state") {
        match &e.value {
            RawValue::Types(ts) => Ok(ConfigEntry::InitState(copy_type_list(ts))),
            _ => Err(ConfigError::UnknownKey(e.key.clone())),
        }
    } else if str_eq(k, "add_sub_state") {
        match &e.value {
            RawValue::Types(ts) => Ok(ConfigEntry::AddSubState(copy_type_list(ts))),
            _ => Err(ConfigError::UnknownKey(e.key.clone())),
        }
    } else if str_eq(k, "register_type") {
        match &e.value {
            RawValue::Types(ts) => Ok(ConfigEntry::RegisterType(copy_type_list(ts))),
            _ => Err(ConfigError::UnknownKey(e.key.clone())),
        }
    } else if str_eq(k, "add_systems_startup") {
        match &e.value {
            RawValue::Exprs(es) => Ok(ConfigEntry::SystemsStartup(copy_expr_list(es))),
            _ => Err(ConfigError::UnknownKey(e.key.clone())),
        }
    } else if str_eq(k, "add_systems_update") {
        match &e.value {
            RawValue::Exprs(es) => Ok(ConfigEntry::SystemsUpdate(copy_expr_list(es))),
            _ => Err(ConfigError::UnknownKey(e.key.clone())),
        }
    } else if str_eq(k, "add_systems_fixed_update") {
        match &e.value {
            RawValue::Exprs(es) => Ok(ConfigEntry::SystemsFixedUpdate(copy_expr_list(es))),
            _ => Err(ConfigError::UnknownKey(e.key.clone())),
        }
    } else if str_eq(k, "add_systems_on_enter") {
        match &e.value {
            RawValue::StateMap(arms) => Ok(ConfigEntry::SystemsOnEnter(copy_state_arms(arms))),
            _ => Err(ConfigError::UnknownKey(e.key.clone())),
        }
    } else if str_eq(k, "add_systems_on_exit") {
        match &e.value {
            RawValue::StateMap(arms) => Ok(ConfigEntry::SystemsOnExit(copy_state_arms(arms))),
            _ => Err(ConfigError::UnknownKey(e.key.clone())),
        }
    } else if str_eq(k, "custom_build") {
        match &e.value {
            RawValue::Callable(h) => Ok(ConfigEntry::CustomBuild(*h)),
            _ => Err(ConfigError::UnknownKey(e.key.clone())),
        }
    } else if str_eq(k, "custom_finish") {
        match &e.value {
            RawValue::Callable(h) => Ok(ConfigEntry::CustomFinish(*h)),
            _ => Err(ConfigError::UnknownKey(e.key.clone())),
        }
    } else if str_eq(k, "generate_tests") {
        match &e.value {
            RawValue::FlagMap(fs) => match fold_flags(fs) {
                Ok(flags) => Ok(ConfigEntry::GenerateTests(flags)),
                Err(err) => Err(err),
            },
            _ => Err(ConfigError::UnknownKey(e.key.clone())),
        }
    } else {
        Err(ConfigError::UnknownKey(e.key.clone()))
    }
}

/// Parsing of a whole raw configuration, in order, stopping at the first
/// entry that the vocabulary rejects or that stands in the wrong place.
pub fn parse_config(raw: &Vec<RawEntry>) -> (r: Result<Vec<ConfigEntry>, ConfigError>)
    ensures
        (match spec_parse(raw.deep_view()) {
            Ok(cfg) => r matches Ok(c) && c.deep_view() == cfg,
            Err(e) => r matches Err(err) && err.deep_view() == e,
        }),
{
    let mut out: Vec<ConfigEntry> = Vec::new();
    let mut i: usize = 0;
    assert(raw.deep_view().take(0) =~= Seq::<RawEntryV>::empty());
    while i < raw.len()
        invariant
            i <= raw.len(),
            spec_parse(raw.deep_view().take(i as int)) matches Ok(cfg) && cfg
                == out.deep_view(),
        decreases raw.len() - i,
    {
        let ghost prefix = raw.deep_view().take(i as int);
        let ghost cur = raw.deep_view().take(i + 1);
        assert(cur.drop_last() =~= prefix);
        assert(cur.last() == raw.deep_view()[i as int]);
        match parse_entry(&raw[i]) {
            Err(err) => {
                proof {
                    spec_parse_prefix_err(raw.deep_view(), i + 1);
                }
                return Err(err);
            },
            Ok(ce) => {
                if i > 0 && ce.is_depends_on() {
                    proof {
                        spec_parse_prefix_err(raw.deep_view(), i + 1);
                    }
                    return Err(ConfigError::MisplacedDependsOn);
                }
                out.push(ce);
                assert(spec_parse(cur) matches Ok(c) && out.deep_view() =~= c);
            },
        }
        i = i + 1;
    }
    assert(raw.deep_view().take(raw.len() as int) =~= raw.deep_view());
    Ok(out)
}

impl ConfigEntry {
    /// Whether this entry is a dependency declaration.
    fn is_depends_on(&self) -> (r: bool)
        ensures
            r == (self.deep_view() matches ConfigEntryV::DependsOn(_)),
    {
        match self {
            ConfigEntry::DependsOn(_) => true,
            _ => false,
        }
    }
}

/// Once a prefix of the raw configuration fails to parse, the whole does,
/// with the same error.
proof fn spec_parse_prefix_err(raw: Seq<RawEntryV>, n: int)
    requires
        0 <= n <= raw.len(),
        spec_parse(raw.take(n)) matches Err(_),
    ensures
        spec_parse(raw) == spec_parse(raw.take(n)),
    decreases raw.len() - n,
{
    if n < raw.len() {
        assert(raw.take(n + 1).drop_last() =~= raw.take(n));
        spec_parse_prefix_err(raw, n + 1);
    } else {
        assert(raw.take(n) =~= raw);
    }
}

} // verus!
